use image::DynamicImage;
use omni_app::counter_themes::ThemeMode;
use omni_app::effect::{Effect, Job, Outcome, SubscriptionHandle};
use omni_app::features::counter::{Counter, CounterMessage};
use omni_app::omni_app::{Features, OmniApp, OmniAppMessage, SliceView};
use omni_app::system_info::{SystemInfoLine, SystemInformation};
use omni_app::widgets::instax_framer::{
    InstaxFramerMessage, InstaxFramerView, LoadStatus, PickRequest,
};
use omni_app::widgets::system_info::{SystemInfo, SystemInfoMessage, SystemInfoView};

const ALL: Features = Features { counter: true, system_info: true, instax_framer: true };
const NONE: Features = Features { counter: false, system_info: false, instax_framer: false };

fn app(features: Features) -> OmniApp {
    OmniApp::with_features(features, ThemeMode::Dark)
}

fn info() -> SystemInformation {
    SystemInformation {
        system_name: Some("macOS".to_string()),
        system_kernel: None,
        system_version: Some("15.1".to_string()),
    }
}

#[test]
fn application_starts_with_fixed_defaults() {
    let app = app(ALL);
    let counter = app.counter.expect("the counter is enabled");
    assert_eq!(counter.value(), 0);
    assert!(counter.allow_negative());
    assert!(!counter.auto_increment_enabled());
    assert_eq!(app.application_theme_mode, ThemeMode::SystemDefault);
    assert_eq!(app.system_theme_mode, ThemeMode::Dark);
    assert_eq!(app.theme_name, "Gruvbox");
    assert_eq!(app.system_info, Some(SystemInfo { system_info: None }));
    let framer = app.instax_framer.expect("the framer is enabled");
    assert_eq!(framer.load_status(), &LoadStatus::Idle);
    assert_eq!(framer.selected_path(), &None);
}

#[test]
fn application_started_from_the_system_has_every_slice() {
    let app = OmniApp::init();
    assert!(app.counter.is_some());
    assert!(app.system_info.is_some());
    assert!(app.instax_framer.is_some());
    assert_eq!(app.application_theme_mode, ThemeMode::SystemDefault);
    assert_eq!(app.theme_name, "Gruvbox");
}

#[test]
fn only_the_chosen_slices_are_enabled() {
    let app = app(Features { counter: false, system_info: true, instax_framer: false });
    assert!(app.counter.is_none());
    assert!(app.system_info.is_some());
    assert!(app.instax_framer.is_none());
}

#[test]
fn counter_messages_reach_the_counter() {
    let mut app = app(ALL);
    let effect = app.update(OmniAppMessage::CounterEvent(CounterMessage::Decrement));
    assert_eq!(effect, Effect::Nothing);
    app.update(OmniAppMessage::CounterEvent(CounterMessage::Decrement));
    assert_eq!(app.counter.expect("enabled").value(), -2);
    assert_eq!(app.theme_name, "Gruvbox");
    assert_eq!(app.system_info, Some(SystemInfo { system_info: None }));
}

#[test]
fn message_for_a_disabled_slice_is_dropped() {
    let messages = [
        OmniAppMessage::CounterEvent(CounterMessage::Increment),
        OmniAppMessage::CounterEvent(CounterMessage::ToggleAutoIncrement(true)),
        OmniAppMessage::SystemInfo(SystemInfoMessage::SystemInformationLoaded(info())),
        OmniAppMessage::InstaxFramer(InstaxFramerMessage::PickImage),
        OmniAppMessage::InstaxFramer(InstaxFramerMessage::ImagePicked("/a.png".to_string())),
        OmniAppMessage::InstaxFramer(InstaxFramerMessage::ImageLoadingFailed),
    ];
    for message in messages {
        let mut app = app(NONE);
        assert!(app.accepts(&message));
        let effect = app.update(message);
        assert_eq!(app, OmniApp::with_features(NONE, ThemeMode::Dark));
        assert_eq!(effect, Effect::Nothing);
    }
}

#[test]
fn message_for_a_disabled_slice_leaves_the_enabled_ones_alone() {
    let only_counter = Features { counter: true, system_info: false, instax_framer: false };
    let mut app = app(only_counter);
    app.update(OmniAppMessage::CounterEvent(CounterMessage::Increment));
    let effect = app.update(OmniAppMessage::InstaxFramer(InstaxFramerMessage::PickImage));
    assert_eq!(effect, Effect::Nothing);
    assert_eq!(app.counter.expect("enabled").value(), 1);
    assert!(app.instax_framer.is_none());
}

#[test]
fn theme_messages_change_the_preferences_directly() {
    let mut app = app(ALL);
    assert_eq!(app.update(OmniAppMessage::ChangeThemeMode(ThemeMode::Light)), Effect::Nothing);
    assert_eq!(app.application_theme_mode, ThemeMode::Light);
    assert_eq!(app.system_theme_mode, ThemeMode::Dark);
    assert_eq!(
        app.update(OmniAppMessage::SwitchTheme("Solarized".to_string())),
        Effect::Nothing
    );
    assert_eq!(app.theme_name, "Solarized");
    assert_eq!(app.update(OmniAppMessage::NoOp), Effect::Nothing);
    assert_eq!(app.theme_name, "Solarized");
    assert_eq!(app.application_theme_mode, ThemeMode::Light);
}

#[test]
fn switch_to_an_unrecognized_theme_changes_nothing() {
    let mut app = app(ALL);
    let effect = app.update(OmniAppMessage::SwitchTheme("Nord".to_string()));
    assert_eq!(effect, Effect::Nothing);
    assert_eq!(app.theme_name, "Gruvbox");
    assert_eq!(app, OmniApp::with_features(ALL, ThemeMode::Dark));
    assert_eq!(OmniApp::theme_picked("Nord"), OmniAppMessage::NoOp);
    assert_eq!(
        OmniApp::theme_picked("Solarized"),
        OmniAppMessage::SwitchTheme("Solarized".to_string())
    );
}

#[test]
fn framer_effects_come_back_tagged_for_the_framer() {
    let mut app = app(ALL);
    assert_eq!(
        app.update(OmniAppMessage::InstaxFramer(InstaxFramerMessage::PickImage)),
        Effect::Async(Job::PickImageFile)
    );
    let picked = OmniApp::completed(Outcome::ImageFile(Some("/a.png".to_string())));
    assert_eq!(
        picked,
        OmniAppMessage::InstaxFramer(InstaxFramerMessage::ImagePicked("/a.png".to_string()))
    );
    assert_eq!(app.update(picked), Effect::Async(Job::LoadImage("/a.png".to_string())));
    let failed = OmniApp::completed(Outcome::ImageContents(None));
    assert_eq!(failed, OmniAppMessage::InstaxFramer(InstaxFramerMessage::ImageLoadingFailed));
    assert_eq!(
        app.update(failed),
        Effect::Async(Job::Alert {
            title: "Image loading failed...!".to_string(),
            text: "Failed to load image at /a.png".to_string(),
        })
    );
    assert_eq!(app.instax_framer.as_ref().expect("enabled").load_status(), &LoadStatus::Failed);
    assert_eq!(OmniApp::completed(Outcome::AlertClosed), OmniAppMessage::NoOp);
}

#[test]
fn every_outcome_ends_in_exactly_one_message() {
    assert_eq!(
        OmniApp::completed(Outcome::ImageFile(None)),
        OmniAppMessage::InstaxFramer(InstaxFramerMessage::PickCancelled)
    );
    assert_eq!(
        OmniApp::completed(Outcome::ImageContents(Some(vec![1, 2, 3]))),
        OmniAppMessage::InstaxFramer(InstaxFramerMessage::ImageLoadingFailed)
    );
    assert_eq!(
        OmniApp::completed(Outcome::SystemInformation(info())),
        OmniAppMessage::SystemInfo(SystemInfoMessage::SystemInformationLoaded(info()))
    );
    assert_eq!(
        OmniApp::completed(Outcome::Folder(Some("/data".to_string()))),
        OmniAppMessage::NoOp
    );
    assert_eq!(OmniApp::completed(Outcome::Folder(None)), OmniAppMessage::NoOp);
}

#[test]
fn loaded_picture_reaches_the_framer() {
    let mut app = app(ALL);
    app.update(OmniAppMessage::InstaxFramer(InstaxFramerMessage::ImagePicked("/a.png".to_string())));
    let picture = DynamicImage::new_rgb8(2, 2);
    let effect = app.update(OmniAppMessage::InstaxFramer(
        InstaxFramerMessage::ImageLoadingFinished(picture.clone()),
    ));
    assert_eq!(effect, Effect::Nothing);
    assert_eq!(
        app.instax_framer.expect("enabled").load_status(),
        &LoadStatus::Loaded(picture)
    );
}

#[test]
fn system_information_reaches_its_slice() {
    let mut app = app(ALL);
    let effect =
        app.update(OmniAppMessage::SystemInfo(SystemInfoMessage::SystemInformationLoaded(info())));
    assert_eq!(effect, Effect::Nothing);
    assert_eq!(app.system_info, Some(SystemInfo { system_info: Some(info()) }));
}

#[test]
fn view_lists_the_enabled_slices_in_registration_order() {
    let mut app = app(ALL);
    app.update(OmniAppMessage::CounterEvent(CounterMessage::Increment));
    let shown = app.view();
    assert_eq!(
        shown.themes.theme_modes,
        vec![ThemeMode::SystemDefault, ThemeMode::Dark, ThemeMode::Light]
    );
    assert_eq!(shown.themes.selected_mode, ThemeMode::SystemDefault);
    assert_eq!(shown.themes.theme_names, vec!["Default", "Gruvbox", "Solarized"]);
    assert_eq!(shown.themes.selected_theme, "Gruvbox");
    assert_eq!(shown.slices.len(), 3);
    match &shown.slices[0] {
        SliceView::Counter(counter) => {
            assert_eq!(counter.value, 1);
            assert_eq!(counter.reset, Some(CounterMessage::Reset));
        }
        other => panic!("expected the counter first, got {other:?}"),
    }
    assert_eq!(
        shown.slices[1],
        SliceView::SystemInfo(SystemInfoView::Pending("...".to_string()))
    );
    assert_eq!(
        shown.slices[2],
        SliceView::InstaxFramer(InstaxFramerView::PickButton {
            label: "Pick an image file".to_string(),
            on_press: Some(PickRequest),
        })
    );
}

#[test]
fn view_skips_disabled_slices() {
    assert!(app(NONE).view().slices.is_empty());
    let mut app = app(Features { counter: false, system_info: true, instax_framer: true });
    app.update(OmniAppMessage::SystemInfo(SystemInfoMessage::SystemInformationLoaded(info())));
    app.update(OmniAppMessage::InstaxFramer(InstaxFramerMessage::ImagePicked("/a.png".to_string())));
    let shown = app.view();
    assert_eq!(shown.slices.len(), 2);
    assert_eq!(
        shown.slices[0],
        SliceView::SystemInfo(SystemInfoView::Loaded(SystemInfoLine {
            name: "macOS".to_string(),
            kernel: "Unknown".to_string(),
            version: "15.1".to_string(),
        }))
    );
    assert_eq!(
        shown.slices[1],
        SliceView::InstaxFramer(InstaxFramerView::Placeholder("Loading...".to_string()))
    );
}

#[test]
fn subscriptions_are_the_same_when_asked_twice() {
    let app = app(ALL);
    let first = app.subscription();
    let second = app.subscription();
    assert_eq!(first, second);
    assert_eq!(
        first,
        vec![SubscriptionHandle::Every {
            seconds: 1,
            message: OmniAppMessage::CounterEvent(CounterMessage::AutoIncrement),
        }]
    );
}

#[test]
fn subscriptions_do_not_change_with_the_state_of_a_slice() {
    let mut app = app(ALL);
    let before = app.subscription();
    app.update(OmniAppMessage::CounterEvent(CounterMessage::ToggleAutoIncrement(true)));
    app.update(OmniAppMessage::CounterEvent(CounterMessage::AutoIncrement));
    app.update(OmniAppMessage::SwitchTheme("Solarized".to_string()));
    assert_eq!(app.subscription(), before);
}

#[test]
fn no_timer_without_a_counter() {
    let app = app(Features { counter: false, system_info: true, instax_framer: true });
    assert!(app.subscription().is_empty());
}

#[test]
fn timer_tick_moves_the_counter_only_when_enabled() {
    let mut app = app(ALL);
    let tick = OmniAppMessage::CounterEvent(CounterMessage::AutoIncrement);
    assert_eq!(app.update(tick.clone()), Effect::Nothing);
    assert_eq!(app, OmniApp::with_features(ALL, ThemeMode::Dark));
    app.update(OmniAppMessage::CounterEvent(CounterMessage::ToggleAutoIncrement(true)));
    app.update(tick);
    assert_eq!(app.counter.expect("enabled").value(), 1);
}

#[test]
fn start_up_is_a_batch_with_one_member_per_slice_that_has_work() {
    assert_eq!(
        app(ALL).start_up_tasks(),
        Effect::Batch(vec![Effect::Async(Job::FetchSystemInformation), Effect::Nothing])
    );
    assert_eq!(app(NONE).start_up_tasks(), Effect::Batch(vec![]));
    assert_eq!(
        app(Features { counter: true, system_info: true, instax_framer: false }).start_up_tasks(),
        Effect::Batch(vec![Effect::Async(Job::FetchSystemInformation)])
    );
    assert_eq!(
        app(Features { counter: true, system_info: false, instax_framer: true }).start_up_tasks(),
        Effect::Batch(vec![Effect::Nothing])
    );
}

#[test]
fn count_beyond_the_range_does_not_bring_the_application_down() {
    for (value, message) in [
        (isize::MAX, CounterMessage::Increment),
        (isize::MAX, CounterMessage::AutoIncrement),
        (isize::MIN, CounterMessage::Decrement),
    ] {
        let mut app = app(ALL);
        app.counter = Some(Counter::new(value, true, true));
        let message = OmniAppMessage::CounterEvent(message);
        assert!(!app.accepts(&message));
        assert_eq!(app.update(message), Effect::Nothing);
        assert_eq!(app.counter, Some(Counter::new(value, true, true)));
        assert_eq!(app.theme_name, "Gruvbox");
        assert!(app.instax_framer.is_some());
    }
}

#[test]
fn application_takes_answers_that_arrive_out_of_turn() {
    let mut app = app(ALL);
    let stray = [
        OmniAppMessage::InstaxFramer(InstaxFramerMessage::ImageLoadingFailed),
        OmniAppMessage::InstaxFramer(InstaxFramerMessage::ImageLoadingFinished(
            DynamicImage::new_rgb8(1, 1),
        )),
        OmniAppMessage::InstaxFramer(InstaxFramerMessage::PickCancelled),
        OmniAppMessage::NoOp,
    ];
    for message in stray {
        assert!(app.accepts(&message));
        assert_eq!(app.update(message), Effect::Nothing);
        assert_eq!(app, OmniApp::with_features(ALL, ThemeMode::Dark));
    }
}

#[test]
fn lost_load_ends_failed_with_its_alert() {
    let mut app = app(ALL);
    app.update(OmniAppMessage::InstaxFramer(InstaxFramerMessage::ImagePicked("/a.png".to_string())));
    let lost = OmniApp::abandoned(&Job::LoadImage("/a.png".to_string()));
    assert_eq!(lost, OmniAppMessage::InstaxFramer(InstaxFramerMessage::ImageLoadingFailed));
    assert_eq!(
        app.update(lost),
        Effect::Async(Job::Alert {
            title: "Image loading failed...!".to_string(),
            text: "Failed to load image at /a.png".to_string(),
        })
    );
    assert_eq!(app.instax_framer.expect("enabled").load_status(), &LoadStatus::Failed);
}

#[test]
fn lost_file_dialog_counts_as_cancelled() {
    let mut app = app(ALL);
    app.update(OmniAppMessage::InstaxFramer(InstaxFramerMessage::PickImage));
    assert!(app.instax_framer.as_ref().expect("enabled").dialog_open());
    let lost = OmniApp::abandoned(&Job::PickImageFile);
    assert_eq!(lost, OmniAppMessage::InstaxFramer(InstaxFramerMessage::PickCancelled));
    assert_eq!(app.update(lost), Effect::Nothing);
    assert_eq!(app, OmniApp::with_features(ALL, ThemeMode::Dark));
}

#[test]
fn other_lost_jobs_end_in_a_message_that_changes_nothing() {
    for job in [
        Job::PickFolder,
        Job::FetchSystemInformation,
        Job::Alert { title: "t".to_string(), text: "x".to_string() },
    ] {
        assert_eq!(OmniApp::abandoned(&job), OmniAppMessage::NoOp);
    }
}
