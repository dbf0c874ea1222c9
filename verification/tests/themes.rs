use omni_app::counter_themes::{
    all_theme_modes, all_themes, get_system_theme_mode, is_theme_name, mode_from_detection,
    resolve, same_text, theme_from_state, ConcreteTheme, ThemeMode, DEFAULT, GRUVBOX, SOLARIZED,
};
use omni_app::effect::Effect;
use omni_app::features::omni_themes::{OmniThemeMode, OmniThemes, OmniThemesMessage};
use omni_app::omni_app::{Features, OmniApp};

#[test]
fn explicit_mode_decides_whatever_the_system_prefers() {
    for system in [ThemeMode::SystemDefault, ThemeMode::Dark, ThemeMode::Light] {
        assert_eq!(resolve("Gruvbox", ThemeMode::Dark, system), ConcreteTheme::GruvboxDark);
        assert_eq!(resolve("Gruvbox", ThemeMode::Light, system), ConcreteTheme::GruvboxLight);
        assert_eq!(resolve("Solarized", ThemeMode::Dark, system), ConcreteTheme::SolarizedDark);
        assert_eq!(resolve("Solarized", ThemeMode::Light, system), ConcreteTheme::SolarizedLight);
        assert_eq!(resolve("Default", ThemeMode::Dark, system), ConcreteTheme::Dark);
        assert_eq!(resolve("Default", ThemeMode::Light, system), ConcreteTheme::Light);
    }
}

#[test]
fn system_default_defers_to_the_system_mode() {
    assert_eq!(
        resolve("Gruvbox", ThemeMode::SystemDefault, ThemeMode::Dark),
        ConcreteTheme::GruvboxDark
    );
    assert_eq!(
        resolve("Gruvbox", ThemeMode::SystemDefault, ThemeMode::Light),
        ConcreteTheme::GruvboxLight
    );
    assert_eq!(
        resolve("Solarized", ThemeMode::SystemDefault, ThemeMode::Dark),
        ConcreteTheme::SolarizedDark
    );
    assert_eq!(
        resolve("Solarized", ThemeMode::SystemDefault, ThemeMode::Light),
        ConcreteTheme::SolarizedLight
    );
    assert_eq!(resolve("Default", ThemeMode::SystemDefault, ThemeMode::Dark), ConcreteTheme::Dark);
    assert_eq!(
        resolve("Default", ThemeMode::SystemDefault, ThemeMode::Light),
        ConcreteTheme::Light
    );
}

#[test]
fn unknown_theme_names_fall_back_to_the_generic_pair() {
    for name in ["", "gruvbox", "Nord", "Gruvbox ", "Solarized\n"] {
        assert_eq!(resolve(name, ThemeMode::Dark, ThemeMode::Light), ConcreteTheme::Dark);
        assert_eq!(resolve(name, ThemeMode::Light, ThemeMode::Dark), ConcreteTheme::Light);
        assert_eq!(resolve(name, ThemeMode::SystemDefault, ThemeMode::Dark), ConcreteTheme::Dark);
        assert_eq!(
            resolve(name, ThemeMode::SystemDefault, ThemeMode::Light),
            ConcreteTheme::Light
        );
    }
}

#[test]
fn unresolved_effective_mode_defaults_to_one_fixed_theme() {
    for name in ["Default", "Gruvbox", "Solarized", "Nord", ""] {
        assert_eq!(
            resolve(name, ThemeMode::SystemDefault, ThemeMode::SystemDefault),
            ConcreteTheme::GruvboxLight
        );
    }
}

#[test]
fn resolution_is_total_over_the_cross_product() {
    let names = ["Default", "Gruvbox", "Solarized", "Nord"];
    let modes = [ThemeMode::SystemDefault, ThemeMode::Dark, ThemeMode::Light];
    let mut resolved = 0;
    for name in names {
        for application in modes {
            for system in [ThemeMode::Dark, ThemeMode::Light] {
                let theme = resolve(name, application, system);
                let effective =
                    if application == ThemeMode::SystemDefault { system } else { application };
                let dark = matches!(
                    theme,
                    ConcreteTheme::Dark | ConcreteTheme::GruvboxDark | ConcreteTheme::SolarizedDark
                );
                assert_eq!(dark, effective == ThemeMode::Dark);
                resolved += 1;
            }
        }
    }
    assert_eq!(resolved, 24);
}

#[test]
fn theme_names_are_compared_by_their_text() {
    assert!(same_text("Gruvbox", GRUVBOX));
    assert!(!same_text("Gruvbox", SOLARIZED));
    assert!(!same_text("Gruvbo", "Gruvbox"));
    assert!(same_text("", ""));
    assert!(is_theme_name(DEFAULT));
    assert!(is_theme_name(GRUVBOX));
    assert!(is_theme_name(SOLARIZED));
    assert!(!is_theme_name("solarized"));
    assert!(!is_theme_name(""));
}

#[test]
fn mode_labels_read_as_in_the_list_of_choices() {
    assert_eq!(ThemeMode::SystemDefault.label(), "System default");
    assert_eq!(ThemeMode::Dark.label(), "Dark theme");
    assert_eq!(ThemeMode::Light.label(), "Light theme");
}

#[test]
fn choices_are_offered_in_a_fixed_order() {
    assert_eq!(
        all_theme_modes(),
        vec![ThemeMode::SystemDefault, ThemeMode::Dark, ThemeMode::Light]
    );
    assert_eq!(all_themes(), vec!["Default", "Gruvbox", "Solarized"]);
}

#[test]
fn detected_modes_map_to_theme_modes() {
    assert_eq!(mode_from_detection(Ok(dark_light::Mode::Dark)), ThemeMode::Dark);
    assert_eq!(mode_from_detection(Ok(dark_light::Mode::Light)), ThemeMode::Light);
    assert_eq!(mode_from_detection(Ok(dark_light::Mode::Unspecified)), ThemeMode::SystemDefault);
}

#[test]
fn failed_detection_falls_back_to_system_default() {
    assert_eq!(mode_from_detection(Err(dark_light::Error::Timeout)), ThemeMode::SystemDefault);
    assert_eq!(
        mode_from_detection(Err(dark_light::Error::XdgDesktopPortal("no portal".to_string()))),
        ThemeMode::SystemDefault
    );
    assert_eq!(
        mode_from_detection(Err(dark_light::Error::MediaQueryNotSupported)),
        ThemeMode::SystemDefault
    );
}

#[test]
fn system_mode_detection_always_yields_a_mode() {
    let mode = get_system_theme_mode();
    assert!(matches!(mode, ThemeMode::SystemDefault | ThemeMode::Dark | ThemeMode::Light));
}

#[test]
fn theme_from_state_reads_the_three_preferences() {
    let none = Features { counter: false, system_info: false, instax_framer: false };
    let mut app = OmniApp::with_features(none, ThemeMode::Dark);
    assert_eq!(theme_from_state(&app), ConcreteTheme::GruvboxDark);
    app.application_theme_mode = ThemeMode::Light;
    assert_eq!(theme_from_state(&app), ConcreteTheme::GruvboxLight);
    app.theme_name = "Solarized".to_string();
    assert_eq!(theme_from_state(&app), ConcreteTheme::SolarizedLight);
    app.application_theme_mode = ThemeMode::SystemDefault;
    assert_eq!(theme_from_state(&app), ConcreteTheme::SolarizedDark);
    app.system_theme_mode = ThemeMode::SystemDefault;
    assert_eq!(theme_from_state(&app), ConcreteTheme::GruvboxLight);
}

#[test]
fn theme_selector_starts_deferring_with_gruvbox() {
    let themes = OmniThemes::with_system_mode(OmniThemeMode::Light);
    assert_eq!(themes.application_theme_mode, OmniThemeMode::SystemDefault);
    assert_eq!(themes.system_theme_mode, OmniThemeMode::Light);
    assert_eq!(themes.theme_name, "Gruvbox");
    assert_eq!(OmniThemes::theme_from_state(&themes), ConcreteTheme::GruvboxLight);
    let detected = OmniThemes::init();
    assert_eq!(detected.application_theme_mode, OmniThemeMode::SystemDefault);
    assert_eq!(detected.theme_name, "Gruvbox");
}

#[test]
fn theme_selector_changes_mode_but_never_the_system_mode() {
    let mut themes = OmniThemes::with_system_mode(OmniThemeMode::Light);
    let effect = themes.update(OmniThemesMessage::ChangeThemeMode(OmniThemeMode::Dark));
    assert_eq!(effect, Effect::Nothing);
    assert_eq!(themes.application_theme_mode, OmniThemeMode::Dark);
    assert_eq!(themes.system_theme_mode, OmniThemeMode::Light);
    assert_eq!(OmniThemes::theme_from_state(&themes), ConcreteTheme::GruvboxDark);
    themes.update(OmniThemesMessage::ChangeThemeMode(OmniThemeMode::SystemDefault));
    assert_eq!(themes.system_theme_mode, OmniThemeMode::Light);
    assert_eq!(OmniThemes::theme_from_state(&themes), ConcreteTheme::GruvboxLight);
}

#[test]
fn theme_selector_rejects_unknown_names_silently() {
    let mut themes = OmniThemes::with_system_mode(OmniThemeMode::Dark);
    let effect = themes.update(OmniThemesMessage::SwitchTheme("Nord".to_string()));
    assert_eq!(effect, Effect::Nothing);
    assert_eq!(themes, OmniThemes::with_system_mode(OmniThemeMode::Dark));
    themes.update(OmniThemesMessage::SwitchTheme("Solarized".to_string()));
    assert_eq!(themes.theme_name, "Solarized");
    themes.update(OmniThemesMessage::NoOp);
    assert_eq!(themes.theme_name, "Solarized");
    themes.update(OmniThemesMessage::SwitchTheme("Default".to_string()));
    assert_eq!(themes.theme_name, "Default");
}

#[test]
fn picking_a_palette_yields_a_switch_only_for_known_names() {
    assert_eq!(
        OmniThemes::theme_picked("Solarized"),
        OmniThemesMessage::SwitchTheme("Solarized".to_string())
    );
    assert_eq!(
        OmniThemes::theme_picked("Default"),
        OmniThemesMessage::SwitchTheme("Default".to_string())
    );
    assert_eq!(OmniThemes::theme_picked("Nord"), OmniThemesMessage::NoOp);
    assert_eq!(OmniThemes::theme_picked(""), OmniThemesMessage::NoOp);
}

#[test]
fn theme_selector_shows_all_choices_and_the_chosen_ones() {
    let mut themes = OmniThemes::with_system_mode(OmniThemeMode::Dark);
    themes.update(OmniThemesMessage::ChangeThemeMode(OmniThemeMode::Light));
    let shown = themes.view();
    assert_eq!(
        shown.theme_modes,
        vec![OmniThemeMode::SystemDefault, OmniThemeMode::Dark, OmniThemeMode::Light]
    );
    assert_eq!(shown.selected_mode, OmniThemeMode::Light);
    assert_eq!(shown.theme_names, vec!["Default", "Gruvbox", "Solarized"]);
    assert_eq!(shown.selected_theme, "Gruvbox");
}
