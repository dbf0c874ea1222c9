//! The theme selector slice: a palette name and a mode preference, layered
//! over the mode that the operating system prefers.

use crate::counter_themes::{
    all_theme_modes, all_themes, get_system_theme_mode, is_known_theme, is_theme_name, resolve,
    resolved_theme, texts, theme_modes, theme_names, ConcreteTheme, ThemeMode, GRUVBOX,
};
use crate::effect::{Effect, EffectView};
use vstd::prelude::*;

verus! {

/// The mode preference of the theme selector.
pub type OmniThemeMode = ThemeMode;

/// What can happen to the theme selector.
#[derive(Clone, Debug, PartialEq, Eq)]
pub enum OmniThemesMessage {
    ChangeThemeMode(OmniThemeMode),
    SwitchTheme(String),
    NoOp,
}

impl View for OmniThemesMessage {
    type V = OmniThemesMessage;

    open spec fn view(&self) -> OmniThemesMessage {
        *self
    }
}

/// The state of the theme selector.
#[derive(Debug, PartialEq, Eq)]
pub struct OmniThemes {
    /// What the user chose. `SystemDefault` defers to the system's mode.
    pub application_theme_mode: OmniThemeMode,
    /// What the operating system prefers, as detected at start.
    pub system_theme_mode: OmniThemeMode,
    pub theme_name: String,
}

/// What the theme selector shows: two lists of choices and what is chosen in
/// each.
#[derive(Debug, PartialEq, Eq)]
pub struct OmniThemesView {
    pub theme_modes: Vec<OmniThemeMode>,
    pub selected_mode: OmniThemeMode,
    pub theme_names: Vec<String>,
    pub selected_theme: String,
}

impl OmniThemes {
    /// The selector after one message. A palette name outside the known set
    /// is not stored. No message changes the detected mode of the system.
    pub open spec fn step(self, message: OmniThemesMessage) -> OmniThemes {
        match message {
            OmniThemesMessage::ChangeThemeMode(theme_mode) => OmniThemes {
                application_theme_mode: theme_mode,
                ..self
            },
            OmniThemesMessage::SwitchTheme(theme_name) => if is_known_theme(theme_name@) {
                OmniThemes { theme_name, ..self }
            } else {
                self
            },
            OmniThemesMessage::NoOp => self,
        }
    }

    /// The concrete theme that the state of the selector resolves to.
    pub fn theme_from_state(state: &Self) -> (theme: ConcreteTheme)
        ensures
            theme == resolved_theme(
                state.theme_name@,
                state.application_theme_mode,
                state.system_theme_mode,
            ),
    {
        resolve(state.theme_name.as_str(), state.application_theme_mode, state.system_theme_mode)
    }

    /// The selector at start, over a given mode of the system: it defers to
    /// that mode and shows the Gruvbox palette.
    pub fn with_system_mode(system_theme_mode: OmniThemeMode) -> (themes: OmniThemes)
        ensures
            themes.application_theme_mode == ThemeMode::SystemDefault,
            themes.system_theme_mode == system_theme_mode,
            themes.theme_name@ == GRUVBOX@,
    {
        OmniThemes {
            application_theme_mode: ThemeMode::SystemDefault,
            system_theme_mode,
            theme_name: GRUVBOX.to_owned(),
        }
    }

    /// The selector at start, over the mode that the operating system
    /// reports at this moment.
    pub fn init() -> (themes: OmniThemes)
        ensures
            themes.application_theme_mode == ThemeMode::SystemDefault,
            themes.theme_name@ == GRUVBOX@,
    {
        OmniThemes::with_system_mode(get_system_theme_mode())
    }

    /// Applies one message. The selector never asks for deferred work.
    pub fn update(&mut self, message: OmniThemesMessage) -> (effect: Effect<OmniThemesMessage>)
        ensures
            *final(self) == old(self).step(message),
            effect@ == EffectView::<OmniThemesMessage>::Nothing,
            final(self).system_theme_mode == old(self).system_theme_mode,
            message matches OmniThemesMessage::SwitchTheme(theme_name) && !is_known_theme(
                theme_name@,
            ) ==> *final(self) == *old(self),
    {
        match message {
            OmniThemesMessage::ChangeThemeMode(theme_mode) => {
                self.application_theme_mode = theme_mode;
            },
            OmniThemesMessage::SwitchTheme(theme_name) => {
                if is_theme_name(theme_name.as_str()) {
                    self.theme_name = theme_name;
                }
            },
            OmniThemesMessage::NoOp => {},
        }
        Effect::Nothing
    }

    /// The message of a choice in the list of palettes: a switch to a known
    /// palette, and nothing for any other name.
    pub fn theme_picked(theme_name: &str) -> (message: OmniThemesMessage)
        ensures
            match message {
                OmniThemesMessage::SwitchTheme(name) => is_known_theme(theme_name@) && name@
                    == theme_name@,
                OmniThemesMessage::NoOp => !is_known_theme(theme_name@),
                OmniThemesMessage::ChangeThemeMode(_) => false,
            },
    {
        if is_theme_name(theme_name) {
            OmniThemesMessage::SwitchTheme(theme_name.to_owned())
        } else {
            OmniThemesMessage::NoOp
        }
    }

    /// What the selector shows: every mode and every palette, and the two
    /// that are chosen.
    pub fn view(&self) -> (shown: OmniThemesView)
        ensures
            shown.theme_modes@ == theme_modes(),
            shown.selected_mode == self.application_theme_mode,
            texts(shown.theme_names@) == theme_names(),
            shown.selected_theme == self.theme_name,
    {
        OmniThemesView {
            theme_modes: all_theme_modes(),
            selected_mode: self.application_theme_mode,
            theme_names: all_themes(),
            selected_theme: self.theme_name.clone(),
        }
    }
}

} // verus!
