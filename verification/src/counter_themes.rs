//! Theme resolution: from a palette name and two layered mode preferences to
//! one concrete theme.

use crate::omni_app::OmniApp;
use dark_light::{Error, Mode};
use vstd::prelude::*;

verus! {

/// `dark_light::Mode`: what the operating system prefers. It has the three
/// variants `Dark`, `Light` and `Unspecified`.
#[verifier::external_type_specification]
pub struct ExMode(Mode);

/// `dark_light::Error`: why a detection failed. Nothing is read from it.
#[verifier::external_type_specification]
#[verifier::external_body]
pub struct ExError(Error);

/// `dark_light::detect` asks the operating system whether it prefers a dark
/// or a light appearance. The answer depends on the machine and the moment,
/// so nothing is claimed of it.
pub assume_specification[ dark_light::detect ]() -> (detected: Result<Mode, Error>)
;

/// Name of the neutral palette.
pub const DEFAULT: &'static str = "Default";

/// Name of the Gruvbox palette.
pub const GRUVBOX: &'static str = "Gruvbox";

/// Name of the Solarized palette.
pub const SOLARIZED: &'static str = "Solarized";

/// A preference between dark and light appearance.
///
/// `SystemDefault` is a deferred reference to whatever the operating system
/// prefers; it is never a terminal display value.
#[derive(Clone, Copy, Debug, PartialEq, Eq, Structural)]
pub enum ThemeMode {
    SystemDefault,
    Dark,
    Light,
}

impl ThemeMode {
    /// The text that stands for a mode in a list of choices.
    pub open spec fn label_text(self) -> Seq<char> {
        match self {
            ThemeMode::SystemDefault => "System default"@,
            ThemeMode::Dark => "Dark theme"@,
            ThemeMode::Light => "Light theme"@,
        }
    }

    /// The text that stands for this mode in a list of choices.
    pub fn label(&self) -> (text: String)
        ensures
            text@ == self.label_text(),
    {
        match self {
            ThemeMode::SystemDefault => "System default".to_owned(),
            ThemeMode::Dark => "Dark theme".to_owned(),
            ThemeMode::Light => "Light theme".to_owned(),
        }
    }
}

/// A fully resolved theme, ready to be handed to a renderer.
#[derive(Clone, Copy, Debug, PartialEq, Eq, Structural)]
pub enum ConcreteTheme {
    Dark,
    Light,
    GruvboxDark,
    GruvboxLight,
    SolarizedDark,
    SolarizedLight,
}

impl ConcreteTheme {
    /// Whether the theme is one of the dark ones.
    pub open spec fn is_dark(self) -> bool {
        self is Dark || self is GruvboxDark || self is SolarizedDark
    }
}

/// Whether `name` is one of the palettes the application offers.
pub open spec fn is_known_theme(name: Seq<char>) -> bool {
    name == DEFAULT@ || name == GRUVBOX@ || name == SOLARIZED@
}

/// The mode that decides the appearance: the application's own preference,
/// unless it defers to the system.
pub open spec fn effective_mode(application_mode: ThemeMode, system_mode: ThemeMode) -> ThemeMode {
    match application_mode {
        ThemeMode::SystemDefault => system_mode,
        ThemeMode::Dark => ThemeMode::Dark,
        ThemeMode::Light => ThemeMode::Light,
    }
}

/// The theme of a palette under a decided mode. An unresolved mode is a
/// defect of the caller and falls back to one fixed theme.
pub open spec fn palette_theme(theme_name: Seq<char>, mode: ThemeMode) -> ConcreteTheme {
    match mode {
        ThemeMode::Dark => if theme_name == GRUVBOX@ {
            ConcreteTheme::GruvboxDark
        } else if theme_name == SOLARIZED@ {
            ConcreteTheme::SolarizedDark
        } else {
            ConcreteTheme::Dark
        },
        ThemeMode::Light => if theme_name == GRUVBOX@ {
            ConcreteTheme::GruvboxLight
        } else if theme_name == SOLARIZED@ {
            ConcreteTheme::SolarizedLight
        } else {
            ConcreteTheme::Light
        },
        ThemeMode::SystemDefault => ConcreteTheme::GruvboxLight,
    }
}

/// The theme that the three layered preferences resolve to.
pub open spec fn resolved_theme(
    theme_name: Seq<char>,
    application_mode: ThemeMode,
    system_mode: ThemeMode,
) -> ConcreteTheme {
    palette_theme(theme_name, effective_mode(application_mode, system_mode))
}

/// The modes in the order in which they are offered.
pub open spec fn theme_modes() -> Seq<ThemeMode> {
    seq![ThemeMode::SystemDefault, ThemeMode::Dark, ThemeMode::Light]
}

/// The names of the palettes in the order in which they are offered.
pub open spec fn theme_names() -> Seq<Seq<char>> {
    seq![DEFAULT@, GRUVBOX@, SOLARIZED@]
}

/// The texts of a list of strings.
pub open spec fn texts(strings: Seq<String>) -> Seq<Seq<char>> {
    Seq::new(strings.len(), |i: int| strings[i]@)
}

/// The mode that an answer of the operating system stands for. Where the
/// system has no preference, or could not be asked, the mode stays deferred.
pub open spec fn detected_mode(detected: Result<Mode, Error>) -> ThemeMode {
    match detected {
        Ok(Mode::Dark) => ThemeMode::Dark,
        Ok(Mode::Light) => ThemeMode::Light,
        Ok(Mode::Unspecified) => ThemeMode::SystemDefault,
        Err(_) => ThemeMode::SystemDefault,
    }
}

/// Whether two strings hold the same text.
pub fn same_text(a: &str, b: &str) -> (same: bool)
    ensures
        same == (a@ == b@),
{
    a.to_owned() == b.to_owned()
}

/// Whether `name` is the name of a palette that the application offers.
pub fn is_theme_name(name: &str) -> (known: bool)
    ensures
        known == is_known_theme(name@),
{
    same_text(name, DEFAULT) || same_text(name, GRUVBOX) || same_text(name, SOLARIZED)
}

/// All modes, in the order in which they are offered.
pub fn all_theme_modes() -> (modes: Vec<ThemeMode>)
    ensures
        modes@ == theme_modes(),
{
    let mut modes = Vec::new();
    modes.push(ThemeMode::SystemDefault);
    modes.push(ThemeMode::Dark);
    modes.push(ThemeMode::Light);
    assert(modes@ =~= theme_modes());
    modes
}

/// The names of all palettes, in the order in which they are offered.
pub fn all_themes() -> (names: Vec<String>)
    ensures
        texts(names@) == theme_names(),
        names@.len() == 3,
{
    let mut names = Vec::new();
    names.push(DEFAULT.to_owned());
    names.push(GRUVBOX.to_owned());
    names.push(SOLARIZED.to_owned());
    assert(texts(names@) =~= theme_names());
    names
}

/// Resolves a palette name and the two mode preferences to a concrete theme.
/// Total: every combination of inputs yields a theme.
pub fn resolve(theme_name: &str, application_mode: ThemeMode, system_mode: ThemeMode) -> (theme:
    ConcreteTheme)
    ensures
        theme == resolved_theme(theme_name@, application_mode, system_mode),
{
    let mode = match application_mode {
        ThemeMode::SystemDefault => system_mode,
        ThemeMode::Dark => ThemeMode::Dark,
        ThemeMode::Light => ThemeMode::Light,
    };
    let gruvbox = same_text(theme_name, GRUVBOX);
    let solarized = same_text(theme_name, SOLARIZED);
    match mode {
        ThemeMode::Dark => if gruvbox {
            ConcreteTheme::GruvboxDark
        } else if solarized {
            ConcreteTheme::SolarizedDark
        } else {
            ConcreteTheme::Dark
        },
        ThemeMode::Light => if gruvbox {
            ConcreteTheme::GruvboxLight
        } else if solarized {
            ConcreteTheme::SolarizedLight
        } else {
            ConcreteTheme::Light
        },
        ThemeMode::SystemDefault => ConcreteTheme::GruvboxLight,
    }
}

/// The concrete theme that the state of the application resolves to.
pub fn theme_from_state(state: &OmniApp) -> (theme: ConcreteTheme)
    ensures
        theme == resolved_theme(
            state.theme_name@,
            state.application_theme_mode,
            state.system_theme_mode,
        ),
{
    resolve(state.theme_name.as_str(), state.application_theme_mode, state.system_theme_mode)
}

/// Turns an answer of the operating system into a mode. A failed detection
/// is no error: it falls back to the deferred mode.
pub fn mode_from_detection(detected: Result<Mode, Error>) -> (mode: ThemeMode)
    ensures
        mode == detected_mode(detected),
{
    match detected {
        Ok(Mode::Dark) => ThemeMode::Dark,
        Ok(Mode::Light) => ThemeMode::Light,
        Ok(Mode::Unspecified) => ThemeMode::SystemDefault,
        Err(_) => ThemeMode::SystemDefault,
    }
}

/// Asks the operating system for its preferred mode.
pub fn get_system_theme_mode() -> ThemeMode {
    mode_from_detection(dark_light::detect())
}

/// The three palette names are three different texts.
pub proof fn lemma_palette_names_differ()
    ensures
        DEFAULT@ != GRUVBOX@,
        DEFAULT@ != SOLARIZED@,
        GRUVBOX@ != SOLARIZED@,
{
    reveal_strlit("Default");
    reveal_strlit("Gruvbox");
    reveal_strlit("Solarized");
    assert(DEFAULT@.len() == 7 && DEFAULT@[0] == 'D');
    assert(GRUVBOX@.len() == 7 && GRUVBOX@[0] == 'G');
    assert(SOLARIZED@.len() == 9);
}

/// The whole table: each known palette under each decided mode has a theme
/// of its own, but for the neutral palette, which shares the generic pair
/// with every unknown name.
pub proof fn lemma_resolution_table()
    ensures
        palette_theme(GRUVBOX@, ThemeMode::Dark) == ConcreteTheme::GruvboxDark,
        palette_theme(GRUVBOX@, ThemeMode::Light) == ConcreteTheme::GruvboxLight,
        palette_theme(SOLARIZED@, ThemeMode::Dark) == ConcreteTheme::SolarizedDark,
        palette_theme(SOLARIZED@, ThemeMode::Light) == ConcreteTheme::SolarizedLight,
        palette_theme(DEFAULT@, ThemeMode::Dark) == ConcreteTheme::Dark,
        palette_theme(DEFAULT@, ThemeMode::Light) == ConcreteTheme::Light,
{
    lemma_palette_names_differ();
}

/// An explicit preference of the application decides alone: the mode of the
/// system makes no difference to the theme.
pub proof fn lemma_explicit_mode_ignores_system(
    theme_name: Seq<char>,
    application_mode: ThemeMode,
    first_system_mode: ThemeMode,
    second_system_mode: ThemeMode,
)
    requires
        application_mode != ThemeMode::SystemDefault,
    ensures
        resolved_theme(theme_name, application_mode, first_system_mode) == resolved_theme(
            theme_name,
            application_mode,
            second_system_mode,
        ),
{
}

/// A deferring application shows what an application with the system's mode
/// as its own explicit preference would show.
pub proof fn lemma_system_default_defers(theme_name: Seq<char>, system_mode: ThemeMode)
    ensures
        resolved_theme(theme_name, ThemeMode::SystemDefault, system_mode) == resolved_theme(
            theme_name,
            system_mode,
            system_mode,
        ),
{
}

/// Once the effective mode is dark or light, the resolved theme is of that
/// kind, whatever the palette name, known or not.
pub proof fn lemma_resolved_theme_follows_the_effective_mode(
    theme_name: Seq<char>,
    application_mode: ThemeMode,
    system_mode: ThemeMode,
)
    requires
        effective_mode(application_mode, system_mode) != ThemeMode::SystemDefault,
    ensures
        resolved_theme(theme_name, application_mode, system_mode).is_dark() == (effective_mode(
            application_mode,
            system_mode,
        ) == ThemeMode::Dark),
{
}

/// A palette name outside the known set resolves to the generic dark or
/// light theme.
pub proof fn lemma_unknown_names_resolve_to_the_generic_pair(
    theme_name: Seq<char>,
    application_mode: ThemeMode,
    system_mode: ThemeMode,
)
    requires
        !is_known_theme(theme_name),
        effective_mode(application_mode, system_mode) != ThemeMode::SystemDefault,
    ensures
        resolved_theme(theme_name, application_mode, system_mode) == if effective_mode(
            application_mode,
            system_mode,
        ) == ThemeMode::Dark {
            ConcreteTheme::Dark
        } else {
            ConcreteTheme::Light
        },
{
}

} // verus!
