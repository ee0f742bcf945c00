use vstd::prelude::*;

use crate::settings_repository::SaveSettingsError;
use crate::settings_types::Settings;
use crate::variants::GameVariant;

verus! {

/// Failure while propagating the chosen color theme to the variants'
/// config directories. Each variant carries the cause's message.
#[derive(Debug, Clone, PartialEq, Eq)]
pub enum UpdateColorFilesError {
    UserGameDataDir(String),
    GetOrCreateUserConfigDir(String),
    Copy(String),
}

/// Failure while applying new settings: propagating font files,
/// propagating the color theme, or storing the settings themselves.
#[derive(Debug, Clone, PartialEq, Eq)]
pub enum UpdateSettingsError {
    UpdateFontFiles(String),
    UpdateColorFiles(UpdateColorFilesError),
    Repository(SaveSettingsError),
}

/// What is to happen to one variant's theme config file.
#[derive(Debug, Clone, PartialEq, Eq)]
pub enum ColorFileAction {
    /// Put the theme file at this path in place of the config file.
    CopyTheme(String),
    /// Remove the config file if it exists, restoring the default
    /// theme; a file that is already absent is fine.
    RemoveExisting,
}

/// The name of the theme config file inside a variant's user config
/// directory.
pub fn color_settings_filename() -> (r: &'static str)
    ensures
        r@ == "base_colors.json"@,
{
    "base_colors.json"
}

/// The theme propagation plan for new settings: for every variant, in
/// declaration order, either the chosen theme's file replaces that
/// variant's theme config file, or, with no theme chosen, the config
/// file is removed so the default theme returns.
pub fn color_file_actions(settings: &Settings) -> (r: Vec<(GameVariant, ColorFileAction)>)
    ensures
        r@.len() == 3,
        r@[0].0 == GameVariant::DarkDaysAhead,
        r@[1].0 == GameVariant::BrightNights,
        r@[2].0 == GameVariant::TheLastGeneration,
        forall|i: int|
            0 <= i < r@.len() ==> match settings.color_theme {
                Some(t) => (#[trigger] r@[i].1) matches ColorFileAction::CopyTheme(p) && p@
                    == t.path@,
                None => r@[i].1 is RemoveExisting,
            },
{
    let variants = GameVariant::all();
    let mut result: Vec<(GameVariant, ColorFileAction)> = Vec::new();
    let mut i: usize = 0;
    while i < variants.len()
        invariant
            variants@ =~= seq![
                GameVariant::DarkDaysAhead,
                GameVariant::BrightNights,
                GameVariant::TheLastGeneration,
            ],
            i <= variants@.len(),
            result@.len() == i,
            forall|k: int| 0 <= k < i ==> (#[trigger] result@[k]).0 == variants@[k],
            forall|k: int|
                0 <= k < i ==> match settings.color_theme {
                    Some(t) => (#[trigger] result@[k].1) matches ColorFileAction::CopyTheme(p)
                        && p@ == t.path@,
                    None => result@[k].1 is RemoveExisting,
                },
        decreases variants@.len() - i,
    {
        let variant = variants[i];
        let action = match &settings.color_theme {
            Some(theme) => ColorFileAction::CopyTheme(theme.path.clone()),
            None => ColorFileAction::RemoveExisting,
        };
        result.push((variant, action));
        i = i + 1;
    }
    result
}

} // verus!
