use vstd::prelude::*;

use crate::db::StorePool;
use crate::settings_types::ColorTheme;
use crate::settings_types::Font;
use crate::settings_types::Settings;
use crate::settings_types::theme_id_of_path;

verus! {

/// Failure while reading the stored settings, carrying the underlying
/// cause's message.
#[derive(Debug, Clone, PartialEq, Eq)]
pub enum GetSettingsError {
    Get(String),
}

/// Failure while writing the stored settings, carrying the underlying
/// cause's message.
#[derive(Debug, Clone, PartialEq, Eq)]
pub enum SaveSettingsError {
    Save(String),
}

/// Failure of the settings read as surfaced to the command layer.
#[derive(Debug, Clone, PartialEq, Eq)]
pub enum GetSettingsCommandError {
    Get(GetSettingsError),
}

/// Failure of the font listing as surfaced to the command layer: the
/// host platform is not supported.
#[derive(Debug, Clone, PartialEq, Eq)]
pub enum GetFontsError {
    OS(String),
}

pub fn map_get_error(e: String) -> (r: GetSettingsError)
    ensures
        r == GetSettingsError::Get(e),
{
    GetSettingsError::Get(e)
}

pub fn map_save_error(e: String) -> (r: SaveSettingsError)
    ensures
        r == SaveSettingsError::Save(e),
{
    SaveSettingsError::Save(e)
}

/// The font-file parser collaborator: resolves the file at `path` into
/// a font descriptor, or fails with a message. Implemented outside this
/// library, where the file can be read; nothing is assumed of it here.
pub trait FontParser {
    fn get_font_from_file(&self, path: &str) -> Result<Font, String>;
}

/// The deliberate degradation of the settings read: a font the parser
/// resolved is kept; a parse or read failure becomes an absent font
/// rather than an error, so a stale or missing font reference can
/// never fail the overall read.
pub fn resolved_font(parse: Result<Font, String>) -> (o: Option<Font>)
    ensures
        parse matches Ok(f) ==> o == Some(f),
        parse is Err ==> o is None,
{
    match parse {
        Ok(f) => Some(f),
        Err(_) => None,
    }
}

/// The full-replace payload of a save: the font path and the theme
/// path to store, exactly those of the given settings; an absent
/// member stores an absent path, clearing whatever was there before.
pub fn stored_paths(settings: &Settings) -> (r: (Option<String>, Option<String>))
    ensures
        settings.font matches Some(f) ==> (r.0 matches Some(p) && p@ == f.path@),
        settings.font is None ==> r.0 is None,
        settings.color_theme matches Some(t) ==> (r.1 matches Some(p) && p@ == t.path@),
        settings.color_theme is None ==> r.1 is None,
{
    let font_path = match &settings.font {
        Some(f) => Some(f.path.clone()),
        None => None,
    };
    let theme_path = match &settings.color_theme {
        Some(t) => Some(t.path.clone()),
        None => None,
    };
    (font_path, theme_path)
}

/// What the settings read returns, given the stored references: the
/// already-resolved font as it is, and the theme resolved structurally
/// from the stored path's filename alone.
pub fn settings_from_stored(font: Option<Font>, theme_path: Option<String>) -> (s: Settings)
    ensures
        s.font == font,
        match theme_path {
            None => s.color_theme is None,
            Some(p) => {
                &&& (s.color_theme is Some <==> theme_id_of_path(p@) is Some)
                &&& (s.color_theme matches Some(t) ==> (theme_id_of_path(p@) matches Some(id)
                    && t.id@ == id && t.name@ == id && t.path@ == p@))
            },
        },
{
    let color_theme = match theme_path {
        Some(p) => ColorTheme::from_path(p.as_str()),
        None => None,
    };
    Settings { font, color_theme }
}

/// The capability the settings store offers to the rest of the library.
/// Reading composes with font resolution, so it stays an inherent
/// operation of the store-backed type; replacing the whole settings row
/// pair is what the reset path needs.
pub trait SettingsRepository {
    /// Replace the stored settings as a whole: saving an absent font or
    /// theme clears what was stored. The write is transactional; on
    /// failure the prior settings are intact.
    fn save_settings(&self, settings: &Settings) -> (r: Result<(), SaveSettingsError>)
        ensures
            r matches Err(e) ==> e is Save,
    ;
}

/// Settings kept in the pooled SQLite store: the singleton `settings`
/// row holds the font path, the singleton `color_settings` row the
/// theme path.
pub struct SqliteSettingsRepository {
    pool: StorePool,
}

impl SqliteSettingsRepository {
    pub fn new(pool: StorePool) -> (r: SqliteSettingsRepository) {
        SqliteSettingsRepository { pool }
    }

    /// Read the stored settings. The two singleton rows are read
    /// independently; a stored font path is resolved by parsing the
    /// referenced file, and a parse or read failure degrades to an
    /// absent font rather than failing the read; a stored theme path is
    /// resolved from its filename alone. A stale reference therefore
    /// never fails the overall read.
    pub fn get_settings<F: FontParser>(&self, font_parser: &F) -> (r: Result<
        Settings,
        GetSettingsError,
    >)
        ensures
            r matches Err(e) ==> e is Get,
            r matches Ok(s) ==> (s.color_theme matches Some(t) ==> theme_id_of_path(t.path@)
                == Some(t.id@) && t.name@ == t.id@),
    {
        let conn = match self.pool.get() {
            Ok(conn) => conn,
            Err(m) => return Err(map_get_error(m)),
        };
        let font_path = match conn.query_opt_text("SELECT font_path FROM settings WHERE _id = 1") {
            Ok(v) => v,
            Err(m) => return Err(map_get_error(m)),
        };
        let theme_path = match conn.query_opt_text(
            "SELECT theme_path FROM color_settings WHERE _id = 1",
        ) {
            Ok(v) => v,
            Err(m) => return Err(map_get_error(m)),
        };
        let font = match font_path {
            Some(p) => resolved_font(font_parser.get_font_from_file(p.as_str())),
            None => None,
        };
        Ok(settings_from_stored(font, theme_path))
    }
}

impl SettingsRepository for SqliteSettingsRepository {
    fn save_settings(&self, settings: &Settings) -> (r: Result<(), SaveSettingsError>) {
        let (font_path, theme_path) = stored_paths(settings);
        let mut conn = match self.pool.get() {
            Ok(conn) => conn,
            Err(m) => return Err(map_save_error(m)),
        };
        match conn.execute_pair_transactional(
            "INSERT OR REPLACE INTO settings (_id, font_path) VALUES (1, ?1)",
            font_path,
            "INSERT OR REPLACE INTO color_settings (_id, theme_path) VALUES (1, ?1)",
            theme_path,
        ) {
            Ok(_) => Ok(()),
            Err(m) => Err(map_save_error(m)),
        }
    }
}

} // verus!
