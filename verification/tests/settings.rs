use cat_launcher::db::StorePool;
use cat_launcher::db::initialize_schema;
use cat_launcher::settings_repository::FontParser;
use cat_launcher::settings_repository::GetSettingsError;
use cat_launcher::settings_repository::SaveSettingsError;
use cat_launcher::settings_repository::SettingsRepository;
use cat_launcher::settings_repository::SqliteSettingsRepository;
use cat_launcher::settings_repository::map_get_error;
use cat_launcher::settings_repository::map_save_error;
use cat_launcher::settings_repository::resolved_font;
use cat_launcher::settings_repository::settings_from_stored;
use cat_launcher::settings_repository::stored_paths;
use cat_launcher::settings_types::ColorTheme;
use cat_launcher::settings_types::Font;
use cat_launcher::settings_types::Settings;

/// Stands in for the font-file parser when every referenced file is
/// missing or unreadable.
struct NoFontFiles;

impl FontParser for NoFontFiles {
    fn get_font_from_file(&self, _path: &str) -> Result<Font, String> {
        Err("font file is missing".to_string())
    }
}

/// Stands in for the font-file parser when parsing succeeds: the name
/// is derived from the path it was asked about.
struct ParsesEveryFont;

impl FontParser for ParsesEveryFont {
    fn get_font_from_file(&self, path: &str) -> Result<Font, String> {
        Ok(Font { name: format!("font at {path}"), path: path.to_string() })
    }
}

fn fresh_pool() -> StorePool {
    let pool = StorePool::open_in_memory().expect("in-memory pool");
    initialize_schema(&pool).expect("schema");
    pool
}

fn sample_font() -> Font {
    Font { name: "Terminus".to_string(), path: "fonts/Terminus.ttf".to_string() }
}

fn sample_theme() -> ColorTheme {
    ColorTheme {
        id: "dusk".to_string(),
        name: "dusk".to_string(),
        path: "themes/base_colors-dusk.json".to_string(),
    }
}

#[test]
fn get_on_fresh_store_is_all_defaults() {
    let pool = fresh_pool();
    let repo = SqliteSettingsRepository::new(pool.handle());
    let settings = repo.get_settings(&ParsesEveryFont).unwrap();
    assert!(settings.font.is_none());
    assert!(settings.color_theme.is_none());
}

#[test]
fn save_is_full_replace_not_merge() {
    let pool = fresh_pool();
    let repo = SqliteSettingsRepository::new(pool.handle());
    let first = Settings { font: Some(sample_font()), color_theme: Some(sample_theme()) };
    repo.save_settings(&first).unwrap();
    let second = Settings { font: Some(sample_font()), color_theme: None };
    repo.save_settings(&second).unwrap();
    let read = repo.get_settings(&ParsesEveryFont).unwrap();
    assert!(read.color_theme.is_none());
    assert!(read.font.is_some());
}

#[test]
fn missing_font_file_degrades_to_absent_font() {
    let pool = fresh_pool();
    let repo = SqliteSettingsRepository::new(pool.handle());
    let saved = Settings { font: Some(sample_font()), color_theme: Some(sample_theme()) };
    repo.save_settings(&saved).unwrap();
    let read = repo.get_settings(&NoFontFiles).unwrap();
    assert!(read.font.is_none());
    let theme = read.color_theme.expect("theme survives the font failure");
    assert_eq!(theme.id, "dusk");
    assert_eq!(theme.name, "dusk");
    assert_eq!(theme.path, "themes/base_colors-dusk.json");
}

#[test]
fn stored_theme_is_rebuilt_from_its_path() {
    let pool = fresh_pool();
    let repo = SqliteSettingsRepository::new(pool.handle());
    let mut theme = sample_theme();
    theme.path = "data/raw/color_themes/base_colors-midnight.json".to_string();
    repo.save_settings(&Settings { font: None, color_theme: Some(theme) }).unwrap();
    let read = repo.get_settings(&ParsesEveryFont).unwrap();
    assert!(read.font.is_none());
    let rebuilt = read.color_theme.expect("stored path names a theme");
    assert_eq!(rebuilt.id, "midnight");
    assert_eq!(rebuilt.name, "midnight");
    assert_eq!(rebuilt.path, "data/raw/color_themes/base_colors-midnight.json");
}

#[test]
fn stored_theme_path_of_wrong_shape_reads_as_absent() {
    let pool = fresh_pool();
    let repo = SqliteSettingsRepository::new(pool.handle());
    let mut theme = sample_theme();
    theme.path = "themes/colors.txt".to_string();
    repo.save_settings(&Settings { font: None, color_theme: Some(theme) }).unwrap();
    let read = repo.get_settings(&ParsesEveryFont).unwrap();
    assert!(read.color_theme.is_none());
}

#[test]
fn parsed_font_is_returned_as_parsed() {
    let pool = fresh_pool();
    let repo = SqliteSettingsRepository::new(pool.handle());
    repo.save_settings(&Settings { font: Some(sample_font()), color_theme: None }).unwrap();
    let read = repo.get_settings(&ParsesEveryFont).unwrap();
    let font = read.font.expect("parser succeeded");
    assert_eq!(font.name, "font at fonts/Terminus.ttf");
    assert_eq!(font.path, "fonts/Terminus.ttf");
}

#[test]
fn missing_tables_surface_get_and_save_errors() {
    let pool = StorePool::open_in_memory().expect("in-memory pool");
    let repo = SqliteSettingsRepository::new(pool.handle());
    assert!(matches!(
        repo.get_settings(&ParsesEveryFont).unwrap_err(),
        GetSettingsError::Get(_)
    ));
    assert!(matches!(
        repo.save_settings(&Settings::default()).unwrap_err(),
        SaveSettingsError::Save(_)
    ));
}

#[test]
fn settings_from_stored_resolves_theme_structurally() {
    let settings = settings_from_stored(
        Some(sample_font()),
        Some("any/dir/base_colors-ashes.json".to_string()),
    );
    assert_eq!(settings.font.unwrap().name, "Terminus");
    let theme = settings.color_theme.unwrap();
    assert_eq!(theme.id, "ashes");
    assert_eq!(theme.name, "ashes");
    assert_eq!(theme.path, "any/dir/base_colors-ashes.json");
    let none = settings_from_stored(None, None);
    assert!(none.font.is_none());
    assert!(none.color_theme.is_none());
}

#[test]
fn resolved_font_keeps_success_and_swallows_failure() {
    assert_eq!(resolved_font(Ok(sample_font())), Some(sample_font()));
    assert_eq!(resolved_font(Err("unreadable".to_string())), None);
}

#[test]
fn stored_paths_are_the_full_replace_payload() {
    let both = Settings { font: Some(sample_font()), color_theme: Some(sample_theme()) };
    assert_eq!(
        stored_paths(&both),
        (
            Some("fonts/Terminus.ttf".to_string()),
            Some("themes/base_colors-dusk.json".to_string())
        )
    );
    let neither = Settings { font: None, color_theme: None };
    assert_eq!(stored_paths(&neither), (None, None));
}

#[test]
fn error_mappers_wrap_the_message() {
    assert_eq!(
        map_get_error("pool timed out".to_string()),
        GetSettingsError::Get("pool timed out".to_string())
    );
    assert_eq!(
        map_save_error("disk full".to_string()),
        SaveSettingsError::Save("disk full".to_string())
    );
}
