use cat_launcher::db::StorePool;
use cat_launcher::db::initialize_schema;
use cat_launcher::master_reset::DirEntryInfo;
use cat_launcher::master_reset::MasterResetError;
use cat_launcher::master_reset::plan_purge;
use cat_launcher::master_reset::reset_repositories;
use cat_launcher::master_reset::should_skip;
use cat_launcher::mods::InstalledModsRepository;
use cat_launcher::mods::SqliteInstalledModsRepository;
use cat_launcher::settings_repository::FontParser;
use cat_launcher::settings_repository::SettingsRepository;
use cat_launcher::settings_repository::SqliteSettingsRepository;
use cat_launcher::settings_types::ColorTheme;
use cat_launcher::settings_types::Font;
use cat_launcher::settings_types::Settings;
use cat_launcher::soundpacks::InstalledSoundpacksRepository;
use cat_launcher::soundpacks::SqliteInstalledSoundpacksRepository;
use cat_launcher::tilesets::InstalledTilesetsRepository;
use cat_launcher::tilesets::SqliteInstalledTilesetsRepository;
use cat_launcher::variants::GameVariant;

struct ParsesEveryFont;

impl FontParser for ParsesEveryFont {
    fn get_font_from_file(&self, path: &str) -> Result<Font, String> {
        Ok(Font { name: "parsed".to_string(), path: path.to_string() })
    }
}

fn fresh_pool() -> StorePool {
    let pool = StorePool::open_in_memory().expect("in-memory pool");
    initialize_schema(&pool).expect("schema");
    pool
}

fn entry(name: &str, is_dir: bool) -> DirEntryInfo {
    DirEntryInfo { name: name.to_string(), is_dir }
}

#[test]
fn skip_protects_only_the_save_directory() {
    assert!(should_skip(&entry("save", true)));
    assert!(should_skip(&entry("SAVE", true)));
    assert!(should_skip(&entry("Save", true)));
    assert!(!should_skip(&entry("save", false)));
    assert!(!should_skip(&entry("saves", true)));
    assert!(!should_skip(&entry("sav", true)));
    assert!(!should_skip(&entry("mods", true)));
}

#[test]
fn purge_plan_removes_everything_but_save() {
    let entries = vec![
        entry("A", false),
        entry("B", false),
        entry("save", true),
        entry("graveyard", true),
    ];
    let plan = plan_purge(&entries);
    let names: Vec<String> = plan.iter().map(|e| e.name.clone()).collect();
    assert_eq!(
        names,
        vec!["A".to_string(), "B".to_string(), "graveyard".to_string()]
    );
    assert!(!plan[0].is_dir);
    assert!(plan[2].is_dir);
}

#[test]
fn purge_plan_of_empty_directory_is_empty() {
    assert!(plan_purge(&Vec::new()).is_empty());
}

#[test]
fn reset_clears_repositories_and_resets_settings() {
    let pool = fresh_pool();
    let mods = SqliteInstalledModsRepository::new(pool.handle());
    let soundpacks = SqliteInstalledSoundpacksRepository::new(pool.handle());
    let tilesets = SqliteInstalledTilesetsRepository::new(pool.handle());
    let settings = SqliteSettingsRepository::new(pool.handle());
    let v = GameVariant::DarkDaysAhead;
    let other = GameVariant::BrightNights;

    mods.add_installed_mod("aftershock", &v).unwrap();
    mods.add_installed_mod("aftershock", &other).unwrap();
    soundpacks.add_installed_soundpack("otopack", &v).unwrap();
    tilesets.add_installed_tileset("undead_people", &v).unwrap();
    let chosen = Settings {
        font: Some(Font { name: "Terminus".to_string(), path: "fonts/Terminus.ttf".to_string() }),
        color_theme: Some(ColorTheme {
            id: "dusk".to_string(),
            name: "dusk".to_string(),
            path: "themes/base_colors-dusk.json".to_string(),
        }),
    };
    settings.save_settings(&chosen).unwrap();

    reset_repositories(&v, &mods, &soundpacks, &tilesets, &settings).unwrap();

    assert_eq!(mods.is_mod_installed("aftershock", &v).unwrap(), false);
    assert_eq!(soundpacks.is_soundpack_installed("otopack", &v).unwrap(), false);
    assert_eq!(tilesets.is_tileset_installed("undead_people", &v).unwrap(), false);
    assert_eq!(mods.is_mod_installed("aftershock", &other).unwrap(), true);
    let read = settings.get_settings(&ParsesEveryFont).unwrap();
    assert!(read.font.is_none());
    assert!(read.color_theme.is_none());
}

#[test]
fn reset_is_idempotent() {
    let pool = fresh_pool();
    let mods = SqliteInstalledModsRepository::new(pool.handle());
    let soundpacks = SqliteInstalledSoundpacksRepository::new(pool.handle());
    let tilesets = SqliteInstalledTilesetsRepository::new(pool.handle());
    let settings = SqliteSettingsRepository::new(pool.handle());
    let v = GameVariant::TheLastGeneration;
    mods.add_installed_mod("innawood", &v).unwrap();
    reset_repositories(&v, &mods, &soundpacks, &tilesets, &settings).unwrap();
    reset_repositories(&v, &mods, &soundpacks, &tilesets, &settings).unwrap();
    assert_eq!(mods.is_mod_installed("innawood", &v).unwrap(), false);
}

#[test]
fn reset_surfaces_the_first_failing_step() {
    let pool = StorePool::open_in_memory().expect("in-memory pool");
    let mods = SqliteInstalledModsRepository::new(pool.handle());
    let soundpacks = SqliteInstalledSoundpacksRepository::new(pool.handle());
    let tilesets = SqliteInstalledTilesetsRepository::new(pool.handle());
    let settings = SqliteSettingsRepository::new(pool.handle());
    let v = GameVariant::DarkDaysAhead;
    let err = reset_repositories(&v, &mods, &soundpacks, &tilesets, &settings).unwrap_err();
    assert!(matches!(err, MasterResetError::DeleteMods(_)));
}
