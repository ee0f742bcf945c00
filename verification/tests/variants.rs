use cat_launcher::variants::GameVariant;
use cat_launcher::variants::GameVariantInfo;
use cat_launcher::variants::ReleaseType;
use cat_launcher::variants::get_game_variants_info;
use cat_launcher::variants::str_contains;

#[test]
fn ids_are_the_storage_keys() {
    assert_eq!(GameVariant::DarkDaysAhead.id(), "DarkDaysAhead");
    assert_eq!(GameVariant::BrightNights.id(), "BrightNights");
    assert_eq!(GameVariant::TheLastGeneration.id(), "TheLastGeneration");
}

#[test]
fn from_id_inverts_id() {
    assert_eq!(GameVariant::from_id("DarkDaysAhead"), Some(GameVariant::DarkDaysAhead));
    assert_eq!(GameVariant::from_id("BrightNights"), Some(GameVariant::BrightNights));
    assert_eq!(
        GameVariant::from_id("TheLastGeneration"),
        Some(GameVariant::TheLastGeneration)
    );
    assert_eq!(GameVariant::from_id("darkdaysahead"), None);
    assert_eq!(GameVariant::from_id(""), None);
}

#[test]
fn names_are_human_readable() {
    assert_eq!(GameVariant::DarkDaysAhead.name(), "Dark Days Ahead");
    assert_eq!(GameVariant::BrightNights.name(), "Bright Nights");
    assert_eq!(GameVariant::TheLastGeneration.name(), "The Last Generation");
}

#[test]
fn dark_days_ahead_release_classification() {
    let v = GameVariant::DarkDaysAhead;
    assert_eq!(v.determine_release_type("0.G", false), ReleaseType::Stable);
    assert_eq!(
        v.determine_release_type("cdda-experimental-2024-01-01", true),
        ReleaseType::Experimental
    );
    assert_eq!(v.determine_release_type("0.H-RC1", true), ReleaseType::ReleaseCandidate);
}

#[test]
fn other_variants_release_classification() {
    let bn = GameVariant::BrightNights;
    assert_eq!(bn.determine_release_type("anything", false), ReleaseType::Stable);
    assert_eq!(bn.determine_release_type("anything", true), ReleaseType::Experimental);
    let tlg = GameVariant::TheLastGeneration;
    assert_eq!(tlg.determine_release_type("experimental", false), ReleaseType::Stable);
    assert_eq!(tlg.determine_release_type("v1", true), ReleaseType::Experimental);
}

#[test]
fn str_contains_finds_substrings() {
    assert!(str_contains("cdda-experimental-2024", "experimental"));
    assert!(!str_contains("release-candidate", "experimental"));
    assert!(str_contains("abc", ""));
    assert!(!str_contains("ab", "abc"));
    assert!(str_contains("aab", "ab"));
}

#[test]
fn typeface_categories_per_variant() {
    assert_eq!(
        GameVariant::DarkDaysAhead.supported_typeface_categories().to_vec(),
        vec!["typeface", "map_typeface", "overmap_typeface", "gui_typeface"]
    );
    assert_eq!(
        GameVariant::BrightNights.supported_typeface_categories().to_vec(),
        vec!["typeface", "map_typeface", "overmap_typeface"]
    );
    assert_eq!(
        GameVariant::TheLastGeneration.supported_typeface_categories().to_vec(),
        vec!["typeface", "map_typeface", "overmap_typeface"]
    );
}

#[test]
fn from_variant_pairs_id_and_name() {
    let info = GameVariantInfo::from_variant(GameVariant::BrightNights);
    assert_eq!(info.id, GameVariant::BrightNights);
    assert_eq!(info.name, "Bright Nights");
}

#[test]
fn variants_info_defaults_to_every_variant_in_order() {
    let infos = get_game_variants_info(Vec::new());
    let ids: Vec<GameVariant> = infos.iter().map(|i| i.id).collect();
    assert_eq!(
        ids,
        vec![
            GameVariant::DarkDaysAhead,
            GameVariant::BrightNights,
            GameVariant::TheLastGeneration
        ]
    );
    assert_eq!(infos[0].name, "Dark Days Ahead");
}

#[test]
fn variants_info_keeps_a_stored_ordering() {
    let infos = get_game_variants_info(vec![
        GameVariant::TheLastGeneration,
        GameVariant::DarkDaysAhead,
    ]);
    let ids: Vec<GameVariant> = infos.iter().map(|i| i.id).collect();
    assert_eq!(ids, vec![GameVariant::TheLastGeneration, GameVariant::DarkDaysAhead]);
    assert_eq!(infos[0].name, "The Last Generation");
    assert_eq!(infos[1].name, "Dark Days Ahead");
}
