use vstd::prelude::*;

use crate::mods::InstalledModsRepository;
use crate::mods::InstalledModsRepositoryError;
use crate::settings_repository::SaveSettingsError;
use crate::settings_repository::SettingsRepository;
use crate::settings_types::Settings;
use crate::soundpacks::InstalledSoundpacksRepository;
use crate::soundpacks::InstalledSoundpacksRepositoryError;
use crate::tilesets::InstalledTilesetsRepository;
use crate::tilesets::InstalledTilesetsRepositoryError;
use crate::variants::GameVariant;

verus! {

/// Failure of the master reset: the first failing step, with the
/// remainder of the operation aborted. The filesystem variants carry
/// the underlying cause's message; the repository variants carry that
/// repository's own error.
#[derive(Debug, Clone, PartialEq, Eq)]
pub enum MasterResetError {
    UserDataDir(String),
    ReadDir(String),
    RemoveEntry(String),
    DeleteMods(InstalledModsRepositoryError),
    DeleteSoundpacks(InstalledSoundpacksRepositoryError),
    DeleteTilesets(InstalledTilesetsRepositoryError),
    ResetSettings(SaveSettingsError),
}

/// One entry of the variant's user-data directory, as the purge sees
/// it: its bare name and whether it is a directory.
#[derive(Debug, Clone, PartialEq, Eq)]
pub struct DirEntryInfo {
    pub name: String,
    pub is_dir: bool,
}

/// The name `save`, compared ASCII-case-insensitively.
pub open spec fn is_save_name(s: Seq<char>) -> bool {
    s.len() == 4 && (s[0] == 's' || s[0] == 'S') && (s[1] == 'a' || s[1] == 'A') && (s[2] == 'v'
        || s[2] == 'V') && (s[3] == 'e' || s[3] == 'E')
}

/// The purge leaves an entry alone exactly when it is the protected
/// `save` subdirectory.
pub open spec fn purge_removes(e: DirEntryInfo) -> bool {
    !(e.is_dir && is_save_name(e.name@))
}

/// The entries the purge removes, in directory order.
pub open spec fn purge_plan(entries: Seq<DirEntryInfo>) -> Seq<DirEntryInfo> {
    entries.filter(|e: DirEntryInfo| purge_removes(e))
}

/// The purge plan is exact, for any directory listing: everything it
/// removes was listed and is unprotected, and every unprotected entry
/// of the listing is removed — so after the plan runs, exactly the
/// protected `save` subdirectory survives.
pub proof fn lemma_purge_plan_exact(entries: Seq<DirEntryInfo>)
    ensures
        forall|i: int|
            0 <= i < purge_plan(entries).len() ==> purge_removes(
                #[trigger] purge_plan(entries)[i],
            ),
        forall|k: int|
            0 <= k < entries.len() && purge_removes(#[trigger] entries[k]) ==> purge_plan(
                entries,
            ).contains(entries[k]),
{
    broadcast use vstd::seq_lib::group_filter_ensures;

}

/// An entry the purge must not touch: a directory named `save`, in any
/// ASCII case.
pub fn should_skip(entry: &DirEntryInfo) -> (r: bool)
    ensures
        r == !purge_removes(*entry),
{
    if !entry.is_dir {
        return false;
    }
    let name: &str = entry.name.as_str();
    if name.unicode_len() != 4 {
        return false;
    }
    let c0 = name.get_char(0);
    let c1 = name.get_char(1);
    let c2 = name.get_char(2);
    let c3 = name.get_char(3);
    (c0 == 's' || c0 == 'S') && (c1 == 'a' || c1 == 'A') && (c2 == 'v' || c2 == 'V') && (c3 == 'e'
        || c3 == 'E')
}

/// The removal worklist for a variant's user-data directory: every
/// entry except the protected `save` subdirectory, in directory order.
/// Directories among them are to be removed recursively, files
/// individually; the first removal failure aborts the whole operation.
pub fn plan_purge(entries: &Vec<DirEntryInfo>) -> (r: Vec<DirEntryInfo>)
    ensures
        r@ == purge_plan(entries@),
{
    let mut result: Vec<DirEntryInfo> = Vec::new();
    let mut i: usize = 0;
    while i < entries.len()
        invariant
            i <= entries@.len(),
            result@ == purge_plan(entries@.take(i as int)),
        decreases entries@.len() - i,
    {
        let entry = &entries[i];
        proof {
            reveal(Seq::filter);
            assert(entries@.take(i + 1).drop_last() =~= entries@.take(i as int));
            assert(entries@.take(i + 1).last() == entries@[i as int]);
        }
        if !should_skip(entry) {
            let copy = DirEntryInfo { name: entry.name.clone(), is_dir: entry.is_dir };
            assert(copy == entries@[i as int]);
            result.push(copy);
        }
        i = i + 1;
    }
    proof {
        assert(entries@.take(entries@.len() as int) =~= entries@);
    }
    result
}

/// The repository phase of the master reset: empty the variant's three
/// installed-component tables, then re-save default settings, strictly
/// in that order and never concurrently, so that independent writers do
/// not contend on the store. The operation is not transactional across
/// repositories: a failure aborts the remainder and rolls nothing back,
/// which converges on re-invocation because every step is idempotent.
pub fn reset_repositories<M: InstalledModsRepository, S: InstalledSoundpacksRepository, T: InstalledTilesetsRepository, R: SettingsRepository>(
    variant: &GameVariant,
    installed_mods_repository: &M,
    installed_soundpacks_repository: &S,
    installed_tilesets_repository: &T,
    settings_repository: &R,
) -> (r: Result<(), MasterResetError>)
    ensures
        r matches Err(e) ==> {
            ||| (e matches MasterResetError::DeleteMods(inner) && inner is DeleteAll)
            ||| (e matches MasterResetError::DeleteSoundpacks(inner) && inner is DeleteAll)
            ||| (e matches MasterResetError::DeleteTilesets(inner) && inner is DeleteAll)
            ||| (e matches MasterResetError::ResetSettings(inner) && inner is Save)
        },
{
    if let Err(e) = installed_mods_repository.delete_all_installed_mods(variant) {
        return Err(MasterResetError::DeleteMods(e));
    }
    if let Err(e) = installed_soundpacks_repository.delete_all_installed_soundpacks(variant) {
        return Err(MasterResetError::DeleteSoundpacks(e));
    }
    if let Err(e) = installed_tilesets_repository.delete_all_installed_tilesets(variant) {
        return Err(MasterResetError::DeleteTilesets(e));
    }
    if let Err(e) = settings_repository.save_settings(&Settings::default()) {
        return Err(MasterResetError::ResetSettings(e));
    }
    Ok(())
}

} // verus!
