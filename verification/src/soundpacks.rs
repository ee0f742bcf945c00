use vstd::prelude::*;

use crate::db::StorePool;
use crate::variants::GameVariant;

verus! {

/// Failure of an installed-soundpacks repository operation. The first four
/// variants name the operation that failed and carry the underlying
/// cause's message; `NotFound` reports a delete that affected no row,
/// with the id and variant identifier it was given.
#[derive(Debug, Clone, PartialEq, Eq)]
pub enum InstalledSoundpacksRepositoryError {
    Add(String),
    Delete(String),
    DeleteAll(String),
    IsInstalled(String),
    NotFound(String, String),
}

/// The capability an installed-soundpacks store offers: idempotent insert,
/// remove-exactly-one, remove-all-for-a-variant, and an existence check,
/// each scoped to a game variant.
pub trait InstalledSoundpacksRepository {
    /// Insert-if-absent: re-adding an installed soundpack is not an error.
    fn add_installed_soundpack(&self, soundpack_id: &str, game_variant: &GameVariant) -> (r: Result<
        (),
        InstalledSoundpacksRepositoryError,
    >)
        ensures
            r matches Err(e) ==> e is Add,
    ;

    /// Remove exactly one record; a delete that affects no row fails
    /// with `NotFound`, carrying the id and the variant's identifier.
    fn delete_installed_soundpack(&self, soundpack_id: &str, game_variant: &GameVariant) -> (r: Result<
        (),
        InstalledSoundpacksRepositoryError,
    >)
        ensures
            r matches Err(e) ==> e is Delete || (e matches InstalledSoundpacksRepositoryError::NotFound(
                id,
                variant,
            ) && id@ == soundpack_id@ && variant@ == game_variant.id_spec()),
    ;

    /// Remove every record of the variant; succeeds even if none existed.
    fn delete_all_installed_soundpacks(&self, game_variant: &GameVariant) -> (r: Result<
        (),
        InstalledSoundpacksRepositoryError,
    >)
        ensures
            r matches Err(e) ==> e is DeleteAll,
    ;

    /// Pure existence check.
    fn is_soundpack_installed(&self, soundpack_id: &str, game_variant: &GameVariant) -> (r: Result<
        bool,
        InstalledSoundpacksRepositoryError,
    >)
        ensures
            r matches Err(e) ==> e is IsInstalled,
    ;
}

/// The repository outcome for a delete statement that affected
/// `rows_affected` rows: zero affected rows is exactly a `NotFound` for
/// the given id and variant, anything else is success.
pub fn delete_outcome(rows_affected: usize, soundpack_id: &str, game_variant: &GameVariant) -> (r:
    Result<(), InstalledSoundpacksRepositoryError>)
    ensures
        rows_affected == 0 ==> (r matches Err(InstalledSoundpacksRepositoryError::NotFound(id, variant))
            && id@ == soundpack_id@ && variant@ == game_variant.id_spec()),
        rows_affected != 0 ==> r is Ok,
{
    if rows_affected == 0 {
        Err(
            InstalledSoundpacksRepositoryError::NotFound(
                String::from_str(soundpack_id),
                String::from_str(game_variant.id()),
            ),
        )
    } else {
        Ok(())
    }
}

/// Installed-soundpacks records kept in the pooled SQLite store, one row per
/// `(soundpack_id, game_variant)` pair in the `installed_soundpacks` table.
pub struct SqliteInstalledSoundpacksRepository {
    pool: StorePool,
}

impl SqliteInstalledSoundpacksRepository {
    pub fn new(pool: StorePool) -> (r: SqliteInstalledSoundpacksRepository) {
        SqliteInstalledSoundpacksRepository { pool }
    }
}

impl InstalledSoundpacksRepository for SqliteInstalledSoundpacksRepository {
    fn add_installed_soundpack(&self, soundpack_id: &str, game_variant: &GameVariant) -> (r: Result<
        (),
        InstalledSoundpacksRepositoryError,
    >) {
        let params = vec![String::from_str(soundpack_id), String::from_str(game_variant.id())];
        let conn = match self.pool.get() {
            Ok(conn) => conn,
            Err(m) => return Err(InstalledSoundpacksRepositoryError::Add(m)),
        };
        match conn.execute(
            "INSERT OR IGNORE INTO installed_soundpacks (soundpack_id, game_variant) VALUES (?1, ?2)",
            &params,
        ) {
            Ok(_) => Ok(()),
            Err(m) => Err(InstalledSoundpacksRepositoryError::Add(m)),
        }
    }

    fn delete_installed_soundpack(&self, soundpack_id: &str, game_variant: &GameVariant) -> (r: Result<
        (),
        InstalledSoundpacksRepositoryError,
    >) {
        let params = vec![String::from_str(soundpack_id), String::from_str(game_variant.id())];
        let conn = match self.pool.get() {
            Ok(conn) => conn,
            Err(m) => return Err(InstalledSoundpacksRepositoryError::Delete(m)),
        };
        let rows_affected = match conn.execute(
            "DELETE FROM installed_soundpacks WHERE soundpack_id = ?1 AND game_variant = ?2",
            &params,
        ) {
            Ok(count) => count,
            Err(m) => return Err(InstalledSoundpacksRepositoryError::Delete(m)),
        };
        delete_outcome(rows_affected, soundpack_id, game_variant)
    }

    fn delete_all_installed_soundpacks(&self, game_variant: &GameVariant) -> (r: Result<
        (),
        InstalledSoundpacksRepositoryError,
    >) {
        let params = vec![String::from_str(game_variant.id())];
        let conn = match self.pool.get() {
            Ok(conn) => conn,
            Err(m) => return Err(InstalledSoundpacksRepositoryError::DeleteAll(m)),
        };
        match conn.execute("DELETE FROM installed_soundpacks WHERE game_variant = ?1", &params) {
            Ok(_) => Ok(()),
            Err(m) => Err(InstalledSoundpacksRepositoryError::DeleteAll(m)),
        }
    }

    fn is_soundpack_installed(&self, soundpack_id: &str, game_variant: &GameVariant) -> (r: Result<
        bool,
        InstalledSoundpacksRepositoryError,
    >) {
        let params = vec![String::from_str(soundpack_id), String::from_str(game_variant.id())];
        let conn = match self.pool.get() {
            Ok(conn) => conn,
            Err(m) => return Err(InstalledSoundpacksRepositoryError::IsInstalled(m)),
        };
        match conn.query_exists(
            "SELECT 1 FROM installed_soundpacks WHERE soundpack_id = ?1 AND game_variant = ?2",
            &params,
        ) {
            Ok(found) => Ok(found),
            Err(m) => Err(InstalledSoundpacksRepositoryError::IsInstalled(m)),
        }
    }
}

} // verus!
