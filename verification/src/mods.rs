use vstd::prelude::*;

use crate::db::StorePool;
use crate::variants::GameVariant;

verus! {

/// Failure of an installed-mods repository operation. The first four
/// variants name the operation that failed and carry the underlying
/// cause's message; `NotFound` reports a delete that affected no row,
/// with the id and variant identifier it was given.
#[derive(Debug, Clone, PartialEq, Eq)]
pub enum InstalledModsRepositoryError {
    Add(String),
    Delete(String),
    DeleteAll(String),
    IsInstalled(String),
    NotFound(String, String),
}

/// The capability an installed-mods store offers: idempotent insert,
/// remove-exactly-one, remove-all-for-a-variant, and an existence check,
/// each scoped to a game variant.
pub trait InstalledModsRepository {
    /// Insert-if-absent: re-adding an installed mod is not an error.
    fn add_installed_mod(&self, mod_id: &str, game_variant: &GameVariant) -> (r: Result<
        (),
        InstalledModsRepositoryError,
    >)
        ensures
            r matches Err(e) ==> e is Add,
    ;

    /// Remove exactly one record; a delete that affects no row fails
    /// with `NotFound`, carrying the id and the variant's identifier.
    fn delete_installed_mod(&self, mod_id: &str, game_variant: &GameVariant) -> (r: Result<
        (),
        InstalledModsRepositoryError,
    >)
        ensures
            r matches Err(e) ==> e is Delete || (e matches InstalledModsRepositoryError::NotFound(
                id,
                variant,
            ) && id@ == mod_id@ && variant@ == game_variant.id_spec()),
    ;

    /// Remove every record of the variant; succeeds even if none existed.
    fn delete_all_installed_mods(&self, game_variant: &GameVariant) -> (r: Result<
        (),
        InstalledModsRepositoryError,
    >)
        ensures
            r matches Err(e) ==> e is DeleteAll,
    ;

    /// Pure existence check.
    fn is_mod_installed(&self, mod_id: &str, game_variant: &GameVariant) -> (r: Result<
        bool,
        InstalledModsRepositoryError,
    >)
        ensures
            r matches Err(e) ==> e is IsInstalled,
    ;
}

/// The repository outcome for a delete statement that affected
/// `rows_affected` rows: zero affected rows is exactly a `NotFound` for
/// the given id and variant, anything else is success.
pub fn delete_outcome(rows_affected: usize, mod_id: &str, game_variant: &GameVariant) -> (r:
    Result<(), InstalledModsRepositoryError>)
    ensures
        rows_affected == 0 ==> (r matches Err(InstalledModsRepositoryError::NotFound(id, variant))
            && id@ == mod_id@ && variant@ == game_variant.id_spec()),
        rows_affected != 0 ==> r is Ok,
{
    if rows_affected == 0 {
        Err(
            InstalledModsRepositoryError::NotFound(
                String::from_str(mod_id),
                String::from_str(game_variant.id()),
            ),
        )
    } else {
        Ok(())
    }
}

/// Installed-mods records kept in the pooled SQLite store, one row per
/// `(mod_id, game_variant)` pair in the `installed_mods` table.
pub struct SqliteInstalledModsRepository {
    pool: StorePool,
}

impl SqliteInstalledModsRepository {
    pub fn new(pool: StorePool) -> (r: SqliteInstalledModsRepository) {
        SqliteInstalledModsRepository { pool }
    }
}

impl InstalledModsRepository for SqliteInstalledModsRepository {
    fn add_installed_mod(&self, mod_id: &str, game_variant: &GameVariant) -> (r: Result<
        (),
        InstalledModsRepositoryError,
    >) {
        let params = vec![String::from_str(mod_id), String::from_str(game_variant.id())];
        let conn = match self.pool.get() {
            Ok(conn) => conn,
            Err(m) => return Err(InstalledModsRepositoryError::Add(m)),
        };
        match conn.execute(
            "INSERT OR IGNORE INTO installed_mods (mod_id, game_variant) VALUES (?1, ?2)",
            &params,
        ) {
            Ok(_) => Ok(()),
            Err(m) => Err(InstalledModsRepositoryError::Add(m)),
        }
    }

    fn delete_installed_mod(&self, mod_id: &str, game_variant: &GameVariant) -> (r: Result<
        (),
        InstalledModsRepositoryError,
    >) {
        let params = vec![String::from_str(mod_id), String::from_str(game_variant.id())];
        let conn = match self.pool.get() {
            Ok(conn) => conn,
            Err(m) => return Err(InstalledModsRepositoryError::Delete(m)),
        };
        let rows_affected = match conn.execute(
            "DELETE FROM installed_mods WHERE mod_id = ?1 AND game_variant = ?2",
            &params,
        ) {
            Ok(count) => count,
            Err(m) => return Err(InstalledModsRepositoryError::Delete(m)),
        };
        delete_outcome(rows_affected, mod_id, game_variant)
    }

    fn delete_all_installed_mods(&self, game_variant: &GameVariant) -> (r: Result<
        (),
        InstalledModsRepositoryError,
    >) {
        let params = vec![String::from_str(game_variant.id())];
        let conn = match self.pool.get() {
            Ok(conn) => conn,
            Err(m) => return Err(InstalledModsRepositoryError::DeleteAll(m)),
        };
        match conn.execute("DELETE FROM installed_mods WHERE game_variant = ?1", &params) {
            Ok(_) => Ok(()),
            Err(m) => Err(InstalledModsRepositoryError::DeleteAll(m)),
        }
    }

    fn is_mod_installed(&self, mod_id: &str, game_variant: &GameVariant) -> (r: Result<
        bool,
        InstalledModsRepositoryError,
    >) {
        let params = vec![String::from_str(mod_id), String::from_str(game_variant.id())];
        let conn = match self.pool.get() {
            Ok(conn) => conn,
            Err(m) => return Err(InstalledModsRepositoryError::IsInstalled(m)),
        };
        match conn.query_exists(
            "SELECT 1 FROM installed_mods WHERE mod_id = ?1 AND game_variant = ?2",
            &params,
        ) {
            Ok(found) => Ok(found),
            Err(m) => Err(InstalledModsRepositoryError::IsInstalled(m)),
        }
    }
}

} // verus!
