use vstd::prelude::*;

use crate::db::StorePool;
use crate::variants::GameVariant;

verus! {

/// Failure of an installed-tilesets repository operation. The first four
/// variants name the operation that failed and carry the underlying
/// cause's message; `NotFound` reports a delete that affected no row,
/// with the id and variant identifier it was given.
#[derive(Debug, Clone, PartialEq, Eq)]
pub enum InstalledTilesetsRepositoryError {
    Add(String),
    Delete(String),
    DeleteAll(String),
    IsInstalled(String),
    NotFound(String, String),
}

/// The capability an installed-tilesets store offers: idempotent insert,
/// remove-exactly-one, remove-all-for-a-variant, and an existence check,
/// each scoped to a game variant.
pub trait InstalledTilesetsRepository {
    /// Insert-if-absent: re-adding an installed tileset is not an error.
    fn add_installed_tileset(&self, tileset_id: &str, game_variant: &GameVariant) -> (r: Result<
        (),
        InstalledTilesetsRepositoryError,
    >)
        ensures
            r matches Err(e) ==> e is Add,
    ;

    /// Remove exactly one record; a delete that affects no row fails
    /// with `NotFound`, carrying the id and the variant's identifier.
    fn delete_installed_tileset(&self, tileset_id: &str, game_variant: &GameVariant) -> (r: Result<
        (),
        InstalledTilesetsRepositoryError,
    >)
        ensures
            r matches Err(e) ==> e is Delete || (e matches InstalledTilesetsRepositoryError::NotFound(
                id,
                variant,
            ) && id@ == tileset_id@ && variant@ == game_variant.id_spec()),
    ;

    /// Remove every record of the variant; succeeds even if none existed.
    fn delete_all_installed_tilesets(&self, game_variant: &GameVariant) -> (r: Result<
        (),
        InstalledTilesetsRepositoryError,
    >)
        ensures
            r matches Err(e) ==> e is DeleteAll,
    ;

    /// Pure existence check.
    fn is_tileset_installed(&self, tileset_id: &str, game_variant: &GameVariant) -> (r: Result<
        bool,
        InstalledTilesetsRepositoryError,
    >)
        ensures
            r matches Err(e) ==> e is IsInstalled,
    ;
}

/// The repository outcome for a delete statement that affected
/// `rows_affected` rows: zero affected rows is exactly a `NotFound` for
/// the given id and variant, anything else is success.
pub fn delete_outcome(rows_affected: usize, tileset_id: &str, game_variant: &GameVariant) -> (r:
    Result<(), InstalledTilesetsRepositoryError>)
    ensures
        rows_affected == 0 ==> (r matches Err(InstalledTilesetsRepositoryError::NotFound(id, variant))
            && id@ == tileset_id@ && variant@ == game_variant.id_spec()),
        rows_affected != 0 ==> r is Ok,
{
    if rows_affected == 0 {
        Err(
            InstalledTilesetsRepositoryError::NotFound(
                String::from_str(tileset_id),
                String::from_str(game_variant.id()),
            ),
        )
    } else {
        Ok(())
    }
}

/// Installed-tilesets records kept in the pooled SQLite store, one row per
/// `(tileset_id, game_variant)` pair in the `installed_tilesets` table.
pub struct SqliteInstalledTilesetsRepository {
    pool: StorePool,
}

impl SqliteInstalledTilesetsRepository {
    pub fn new(pool: StorePool) -> (r: SqliteInstalledTilesetsRepository) {
        SqliteInstalledTilesetsRepository { pool }
    }
}

impl InstalledTilesetsRepository for SqliteInstalledTilesetsRepository {
    fn add_installed_tileset(&self, tileset_id: &str, game_variant: &GameVariant) -> (r: Result<
        (),
        InstalledTilesetsRepositoryError,
    >) {
        let params = vec![String::from_str(tileset_id), String::from_str(game_variant.id())];
        let conn = match self.pool.get() {
            Ok(conn) => conn,
            Err(m) => return Err(InstalledTilesetsRepositoryError::Add(m)),
        };
        match conn.execute(
            "INSERT OR IGNORE INTO installed_tilesets (tileset_id, game_variant) VALUES (?1, ?2)",
            &params,
        ) {
            Ok(_) => Ok(()),
            Err(m) => Err(InstalledTilesetsRepositoryError::Add(m)),
        }
    }

    fn delete_installed_tileset(&self, tileset_id: &str, game_variant: &GameVariant) -> (r: Result<
        (),
        InstalledTilesetsRepositoryError,
    >) {
        let params = vec![String::from_str(tileset_id), String::from_str(game_variant.id())];
        let conn = match self.pool.get() {
            Ok(conn) => conn,
            Err(m) => return Err(InstalledTilesetsRepositoryError::Delete(m)),
        };
        let rows_affected = match conn.execute(
            "DELETE FROM installed_tilesets WHERE tileset_id = ?1 AND game_variant = ?2",
            &params,
        ) {
            Ok(count) => count,
            Err(m) => return Err(InstalledTilesetsRepositoryError::Delete(m)),
        };
        delete_outcome(rows_affected, tileset_id, game_variant)
    }

    fn delete_all_installed_tilesets(&self, game_variant: &GameVariant) -> (r: Result<
        (),
        InstalledTilesetsRepositoryError,
    >) {
        let params = vec![String::from_str(game_variant.id())];
        let conn = match self.pool.get() {
            Ok(conn) => conn,
            Err(m) => return Err(InstalledTilesetsRepositoryError::DeleteAll(m)),
        };
        match conn.execute("DELETE FROM installed_tilesets WHERE game_variant = ?1", &params) {
            Ok(_) => Ok(()),
            Err(m) => Err(InstalledTilesetsRepositoryError::DeleteAll(m)),
        }
    }

    fn is_tileset_installed(&self, tileset_id: &str, game_variant: &GameVariant) -> (r: Result<
        bool,
        InstalledTilesetsRepositoryError,
    >) {
        let params = vec![String::from_str(tileset_id), String::from_str(game_variant.id())];
        let conn = match self.pool.get() {
            Ok(conn) => conn,
            Err(m) => return Err(InstalledTilesetsRepositoryError::IsInstalled(m)),
        };
        match conn.query_exists(
            "SELECT 1 FROM installed_tilesets WHERE tileset_id = ?1 AND game_variant = ?2",
            &params,
        ) {
            Ok(found) => Ok(found),
            Err(m) => Err(InstalledTilesetsRepositoryError::IsInstalled(m)),
        }
    }
}

} // verus!
