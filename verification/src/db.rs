use vstd::prelude::*;

verus! {

/// Handle on the bounded pool of connections to one embedded SQLite
/// store. The pool exclusively owns the live connections; they are lent
/// one per call and returned on drop. Verus cannot declare r2d2's
/// `Pool` (its type parameter is bound by an outside trait), so the pool
/// lives in a hidden field and is reached only through the trusted
/// methods below.
#[verifier::external_body]
pub struct StorePool {
    pool: r2d2::Pool<r2d2_sqlite::SqliteConnectionManager>,
}

/// One connection lent out of the pool, with exclusive use until it is
/// dropped, when the pool takes it back.
#[verifier::external_body]
pub struct StoreConnection {
    conn: r2d2::PooledConnection<r2d2_sqlite::SqliteConnectionManager>,
}

impl StorePool {
    /// Relies on r2d2_sqlite's SqliteConnectionManager::file and r2d2's
    /// Builder::build: a pool of connections to the store file at `path`,
    /// or the construction failure's message.
    #[verifier::external_body]
    pub fn open(path: &str) -> (r: Result<StorePool, String>) {
        let manager = r2d2_sqlite::SqliteConnectionManager::file(path);
        match r2d2::Pool::builder().build(manager) {
            Ok(pool) => Ok(StorePool { pool }),
            Err(e) => Err(format!("{e}")),
        }
    }

    /// Relies on r2d2_sqlite's SqliteConnectionManager::memory and r2d2's
    /// Builder::build: a pool holding exactly one connection to a fresh
    /// in-memory store, so every lease sees the same data.
    #[verifier::external_body]
    pub fn open_in_memory() -> (r: Result<StorePool, String>) {
        let manager = r2d2_sqlite::SqliteConnectionManager::memory();
        match r2d2::Pool::builder().max_size(1).build(manager) {
            Ok(pool) => Ok(StorePool { pool }),
            Err(e) => Err(format!("{e}")),
        }
    }

    /// Relies on r2d2's Clone for Pool: a second handle referencing the
    /// same pool state.
    #[verifier::external_body]
    pub fn handle(&self) -> (r: StorePool) {
        StorePool { pool: self.pool.clone() }
    }

    /// Relies on r2d2's Pool::get: lends one pooled connection, or
    /// reports the acquisition failure (pool exhaustion, connection
    /// fault) as its message.
    #[verifier::external_body]
    pub(crate) fn get(&self) -> (r: Result<StoreConnection, String>) {
        match self.pool.get() {
            Ok(conn) => Ok(StoreConnection { conn }),
            Err(e) => Err(format!("{e}")),
        }
    }
}

impl StoreConnection {
    /// Relies on rusqlite's Connection::execute: runs the one SQL
    /// statement in `sql` with the given positional parameters,
    /// atomically, and returns how many rows it changed, or the
    /// failure's message.
    #[verifier::external_body]
    pub(crate) fn execute(&self, sql: &str, params: &Vec<String>) -> (r: Result<usize, String>) {
        self.conn
            .execute(sql, rusqlite::params_from_iter(params.iter()))
            .map_err(|e| format!("{e}"))
    }

    /// Relies on rusqlite's Connection::prepare and Statement::exists:
    /// true exactly when the query in `sql`, with the given positional
    /// parameters, returns at least one row.
    #[verifier::external_body]
    pub(crate) fn query_exists(&self, sql: &str, params: &Vec<String>) -> (r: Result<bool, String>) {
        match self.conn.prepare(sql) {
            Ok(mut stmt) => stmt
                .exists(rusqlite::params_from_iter(params.iter()))
                .map_err(|e| format!("{e}")),
            Err(e) => Err(format!("{e}")),
        }
    }

    /// Relies on rusqlite's Connection::query_row: reads the first column
    /// of the first row the query in `sql` returns, a nullable text
    /// value. `Ok(None)` stands both for "no row" (query_row's
    /// QueryReturnedNoRows) and for a row holding NULL.
    #[verifier::external_body]
    pub(crate) fn query_opt_text(&self, sql: &str) -> (r: Result<Option<String>, String>) {
        match self.conn.query_row(sql, [], |row| row.get::<usize, Option<String>>(0)) {
            Ok(v) => Ok(v),
            Err(rusqlite::Error::QueryReturnedNoRows) => Ok(None),
            Err(e) => Err(format!("{e}")),
        }
    }

    /// Relies on rusqlite's Connection::transaction, Transaction::execute
    /// and Transaction::commit: runs the two statements, each with its
    /// one nullable text parameter, inside a single transaction. On any
    /// failure the transaction is rolled back when dropped and the
    /// failure's message returned; on success both statements took
    /// effect together.
    #[verifier::external_body]
    pub(crate) fn execute_pair_transactional(
        &mut self,
        sql_one: &str,
        param_one: Option<String>,
        sql_two: &str,
        param_two: Option<String>,
    ) -> (r: Result<(), String>) {
        let tx = match self.conn.transaction() {
            Ok(tx) => tx,
            Err(e) => return Err(format!("{e}")),
        };
        if let Err(e) = tx.execute(sql_one, (param_one,)) {
            return Err(format!("{e}"));
        }
        if let Err(e) = tx.execute(sql_two, (param_two,)) {
            return Err(format!("{e}"));
        }
        tx.commit().map_err(|e| format!("{e}"))
    }
}

/// Create the five tables of the persisted layout where they do not
/// exist yet: one installed-component table per kind, unique on
/// `(id, game_variant)`, and the two singleton settings rows' tables.
pub fn initialize_schema(pool: &StorePool) -> (r: Result<(), String>) {
    let empty: Vec<String> = Vec::new();
    let conn = match pool.get() {
        Ok(conn) => conn,
        Err(m) => return Err(m),
    };
    let statements = [
        "CREATE TABLE IF NOT EXISTS installed_mods (mod_id TEXT NOT NULL, game_variant TEXT NOT NULL, UNIQUE(mod_id, game_variant))",
        "CREATE TABLE IF NOT EXISTS installed_soundpacks (soundpack_id TEXT NOT NULL, game_variant TEXT NOT NULL, UNIQUE(soundpack_id, game_variant))",
        "CREATE TABLE IF NOT EXISTS installed_tilesets (tileset_id TEXT NOT NULL, game_variant TEXT NOT NULL, UNIQUE(tileset_id, game_variant))",
        "CREATE TABLE IF NOT EXISTS settings (_id INTEGER PRIMARY KEY, font_path TEXT)",
        "CREATE TABLE IF NOT EXISTS color_settings (_id INTEGER PRIMARY KEY, theme_path TEXT)",
    ];
    let mut i: usize = 0;
    while i < 5
        invariant
            i <= 5,
        decreases 5 - i,
    {
        if let Err(m) = conn.execute(statements[i], &empty) {
            return Err(m);
        }
        i = i + 1;
    }
    Ok(())
}

} // verus!
