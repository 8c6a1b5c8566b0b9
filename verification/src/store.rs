//! Store bootstrap: open or create the embedded SQLite file, apply the
//! idempotent schema, seed one default account when the account table is
//! empty, and read the aggregate liquid balance.

use vstd::prelude::*;

verus! {

/// How the store can fail: the file cannot be opened or created, the schema
/// statements are rejected, the seed insert is rejected, or an aggregation
/// read fails.
#[derive(Clone, Copy, Debug, PartialEq, Eq, Structural)]
pub enum StoreError {
    OpenFailed,
    SchemaFailed,
    SeedFailed,
    ReadFailed,
}

/// Whether a store whose account table holds `account_count` rows still
/// needs the default seed account: exactly when it holds none.
pub fn needs_seed(account_count: i64) -> (r: bool)
    ensures
        r == (account_count == 0),
{
    account_count == 0
}

/// The SQL batch that `ensure_ready` applies: the definitions of the four
/// tables accounts, transactions, scheduled_items and budgets, each under
/// `IF NOT EXISTS` so the batch is idempotent.
pub open spec fn schema_sql_chars() -> Seq<char> {
    "CREATE TABLE IF NOT EXISTS accounts (
  id INTEGER PRIMARY KEY AUTOINCREMENT,
  name TEXT NOT NULL,
  type TEXT NOT NULL,
  balance REAL NOT NULL,
  is_liquid INTEGER NOT NULL CHECK (is_liquid IN (0, 1)),
  growth_rate_apr REAL DEFAULT 0
);
CREATE TABLE IF NOT EXISTS transactions (
  id INTEGER PRIMARY KEY AUTOINCREMENT,
  account_id INTEGER NOT NULL,
  amount REAL NOT NULL,
  date TEXT NOT NULL,
  payee TEXT,
  category TEXT,
  linked_transfer_id INTEGER,
  FOREIGN KEY(account_id) REFERENCES accounts(id)
);
CREATE TABLE IF NOT EXISTS scheduled_items (
  id INTEGER PRIMARY KEY AUTOINCREMENT,
  account_id INTEGER NOT NULL,
  amount REAL NOT NULL,
  frequency TEXT NOT NULL,
  next_date TEXT NOT NULL,
  type TEXT NOT NULL,
  target_account_id INTEGER,
  FOREIGN KEY(account_id) REFERENCES accounts(id),
  FOREIGN KEY(target_account_id) REFERENCES accounts(id)
);
CREATE TABLE IF NOT EXISTS budgets (
  id INTEGER PRIMARY KEY AUTOINCREMENT,
  category TEXT NOT NULL,
  monthly_limit REAL NOT NULL
);"@
}

/// The statement that counts the account rows before seeding.
pub open spec fn account_count_sql_chars() -> Seq<char> {
    "SELECT COUNT(1) FROM accounts"@
}

/// The statement that inserts the single default account: name "Primary
/// Checking", type "current", balance 2500.0, liquid, zero growth rate.
pub open spec fn seed_insert_sql_chars() -> Seq<char> {
    "INSERT INTO accounts (name, type, balance, is_liquid, growth_rate_apr) VALUES ('Primary Checking', 'current', 2500.0, 1, 0.0)"@
}

/// The aggregation that reads the liquid starting balance: the sum of
/// `balance` over the accounts with `is_liquid = 1`, an empty sum coalesced
/// to zero, scaled by 100 and rounded half away from zero to whole cents.
pub open spec fn liquid_sum_sql_chars() -> Seq<char> {
    "SELECT CAST(ROUND(COALESCE(SUM(balance), 0) * 100) AS INTEGER) FROM accounts WHERE is_liquid = 1"@
}

/// The schema batch, exactly as `schema_sql_chars` states it.
pub fn schema_sql() -> (r: &'static str)
    ensures
        r@ == schema_sql_chars(),
{
    "CREATE TABLE IF NOT EXISTS accounts (
  id INTEGER PRIMARY KEY AUTOINCREMENT,
  name TEXT NOT NULL,
  type TEXT NOT NULL,
  balance REAL NOT NULL,
  is_liquid INTEGER NOT NULL CHECK (is_liquid IN (0, 1)),
  growth_rate_apr REAL DEFAULT 0
);
CREATE TABLE IF NOT EXISTS transactions (
  id INTEGER PRIMARY KEY AUTOINCREMENT,
  account_id INTEGER NOT NULL,
  amount REAL NOT NULL,
  date TEXT NOT NULL,
  payee TEXT,
  category TEXT,
  linked_transfer_id INTEGER,
  FOREIGN KEY(account_id) REFERENCES accounts(id)
);
CREATE TABLE IF NOT EXISTS scheduled_items (
  id INTEGER PRIMARY KEY AUTOINCREMENT,
  account_id INTEGER NOT NULL,
  amount REAL NOT NULL,
  frequency TEXT NOT NULL,
  next_date TEXT NOT NULL,
  type TEXT NOT NULL,
  target_account_id INTEGER,
  FOREIGN KEY(account_id) REFERENCES accounts(id),
  FOREIGN KEY(target_account_id) REFERENCES accounts(id)
);
CREATE TABLE IF NOT EXISTS budgets (
  id INTEGER PRIMARY KEY AUTOINCREMENT,
  category TEXT NOT NULL,
  monthly_limit REAL NOT NULL
);"
}

/// The account-count statement, exactly as `account_count_sql_chars` states
/// it.
pub fn account_count_sql() -> (r: &'static str)
    ensures
        r@ == account_count_sql_chars(),
{
    "SELECT COUNT(1) FROM accounts"
}

/// The seed insert, exactly as `seed_insert_sql_chars` states it.
pub fn seed_insert_sql() -> (r: &'static str)
    ensures
        r@ == seed_insert_sql_chars(),
{
    "INSERT INTO accounts (name, type, balance, is_liquid, growth_rate_apr) VALUES ('Primary Checking', 'current', 2500.0, 1, 0.0)"
}

/// The liquid-balance aggregation, exactly as `liquid_sum_sql_chars` states
/// it.
pub fn liquid_sum_sql() -> (r: &'static str)
    ensures
        r@ == liquid_sum_sql_chars(),
{
    "SELECT CAST(ROUND(COALESCE(SUM(balance), 0) * 100) AS INTEGER) FROM accounts WHERE is_liquid = 1"
}

/// Ensure the store file at `path` is ready for forecasting: open or create
/// it, apply the four idempotent table definitions, and, when the account
/// table is empty, insert the single default account ("Primary Checking",
/// current, 2500.00, liquid, zero growth). Each failure is reported as the
/// phase it arose in.
pub fn ensure_ready(path: &str) -> (r: Result<(), StoreError>)
    ensures
        r is Err ==> (r->Err_0 == StoreError::OpenFailed || r->Err_0 == StoreError::SchemaFailed
            || r->Err_0 == StoreError::SeedFailed || r->Err_0 == StoreError::ReadFailed),
{
    let conn: rusqlite::Connection = match open_connection(path) {
        Ok(c) => c,
        Err(_) => {
            return Err(StoreError::OpenFailed);
        },
    };
    match run_batch(&conn, schema_sql()) {
        Ok(_) => (),
        Err(_) => {
            return Err(StoreError::SchemaFailed);
        },
    }
    let account_count: i64 = match query_integer(&conn, account_count_sql()) {
        Ok(n) => n,
        Err(_) => {
            return Err(StoreError::ReadFailed);
        },
    };
    if needs_seed(account_count) {
        match run_statement(&conn, seed_insert_sql()) {
            Ok(_) => (),
            Err(_) => {
                return Err(StoreError::SeedFailed);
            },
        }
    }
    Ok(())
}

/// The sum, in cents, of the balances of all liquid accounts in the store
/// at `path`, with an empty set of liquid accounts summing to zero. The
/// rounding to whole cents (half away from zero) happens inside the
/// aggregation query.
pub fn liquid_starting_balance(path: &str) -> (r: Result<i64, StoreError>)
    ensures
        r is Err ==> (r->Err_0 == StoreError::OpenFailed || r->Err_0 == StoreError::ReadFailed),
{
    let conn: rusqlite::Connection = match open_connection(path) {
        Ok(c) => c,
        Err(_) => {
            return Err(StoreError::OpenFailed);
        },
    };
    match query_integer(&conn, liquid_sum_sql()) {
        Ok(cents) => Ok(cents),
        Err(_) => Err(StoreError::ReadFailed),
    }
}

#[verifier::external_type_specification]
#[verifier::external_body]
pub struct ExConnection(rusqlite::Connection);

#[verifier::external_type_specification]
#[verifier::external_body]
pub struct ExSqlError(rusqlite::Error);

/// Relies on rusqlite::Connection::open: opens the SQLite database file at
/// `path`, creating it when it does not exist.
#[verifier::external_body]
fn open_connection(path: &str) -> (r: Result<rusqlite::Connection, rusqlite::Error>) {
    rusqlite::Connection::open(path)
}

/// Relies on rusqlite::Connection::execute_batch: runs each SQL statement
/// in `sql` against the open database in order, stopping at the first
/// failure.
#[verifier::external_body]
fn run_batch(conn: &rusqlite::Connection, sql: &str) -> (r: Result<(), rusqlite::Error>) {
    conn.execute_batch(sql)
}

/// Relies on rusqlite::Connection::execute: runs the single parameterless
/// SQL statement `sql` and reports how many rows it changed.
#[verifier::external_body]
fn run_statement(conn: &rusqlite::Connection, sql: &str) -> (r: Result<usize, rusqlite::Error>) {
    conn.execute(sql, [])
}

/// Relies on rusqlite::Connection::query_row and rusqlite::Row::get: runs
/// the parameterless query `sql`, whose first result row holds a single
/// integer column, and returns that integer.
#[verifier::external_body]
fn query_integer(conn: &rusqlite::Connection, sql: &str) -> (r: Result<i64, rusqlite::Error>) {
    conn.query_row(sql, [], |row| row.get(0))
}

} // verus!
