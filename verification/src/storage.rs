use vstd::prelude::*;
use vstd::string::*;

verus! {

/// What the login callback hands the desktop client, as stored in the `auth` table.
#[derive(Debug, Clone)]
pub struct LoginResponse {
    pub user_id: String,
    pub name: String,
    pub email: String,
    pub token: String,
}

/// The device that the server registered for a user, as stored in the `devices` table.
#[derive(Debug, Clone)]
pub struct DeviceRegistration {
    pub user_id: String,
    pub device_id: String,
    pub device_name: String,
    pub platform: String,
}

/// The stored login joined with the device registered for its user.
#[derive(Debug, Clone)]
pub struct Session {
    pub user_id: String,
    pub name: String,
    pub email: String,
    pub token: String,
    pub device_id: String,
}

/// Whether some name in `columns` is `column`.
pub open spec fn has_column(columns: Seq<String>, column: Seq<char>) -> bool {
    exists|i: int| 0 <= i < columns.len() && #[trigger] columns[i]@ == column
}

/// The statement that adds `column` with `definition` to the `auth` table.
pub open spec fn add_column_statement(column: Seq<char>, definition: Seq<char>) -> Seq<char> {
    "ALTER TABLE auth ADD COLUMN "@ + column + " "@ + definition
}

/// Given the column names that `PRAGMA table_info(auth)` lists, the statement
/// that adds `column` when it is missing, or `None` when it is there.
pub fn auth_column_migration(existing: &Vec<String>, column: &str, definition: &str) -> (r: Option<String>)
    ensures
        r is None <==> has_column(existing@, column@),
        r matches Some(s) ==> s@ == add_column_statement(column@, definition@),
{
    let wanted: String = column.to_owned();
    let mut i: usize = 0;
    while i < existing.len()
        invariant
            i <= existing@.len(),
            wanted@ == column@,
            forall|j: int| 0 <= j < i ==> #[trigger] existing@[j]@ != column@,
        decreases existing@.len() - i,
    {
        if existing[i] == wanted {
            assert(existing@[i as int]@ == column@);
            return None;
        }
        i = i + 1;
    }
    let mut statement = String::from_str("ALTER TABLE auth ADD COLUMN ");
    statement.append(column);
    statement.append(" ");
    statement.append(definition);
    Some(statement)
}

} // verus!
