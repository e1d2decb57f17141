use vstd::prelude::*;

use crate::db::SqliteConnection;

verus! {

/// The SQLite handle through which workspaces are stored. Reading and
/// writing workspace rows is not provided by this repository.
pub struct SqliteWorkspaceRepository {
    connection: SqliteConnection,
}

impl SqliteWorkspaceRepository {
    pub fn new(connection: SqliteConnection) -> (r: Self)
        ensures
            r.conn() == connection,
    {
        SqliteWorkspaceRepository { connection }
    }

    /// The connection this repository was made with.
    pub closed spec fn conn(&self) -> SqliteConnection {
        self.connection
    }

    pub fn connection(&self) -> (r: &SqliteConnection)
        ensures
            *r == self.conn(),
    {
        &self.connection
    }
}

} // verus!
