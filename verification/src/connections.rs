//! Connection records as the command surface exposes them: the saved
//! record without its sealed password, and the inputs for creating and
//! updating a record.
use vstd::prelude::*;

use crate::metadata::SavedConnection;

verus! {

/// A saved connection as shown to the user: every field of the record but
/// the sealed password.
#[derive(Debug)]
pub struct ConnectionInfo {
    pub id: String,
    pub name: String,
    pub host: String,
    pub port: u16,
    pub database: String,
    pub user: String,
    pub created_at: String,
}

/// The fields of a new connection record; the password arrives in the
/// clear and is sealed before it is stored.
#[derive(Debug)]
pub struct CreateConnectionInput {
    pub name: String,
    pub host: String,
    pub port: u16,
    pub database: String,
    pub user: String,
    pub password: String,
}

/// The fields of a connection update; a missing password keeps the stored
/// one.
#[derive(Debug)]
pub struct UpdateConnectionInput {
    pub id: String,
    pub name: String,
    pub host: String,
    pub port: u16,
    pub database: String,
    pub user: String,
    pub password: Option<String>,
}

impl From<SavedConnection> for ConnectionInfo {
    /// Strips the record down to what the user may see: every field is
    /// kept but the sealed password, which is dropped.
    fn from(conn: SavedConnection) -> (r: ConnectionInfo) {
        ConnectionInfo {
            id: conn.id,
            name: conn.name,
            host: conn.host,
            port: conn.port,
            database: conn.database,
            user: conn.user,
            created_at: conn.created_at,
        }
    }
}

impl vstd::std_specs::convert::FromSpecImpl<SavedConnection> for ConnectionInfo {
    open spec fn obeys_from_spec() -> bool {
        true
    }

    open spec fn from_spec(conn: SavedConnection) -> ConnectionInfo {
        ConnectionInfo {
            id: conn.id,
            name: conn.name,
            host: conn.host,
            port: conn.port,
            database: conn.database,
            user: conn.user,
            created_at: conn.created_at,
        }
    }
}

} // verus!
