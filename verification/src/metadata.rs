//! Records of the local metadata store: saved connections, saved queries,
//! and the store's error kinds. The store itself — an embedded file
//! database — is an external collaborator; the engine owns only the
//! record shapes and error taxonomy.
use vstd::prelude::*;

verus! {

/// Failures of the local metadata store.
#[derive(Debug)]
pub enum MetadataError {
    /// An error of the embedded database, carried as text.
    Database(String),
    /// The application data directory could not be resolved.
    NoAppDataDir,
    /// The store was used before it was initialized.
    NotInitialized,
    /// No saved connection exists under the requested identifier.
    ConnectionNotFound,
}

/// The user-facing message of a store error.
pub open spec fn spec_metadata_message(e: MetadataError) -> Seq<char> {
    match e {
        MetadataError::Database(m) => ("Database error: ")@ + m@,
        MetadataError::NoAppDataDir => ("Failed to get app data directory")@,
        MetadataError::NotInitialized => ("Database not initialized")@,
        MetadataError::ConnectionNotFound => ("Connection not found")@,
    }
}

impl MetadataError {
    /// Renders the error as its user-facing message.
    pub fn message(&self) -> (r: String)
        ensures
            r@ == spec_metadata_message(*self),
    {
        match self {
            MetadataError::Database(m) => {
                let mut s = String::from_str("Database error: ");
                s.append(m.as_str());
                s
            },
            MetadataError::NoAppDataDir => String::from_str("Failed to get app data directory"),
            MetadataError::NotInitialized => String::from_str("Database not initialized"),
            MetadataError::ConnectionNotFound => String::from_str("Connection not found"),
        }
    }
}

/// A saved connection record: the target coordinates and the sealed
/// password.
#[derive(Debug, Clone)]
pub struct SavedConnection {
    pub id: String,
    pub name: String,
    pub host: String,
    pub port: u16,
    pub database: String,
    pub user: String,
    pub encrypted_password: String,
    pub created_at: String,
}

/// A saved query record.
#[derive(Debug, Clone)]
pub struct SavedQuery {
    pub id: String,
    pub connection_id: Option<String>,
    pub name: String,
    pub sql: String,
    pub created_at: String,
}

} // verus!
