//! Saved-query records as the command surface exposes them.
use vstd::prelude::*;

use crate::metadata::SavedQuery;

verus! {

/// A saved query as shown to the user.
#[derive(Debug)]
pub struct SavedQueryInfo {
    pub id: String,
    pub connection_id: Option<String>,
    pub name: String,
    pub sql: String,
    pub created_at: String,
}

impl From<SavedQuery> for SavedQueryInfo {
    /// Carries every field of the record over unchanged.
    fn from(q: SavedQuery) -> (r: SavedQueryInfo) {
        SavedQueryInfo {
            id: q.id,
            connection_id: q.connection_id,
            name: q.name,
            sql: q.sql,
            created_at: q.created_at,
        }
    }
}

impl vstd::std_specs::convert::FromSpecImpl<SavedQuery> for SavedQueryInfo {
    open spec fn obeys_from_spec() -> bool {
        true
    }

    open spec fn from_spec(q: SavedQuery) -> SavedQueryInfo {
        SavedQueryInfo {
            id: q.id,
            connection_id: q.connection_id,
            name: q.name,
            sql: q.sql,
            created_at: q.created_at,
        }
    }
}

} // verus!
