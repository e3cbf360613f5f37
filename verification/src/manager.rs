//! The connection manager: owner of the single live pool and the
//! connection identity.
//!
//! The live pool itself is a transport resource held by the embedding
//! application; the manager tracks which pool is live through an abstract
//! pool number, so that lifecycle rules — one pool at a time, the old pool
//! closed before a new one is installed, a closed pool never used again —
//! are stated and checked here. `connect` is split along the transport
//! call: the caller first disconnects (closing the old pool), attempts the
//! transport connection, and installs the identity only on success, which
//! leaves the manager disconnected when the attempt fails.
use vstd::prelude::*;

verus! {

/// The fixed bound on a pool's concurrent physical connections; callers
/// beyond it queue for a slot.
pub const MAX_POOL_CONNECTIONS: u32 = 5;

/// The engine's error kinds: a transport-level connect failure, a
/// statement execution failure, a data operation without a live
/// connection, or a driver error carried as text.
#[derive(Debug)]
pub enum PostgresError {
    ConnectionFailed(String),
    QueryFailed(String),
    NoActiveConnection,
    Sqlx(String),
}

/// The user-facing message of an error.
pub open spec fn spec_error_message(e: PostgresError) -> Seq<char> {
    match e {
        PostgresError::ConnectionFailed(m) => ("Connection failed: ")@ + m@,
        PostgresError::QueryFailed(m) => ("Query execution failed: ")@ + m@,
        PostgresError::NoActiveConnection => ("No active connection")@,
        PostgresError::Sqlx(m) => ("SQLx error: ")@ + m@,
    }
}

impl PostgresError {
    /// Renders the error as its user-facing message.
    pub fn message(&self) -> (r: String)
        ensures
            r@ == spec_error_message(*self),
    {
        match self {
            PostgresError::ConnectionFailed(m) => {
                let mut s = String::from_str("Connection failed: ");
                s.append(m.as_str());
                s
            },
            PostgresError::QueryFailed(m) => {
                let mut s = String::from_str("Query execution failed: ");
                s.append(m.as_str());
                s
            },
            PostgresError::NoActiveConnection => String::from_str("No active connection"),
            PostgresError::Sqlx(m) => {
                let mut s = String::from_str("SQLx error: ");
                s.append(m.as_str());
                s
            },
        }
    }
}

/// The abstract state of the connection manager: the identity of the
/// active connection, the number of the live pool if one is live, the
/// next never-used pool number, and the numbers of all pools closed so
/// far.
#[verifier::ext_equal]
pub struct ManagerState {
    pub connection_id: Option<Seq<char>>,
    pub pool: Option<nat>,
    pub next_pool: nat,
    pub closed: Set<nat>,
}

impl ManagerState {
    /// A live pool is one that was issued and never closed; closed pools
    /// are all issued ones.
    pub open spec fn inv(self) -> bool {
        &&& (self.pool matches Some(t) ==> t < self.next_pool && !self.closed.contains(t))
        &&& forall|t: nat| self.closed.contains(t) ==> t < self.next_pool
    }
}

/// Disconnecting closes the live pool, if any, and clears the identity.
pub open spec fn spec_disconnect(s: ManagerState) -> ManagerState {
    ManagerState {
        connection_id: None,
        pool: None,
        next_pool: s.next_pool,
        closed: match s.pool {
            Some(t) => s.closed.insert(t),
            None => s.closed,
        },
    }
}

/// Installing a fresh connection takes the next pool number and records
/// the identity.
pub open spec fn spec_connect(s: ManagerState, id: Seq<char>) -> ManagerState {
    ManagerState {
        connection_id: Some(id),
        pool: Some(s.next_pool),
        next_pool: s.next_pool + 1,
        closed: s.closed,
    }
}

/// The connection manager. Exactly one connection may be active at a
/// time; absence of an identity means "disconnected".
pub struct PostgresManager {
    connection_id: Option<String>,
    has_pool: bool,
    pool_id: Ghost<nat>,
    next_pool: Ghost<nat>,
    closed: Ghost<Set<nat>>,
}

impl View for PostgresManager {
    type V = ManagerState;

    closed spec fn view(&self) -> ManagerState {
        ManagerState {
            connection_id: match self.connection_id {
                Some(s) => Some(s@),
                None => None,
            },
            pool: if self.has_pool {
                Some(self.pool_id@)
            } else {
                None
            },
            next_pool: self.next_pool@,
            closed: self.closed@,
        }
    }
}

impl PostgresManager {
    /// The manager's state respects the pool lifecycle rules.
    pub open spec fn wf(self) -> bool {
        self@.inv()
    }

    /// A fresh manager: disconnected, no pool ever issued or closed.
    pub fn new() -> (r: Self)
        ensures
            r.wf(),
            r@.connection_id is None,
            r@.pool is None,
            r@.closed == Set::<nat>::empty(),
    {
        PostgresManager {
            connection_id: None,
            has_pool: false,
            pool_id: Ghost(0),
            next_pool: Ghost(0),
            closed: Ghost(Set::empty()),
        }
    }

    /// Disconnects: closes the live pool if one is live and clears the
    /// identity. Idempotent. Returns whether a pool was live, so that the
    /// caller can release the transport resource it holds for it.
    pub fn disconnect(&mut self) -> (had_pool: bool)
        requires
            old(self).wf(),
        ensures
            final(self)@ == spec_disconnect(old(self)@),
            final(self).wf(),
            had_pool == (old(self)@.pool is Some),
    {
        let had = self.has_pool;
        if self.has_pool {
            self.closed = Ghost(self.closed@.insert(self.pool_id@));
            self.has_pool = false;
        }
        self.connection_id = None;
        had
    }

    /// Installs a fresh connection under `connection_id`. The caller must
    /// be disconnected — a prior pool is closed by `disconnect` before the
    /// transport connection is attempted — and calls this only when the
    /// transport attempt succeeded, pairing the freshly issued pool with
    /// the transport resource it now holds.
    pub fn connect(&mut self, connection_id: &str)
        requires
            old(self).wf(),
            old(self)@.pool is None,
        ensures
            final(self)@ == spec_connect(old(self)@, connection_id@),
            final(self).wf(),
    {
        self.connection_id = Some(connection_id.to_owned());
        self.has_pool = true;
        self.pool_id = Ghost(self.next_pool@);
        self.next_pool = Ghost(self.next_pool@ + 1);
    }

    /// The identity of the active connection, if any.
    pub fn get_connection_id(&self) -> (r: Option<String>)
        ensures
            r is Some <==> self@.connection_id is Some,
            r matches Some(s) ==> self@.connection_id == Some(s@),
    {
        match &self.connection_id {
            Some(s) => Some(s.clone()),
            None => None,
        }
    }

    /// Gate for every data operation: fails with `NoActiveConnection`
    /// exactly when no pool is live.
    pub fn check_connected(&self) -> (r: Result<(), PostgresError>)
        ensures
            self@.pool is Some ==> r is Ok,
            self@.pool is None ==> r == Err::<(), PostgresError>(
                PostgresError::NoActiveConnection,
            ),
    {
        if self.has_pool {
            Ok(())
        } else {
            Err(PostgresError::NoActiveConnection)
        }
    }

    /// Decides the outcome of a connection test: `NoActiveConnection`
    /// when no pool is live; otherwise `true` when the trivial round-trip
    /// statement succeeded, and `QueryFailed` carrying the transport
    /// diagnostic when it did not.
    pub fn test_connection(&self, roundtrip: Result<(), String>) -> (r: Result<
        bool,
        PostgresError,
    >)
        ensures
            self@.pool is None ==> r == Err::<bool, PostgresError>(
                PostgresError::NoActiveConnection,
            ),
            self@.pool is Some && roundtrip is Ok ==> r == Ok::<bool, PostgresError>(true),
            self@.pool is Some ==> (roundtrip matches Err(m) ==> r == Err::<
                bool,
                PostgresError,
            >(PostgresError::QueryFailed(m))),
    {
        if !self.has_pool {
            return Err(PostgresError::NoActiveConnection);
        }
        match roundtrip {
            Ok(_) => Ok(true),
            Err(m) => Err(PostgresError::QueryFailed(m)),
        }
    }
}

impl Default for PostgresManager {
    /// The default manager is a fresh, disconnected one.
    fn default() -> (r: Self)
        ensures
            r.wf(),
            r@.connection_id is None,
            r@.pool is None,
    {
        PostgresManager::new()
    }
}

/// Connecting and then disconnecting leaves no identity and no live pool:
/// after the round trip, `get_connection_id` reads none.
pub proof fn lemma_connect_then_disconnect(s: ManagerState, id: Seq<char>)
    ensures
        spec_disconnect(spec_connect(spec_disconnect(s), id)).connection_id is None,
        spec_disconnect(spec_connect(spec_disconnect(s), id)).pool is None,
{
}

/// Disconnecting is idempotent: a second disconnect changes nothing.
pub proof fn lemma_disconnect_idempotent(s: ManagerState)
    ensures
        spec_disconnect(spec_disconnect(s)) == spec_disconnect(s),
{
}

/// Connecting to `a` and then to `b` leaves exactly identity `b` live:
/// the pool issued for `a` is closed, and the pool live afterwards is a
/// different one, so subsequent operations use only `b`'s connection.
pub proof fn lemma_reconnect_replaces(s: ManagerState, a: Seq<char>, b: Seq<char>)
    requires
        s.inv(),
    ensures
        ({
            let s1 = spec_connect(spec_disconnect(s), a);
            let s2 = spec_connect(spec_disconnect(s1), b);
            &&& s1.inv()
            &&& s2.inv()
            &&& s1.connection_id == Some(a)
            &&& s2.connection_id == Some(b)
            &&& s1.pool matches Some(t) && s2.closed.contains(t)
            &&& s2.pool != s1.pool
        }),
{
}

} // verus!
