//! Authentication sessions and the store that holds them.
//!
//! A session lives for a fixed time from its creation and is never renewed.
//! The store never sweeps: an expired entry stays until it is deleted, and a
//! lookup treats it as absent.

use vstd::prelude::*;
use crate::error::PosError;

verus! {

/// What a user may do.
#[derive(Debug, Clone, Copy, PartialEq, Eq, Structural)]
pub enum Role {
    /// May manage users, products and orders.
    ADMIN,
    /// May take and dispatch orders.
    STAFF,
}

/// One login of one user.
#[derive(Debug)]
pub struct Session {
    /// The opaque token that names the session.
    pub session_id: String,
    pub user_id: String,
    pub username: String,
    pub role: Role,
    pub tenant_id: String,
    pub branch_id: String,
    /// Seconds since the epoch from which the session is no longer valid.
    pub expires_at: u64,
}

/// A session as contracts speak of it.
pub struct SessionData {
    pub session_id: Seq<char>,
    pub user_id: Seq<char>,
    pub username: Seq<char>,
    pub role: Role,
    pub tenant_id: Seq<char>,
    pub branch_id: Seq<char>,
    pub expires_at: u64,
}

impl View for Session {
    type V = SessionData;

    open spec fn view(&self) -> SessionData {
        SessionData {
            session_id: self.session_id@,
            user_id: self.user_id@,
            username: self.username@,
            role: self.role,
            tenant_id: self.tenant_id@,
            branch_id: self.branch_id@,
            expires_at: self.expires_at,
        }
    }
}

/// Lifetime of a session in seconds.
pub open spec fn spec_session_lifetime_secs() -> u64 {
    43200
}

/// Lifetime of a session: twelve hours, never extended by activity.
#[verifier::when_used_as_spec(spec_session_lifetime_secs)]
pub fn session_lifetime_secs() -> (secs: u64)
    ensures
        secs == spec_session_lifetime_secs(),
{
    12 * 60 * 60
}

/// The seconds since the epoch at the moment `now`, given in milliseconds;
/// zero for a moment before the epoch.
pub open spec fn spec_clock_secs(now: i64) -> u64 {
    if now < 0 {
        0
    } else {
        (now as int / 1000) as u64
    }
}

/// The seconds since the epoch at the moment `now`, given in milliseconds;
/// zero for a moment before the epoch.
#[verifier::when_used_as_spec(spec_clock_secs)]
pub fn clock_secs(now: i64) -> (secs: u64)
    ensures
        secs == spec_clock_secs(now),
{
    if now < 0 {
        0
    } else {
        (now / 1000) as u64
    }
}

/// The moment at which a session created at `now` stops being valid. It is
/// `now` plus the lifetime, held at the largest representable moment.
pub open spec fn expiry_for(now: u64) -> u64 {
    if now + spec_session_lifetime_secs() <= u64::MAX {
        (now + spec_session_lifetime_secs()) as u64
    } else {
        u64::MAX
    }
}

/// The session that `identity` becomes when it is created at `now` under `token`.
pub open spec fn created_session(identity: SessionData, token: Seq<char>, now: u64) -> SessionData {
    SessionData { session_id: token, expires_at: expiry_for(now), ..identity }
}

/// What a lookup of `token` at `now` returns in the store `sessions`.
pub open spec fn lookup(sessions: Map<Seq<char>, SessionData>, token: Seq<char>, now: u64) -> Option<
    SessionData,
> {
    if sessions.contains_key(token) && now < sessions[token].expires_at {
        Some(sessions[token])
    } else {
        None
    }
}

impl Session {
    /// Whether the session is still valid at `now`, in seconds since the epoch.
    pub fn is_valid(&self, now: u64) -> (valid: bool)
        ensures
            valid == (now < self.expires_at),
    {
        now < self.expires_at
    }

    /// A copy of the session, field for field.
    pub fn duplicate(&self) -> (copy: Session)
        ensures
            copy == *self,
    {
        Session {
            session_id: self.session_id.clone(),
            user_id: self.user_id.clone(),
            username: self.username.clone(),
            role: self.role,
            tenant_id: self.tenant_id.clone(),
            branch_id: self.branch_id.clone(),
            expires_at: self.expires_at,
        }
    }
}

/// Draws a version-4 identifier with `uuid::Uuid::new_v4` and writes it in the
/// hyphenated form, which has thirty-six characters. Which identifier comes
/// out is left open: it is random. The call does not return where the system
/// has no random bytes to give.
#[verifier::external_body]
pub(crate) fn fresh_token() -> (token: String)
    ensures
        token@.len() == 36,
{
    uuid::Uuid::new_v4().to_string()
}

/// The sessions of the running process, by token.
pub struct SessionStore {
    entries: Vec<Session>,
}

/// The place of the first entry that carries `token`.
spec fn first_with(entries: Seq<Session>, token: Seq<char>) -> Option<int>
    decreases entries.len(),
{
    if entries.len() == 0 {
        None
    } else {
        match first_with(entries.drop_last(), token) {
            Some(i) => Some(i),
            None => if entries.last().session_id@ == token {
                Some(entries.len() - 1)
            } else {
                None
            },
        }
    }
}

impl View for SessionStore {
    type V = Map<Seq<char>, SessionData>;

    closed spec fn view(&self) -> Map<Seq<char>, SessionData> {
        Map::new(
            |token: Seq<char>| first_with(self.entries@, token) is Some,
            |token: Seq<char>| self.entries@[first_with(self.entries@, token)->Some_0]@,
        )
    }
}

/// What `first_with` finds is the first entry that carries the token, and it
/// finds nothing only where no entry carries it.
proof fn lemma_first_with(entries: Seq<Session>, token: Seq<char>)
    ensures
        match first_with(entries, token) {
            Some(i) => {
                &&& 0 <= i < entries.len()
                &&& entries[i].session_id@ == token
                &&& forall|j: int| 0 <= j < i ==> (#[trigger] entries[j]).session_id@ != token
            },
            None => forall|j: int|
                0 <= j < entries.len() ==> (#[trigger] entries[j]).session_id@ != token,
        },
    decreases entries.len(),
{
    if entries.len() > 0 {
        lemma_first_with(entries.drop_last(), token);
        match first_with(entries.drop_last(), token) {
            Some(i) => {
                assert forall|j: int| 0 <= j < i implies (#[trigger] entries[j]).session_id@
                    != token by {
                    assert(entries.drop_last()[j] == entries[j]);
                }
            },
            None => {
                assert forall|j: int| 0 <= j < entries.len() - 1 implies (
                #[trigger] entries[j]).session_id@ != token by {
                    assert(entries.drop_last()[j] == entries[j]);
                }
            },
        }
    }
}

/// The first entry that carries the token is what `first_with` finds.
proof fn lemma_first_with_is(entries: Seq<Session>, token: Seq<char>, i: int)
    requires
        0 <= i < entries.len(),
        entries[i].session_id@ == token,
        forall|j: int| 0 <= j < i ==> (#[trigger] entries[j]).session_id@ != token,
    ensures
        first_with(entries, token) == Some(i),
{
    lemma_first_with(entries, token);
}

/// Whether the entries `now` hold, under every token but `token`, what the
/// entries `before` hold.
spec fn same_but(now: Seq<Session>, before: Seq<Session>, token: Seq<char>) -> bool {
    forall|t: Seq<char>|
        t != token ==> {
            &&& first_with(now, t) is Some <==> first_with(before, t) is Some
            &&& first_with(now, t) is Some ==> now[first_with(now, t)->Some_0]@
                == before[first_with(before, t)->Some_0]@
        }
}

/// Taking out an entry that carries `token` leaves what is held under every
/// other token.
proof fn lemma_remove_keeps_others(entries: Seq<Session>, i: int, token: Seq<char>)
    requires
        0 <= i < entries.len(),
        entries[i].session_id@ == token,
    ensures
        same_but(entries.remove(i), entries, token),
{
    let rest = entries.remove(i);
    assert forall|t: Seq<char>| t != token implies {
        &&& first_with(rest, t) is Some <==> first_with(entries, t) is Some
        &&& first_with(rest, t) is Some ==> rest[first_with(rest, t)->Some_0]@
            == entries[first_with(entries, t)->Some_0]@
    } by {
        lemma_first_with(rest, t);
        lemma_first_with(entries, t);
        match first_with(entries, t) {
            Some(j) => {
                let k = if j < i {
                    j
                } else {
                    j - 1
                };
                assert forall|m: int| 0 <= m < k implies (#[trigger] rest[m]).session_id@ != t by {}
                lemma_first_with_is(rest, t, k);
            },
            None => {},
        }
    }
}

impl SessionStore {
    /// A store without sessions.
    pub fn new() -> (store: SessionStore)
        ensures
            store@ == Map::<Seq<char>, SessionData>::empty(),
    {
        SessionStore { entries: Vec::new() }
    }

    /// The place of the first entry with this token, if there is one.
    fn position(&self, token: &str) -> (found: Option<usize>)
        ensures
            match found {
                Some(i) => i < self.entries@.len() && first_with(self.entries@, token@) == Some(
                    i as int,
                ),
                None => first_with(self.entries@, token@) is None,
            },
    {
        let wanted = token.to_owned();
        let mut i: usize = 0;
        while i < self.entries.len()
            invariant
                i <= self.entries@.len(),
                wanted@ == token@,
                forall|k: int| 0 <= k < i ==> (#[trigger] self.entries@[k]).session_id@ != token@,
            decreases self.entries@.len() - i,
        {
            if self.entries[i].session_id == wanted {
                proof {
                    lemma_first_with_is(self.entries@, token@, i as int);
                }
                return Some(i);
            }
            i += 1;
        }
        proof {
            lemma_first_with(self.entries@, token@);
        }
        None
    }

    /// Stores `identity` under `token`, valid from `now` for the fixed
    /// lifetime, unless the token is already in use: then the store is left
    /// as it was.
    pub fn create_with_token(&mut self, identity: Session, token: String, now: u64) -> (created:
        Result<Session, PosError>)
        ensures
            final(self)@ == apply_op(
                old(self)@,
                StoreOp::Create { identity: identity@, token: token@, now },
            ),
            old(self)@.contains_key(token@) ==> created == Err::<Session, PosError>(
                PosError::TokenCollision,
            ) && final(self)@ == old(self)@,
            !old(self)@.contains_key(token@) ==> created is Ok && created->Ok_0@ == created_session(
                identity@,
                token@,
                now,
            ) && final(self)@ == old(self)@.insert(token@, created->Ok_0@),
    {
        match self.position(token.as_str()) {
            Some(_) => Err(PosError::TokenCollision),
            None => {
                let lifetime = session_lifetime_secs();
                let expires_at = if now <= u64::MAX - lifetime {
                    now + lifetime
                } else {
                    u64::MAX
                };
                let stored = Session {
                    session_id: token,
                    user_id: identity.user_id,
                    username: identity.username,
                    role: identity.role,
                    tenant_id: identity.tenant_id,
                    branch_id: identity.branch_id,
                    expires_at,
                };
                let created = stored.duplicate();
                let ghost before = self.entries@;
                self.entries.push(stored);
                proof {
                    let after = self.entries@;
                    assert(after.drop_last() =~= before);
                    assert forall|t: Seq<char>| first_with(before, t) is Some implies after[first_with(
                        before,
                        t,
                    )->Some_0] == before[first_with(before, t)->Some_0] by {
                        lemma_first_with(before, t);
                    }
                }
                Ok(created)
            },
        }
    }

    /// Stores `identity` under a freshly drawn token, valid from `now` for the
    /// fixed lifetime, and returns the stored session. Should the token drawn
    /// be in use already, nothing is stored.
    pub fn create(&mut self, identity: Session, now: u64) -> (created: Result<Session, PosError>)
        ensures
            match created {
                Ok(session) => {
                    &&& !old(self)@.contains_key(session.session_id@)
                    &&& session.session_id@.len() == 36
                    &&& session@ == created_session(identity@, session.session_id@, now)
                    &&& final(self)@ == old(self)@.insert(session.session_id@, session@)
                },
                Err(e) => e == PosError::TokenCollision && final(self)@ == old(self)@,
            },
    {
        let token = fresh_token();
        self.create_with_token(identity, token, now)
    }

    /// The session under `token`, if it is present and `now` is before its
    /// expiry. An expired entry is reported as absent and stays in the store.
    pub fn get(&self, token: &str, now: u64) -> (found: Option<Session>)
        ensures
            match found {
                Some(session) => lookup(self@, token@, now) == Some(session@),
                None => lookup(self@, token@, now) is None,
            },
    {
        match self.position(token) {
            Some(i) => {
                if self.entries[i].is_valid(now) {
                    Some(self.entries[i].duplicate())
                } else {
                    None
                }
            },
            None => None,
        }
    }

    /// Removes the session under `token`, expired or not. Deleting a token
    /// that is absent changes nothing and is no error.
    pub fn delete(&mut self, token: &str)
        ensures
            final(self)@ == old(self)@.remove(token@),
            final(self)@ == apply_op(old(self)@, StoreOp::Delete { token: token@ }),
    {
        let ghost start = self.entries@;
        let mut found = self.position(token);
        while found.is_some()
            invariant
                same_but(self.entries@, start, token@),
                match found {
                    Some(i) => i < self.entries@.len() && first_with(self.entries@, token@) == Some(
                        i as int,
                    ),
                    None => first_with(self.entries@, token@) is None,
                },
            decreases self.entries@.len(),
        {
            let i = found.unwrap();
            let ghost before = self.entries@;
            proof {
                lemma_first_with(before, token@);
                lemma_remove_keeps_others(before, i as int, token@);
            }
            self.entries.remove(i);
            found = self.position(token);
        }
    }
}

/// One change to a session store.
pub enum StoreOp {
    /// A creation of `identity` at `now` under `token`.
    Create { identity: SessionData, token: Seq<char>, now: u64 },
    /// A deletion of `token`.
    Delete { token: Seq<char> },
}

/// The store after one change: a creation under a token in use changes
/// nothing, any other creation adds the session, a deletion removes the token.
pub open spec fn apply_op(sessions: Map<Seq<char>, SessionData>, op: StoreOp) -> Map<
    Seq<char>,
    SessionData,
> {
    match op {
        StoreOp::Create { identity, token, now } => if sessions.contains_key(token) {
            sessions
        } else {
            sessions.insert(token, created_session(identity, token, now))
        },
        StoreOp::Delete { token } => sessions.remove(token),
    }
}

/// The store after the changes `ops`, made in order.
pub open spec fn apply_ops(sessions: Map<Seq<char>, SessionData>, ops: Seq<StoreOp>) -> Map<
    Seq<char>,
    SessionData,
>
    decreases ops.len(),
{
    if ops.len() == 0 {
        sessions
    } else {
        apply_op(apply_ops(sessions, ops.drop_last()), ops.last())
    }
}

/// Whether none of `ops` deletes `token`.
pub open spec fn never_deletes(ops: Seq<StoreOp>, token: Seq<char>) -> bool {
    forall|i: int| 0 <= i < ops.len() ==> #[trigger] ops[i] != (StoreOp::Delete { token })
}

/// Whether none of `ops` creates a session under `token`.
pub open spec fn never_creates(ops: Seq<StoreOp>, token: Seq<char>) -> bool {
    forall|i: int| 0 <= i < ops.len() ==> !(#[trigger] ops[i] matches StoreOp::Create {
        token: t,
        ..
    } && t == token)
}

/// A session created at `t` is what every lookup before `t` plus the lifetime
/// returns, and no lookup from then on returns it, whatever is created or
/// deleted in between, as long as its own token is not deleted.
pub proof fn lemma_session_lives_exactly_its_lifetime(
    sessions: Map<Seq<char>, SessionData>,
    identity: SessionData,
    token: Seq<char>,
    t: u64,
    later: Seq<StoreOp>,
    q: u64,
)
    requires
        !sessions.contains_key(token),
        t + spec_session_lifetime_secs() <= u64::MAX,
        never_deletes(later, token),
    ensures
        ({
            let created = apply_op(sessions, StoreOp::Create { identity, token, now: t });
            let at_query = apply_ops(created, later);
            &&& q < t + spec_session_lifetime_secs() ==> lookup(at_query, token, q) == Some(
                created_session(identity, token, t),
            )
            &&& q >= t + spec_session_lifetime_secs() ==> lookup(at_query, token, q) is None
        }),
    decreases later.len(),
{
    if later.len() > 0 {
        let before = later.drop_last();
        lemma_session_lives_exactly_its_lifetime(sessions, identity, token, t, before, q);
        lemma_created_session_stays(sessions, identity, token, t, before);
    }
}

/// As long as its token is not deleted, a created session stays in the store
/// as it was created.
pub proof fn lemma_created_session_stays(
    sessions: Map<Seq<char>, SessionData>,
    identity: SessionData,
    token: Seq<char>,
    t: u64,
    later: Seq<StoreOp>,
)
    requires
        !sessions.contains_key(token),
        never_deletes(later, token),
    ensures
        ({
            let created = apply_op(sessions, StoreOp::Create { identity, token, now: t });
            let after = apply_ops(created, later);
            after.contains_key(token) && after[token] == created_session(identity, token, t)
        }),
    decreases later.len(),
{
    if later.len() > 0 {
        let before = later.drop_last();
        lemma_created_session_stays(sessions, identity, token, t, before);
    }
}

/// After a deletion of `token` no lookup of it returns a session, at whatever
/// time it is made and whether or not the session had expired, whatever is
/// created or deleted afterwards under other tokens.
pub proof fn lemma_deleted_session_stays_gone(
    sessions: Map<Seq<char>, SessionData>,
    token: Seq<char>,
    later: Seq<StoreOp>,
    q: u64,
)
    requires
        never_creates(later, token),
    ensures
        !apply_ops(apply_op(sessions, StoreOp::Delete { token }), later).contains_key(token),
        lookup(apply_ops(apply_op(sessions, StoreOp::Delete { token }), later), token, q) is None,
    decreases later.len(),
{
    if later.len() > 0 {
        let before = later.drop_last();
        lemma_deleted_session_stays_gone(sessions, token, before, q);
    }
}

/// What every command is handed: where the persistent store is, and the
/// sessions of this process.
pub struct AppState {
    pub mongo_uri: String,
    pub db_name: String,
    pub sessions: SessionStore,
}

impl AppState {
    /// The state of a process that has not yet seen a login.
    pub fn new(mongo_uri: String, db_name: String) -> (state: AppState)
        ensures
            state.mongo_uri == mongo_uri,
            state.db_name == db_name,
            state.sessions@ == Map::<Seq<char>, SessionData>::empty(),
    {
        AppState { mongo_uri, db_name, sessions: SessionStore::new() }
    }
}

} // verus!
