//! A user repository with a read-through cache in front of it.
//!
//! Looking a user up by name first asks the cache under the key
//! `auth:<username>`; on a miss it asks the repository and, when the user
//! exists, stores the user's encoding under that key before answering.
//! The cache and the repository are reached by the caller: the lookup here
//! is a state machine that says, for each answer, what to do next.

use super::{decoded_user, encodes_user, user_bytes, User, UserView};
use crate::host::repository::error::QueryError;
use vstd::prelude::*;
use vstd::string::*;

verus! {

/// A repository of type `T` behind a cache reached through `C`.
pub struct UsersCachingRepository<T, C> {
    pub repository: T,
    pub cache: C,
}

/// A repository and a cache, each made with its own default.
impl<T: Default, C: Default> Default for UsersCachingRepository<T, C> {
    fn default() -> (r: Self)
        ensures
            call_ensures(T::default, (), r.repository),
            call_ensures(C::default, (), r.cache),
    {
        UsersCachingRepository { repository: T::default(), cache: C::default() }
    }
}

/// The prefix of every cache key: `auth:`.
pub open spec fn cache_key_prefix() -> Seq<char> {
    seq!['a', 'u', 't', 'h', ':']
}

/// The cache key of a username.
pub open spec fn cache_key(username: Seq<char>) -> Seq<char> {
    cache_key_prefix() + username
}

/// Two usernames never share a cache key.
pub proof fn lemma_cache_key_injective(a: Seq<char>, b: Seq<char>)
    requires
        cache_key(a) == cache_key(b),
    ensures
        a == b,
{
    assert(a =~= cache_key(a).skip(5));
    assert(b =~= cache_key(b).skip(5));
}

/// Where a lookup stands.
pub enum LookupState {
    /// Waiting for a connection to the cache.
    Connecting { username: String, key: String },
    /// Waiting for the cache's answer for `key`.
    ReadingCache { username: String, key: String },
    /// Waiting for the repository's answer for `username`.
    QueryingRepository { username: String, key: String },
    /// Waiting for the cache to store `user`.
    WritingCache { user: User },
    /// The lookup has answered.
    Finished,
}

/// What the caller reports back.
pub enum LookupEvent {
    /// Whether a connection to the cache could be had.
    Connected(Result<(), ()>),
    /// The cache's answer: the stored bytes, if any.
    CacheRead(Result<Option<Vec<u8>>, ()>),
    /// The repository's answer.
    RepositoryRead(Result<Option<User>, QueryError>),
    /// Whether the cache stored the entry.
    CacheWritten(Result<(), ()>),
}

/// What the caller is to do next.
pub enum LookupAction {
    /// Get a connection to the cache.
    Connect,
    /// Read the entry under `key`.
    ReadCache { key: String },
    /// Look `username` up in the repository.
    QueryRepository { username: String },
    /// Store `bytes` under `key`.
    WriteCache { key: String, bytes: Vec<u8> },
    /// Answer the lookup.
    Reply(Result<Option<User>, QueryError>),
}

/// The event that each state waits for.
pub open spec fn awaits(state: LookupState, event: LookupEvent) -> bool {
    match state {
        LookupState::Connecting { .. } => event is Connected,
        LookupState::ReadingCache { .. } => event is CacheRead,
        LookupState::QueryingRepository { .. } => event is RepositoryRead,
        LookupState::WritingCache { .. } => event is CacheWritten,
        LookupState::Finished => false,
    }
}

/// The lookup's answer is `Ok(Some(u))` with `u` the user `t`.
pub open spec fn replies_user(action: LookupAction, t: UserView) -> bool {
    action matches LookupAction::Reply(Ok(Some(u))) && u@ == t
}

/// One step of the lookup: from `state`, on `event`, to `next` doing `action`.
/// A cache entry is answered with the user that it decodes to; in
/// particular an entry that holds the encoding of a user is answered with
/// that user.
pub open spec fn lookup_transition(
    state: LookupState,
    event: LookupEvent,
    next: LookupState,
    action: LookupAction,
) -> bool {
    match (state, event) {
        (LookupState::Connecting { username, key }, LookupEvent::Connected(r)) => match r {
            Ok(_) => next == LookupState::ReadingCache { username, key } && action
                == LookupAction::ReadCache { key },
            Err(_) => next is Finished && action == LookupAction::Reply(Err(QueryError::Connection)),
        },
        (LookupState::ReadingCache { username, key }, LookupEvent::CacheRead(r)) => match r {
            Err(_) => next is Finished && action == LookupAction::Reply(Err(QueryError::Query)),
            Ok(None) => next == LookupState::QueryingRepository { username, key } && action
                == LookupAction::QueryRepository { username },
            Ok(Some(bytes)) => next is Finished && (match decoded_user(bytes@) {
                Some(t) => replies_user(action, t),
                None => action == LookupAction::Reply(Err(QueryError::Decode)),
            }) && forall|t: UserView| #[trigger] encodes_user(t, bytes@) ==> replies_user(action, t),
        },
        (LookupState::QueryingRepository { username, key }, LookupEvent::RepositoryRead(r)) => match r {
            Err(e) => next is Finished && action == LookupAction::Reply(Err(e)),
            Ok(None) => next is Finished && action == LookupAction::Reply(Ok(None)),
            Ok(Some(user)) => next == LookupState::WritingCache { user } && (
            action matches LookupAction::WriteCache { key: k, bytes } && k == key && bytes@
                == user_bytes(user@)),
        },
        (LookupState::WritingCache { user }, LookupEvent::CacheWritten(r)) => next is Finished
            && match r {
            Ok(_) => action == LookupAction::Reply(Ok(Some(user))),
            Err(_) => action == LookupAction::Reply(Err(QueryError::Query)),
        },
        _ => false,
    }
}

impl<T, C> UsersCachingRepository<T, C> {
    /// The cache key of a username: `auth:` followed by the username.
    pub fn cache_key(username: &str) -> (key: String)
        ensures
            key@ == cache_key(username@),
    {
        let prefix = "auth:";
        proof {
            reveal_strlit("auth:");
        }
        let key = String::from_str(prefix).concat(username);
        proof {
            assert(prefix@ =~= cache_key_prefix());
        }
        key
    }

    /// Starts looking `username` up: the key is computed and a connection
    /// to the cache is asked for.
    pub fn lookup_start(username: String) -> (out: (LookupState, LookupAction))
        ensures
            out.0 matches LookupState::Connecting { username: u, key } && u == username && key@
                == cache_key(username@),
            out.1 == LookupAction::Connect,
    {
        let key = Self::cache_key(username.as_str());
        (LookupState::Connecting { username, key }, LookupAction::Connect)
    }

    /// Takes one step of a lookup.
    pub fn lookup_step(state: LookupState, event: LookupEvent) -> (out: (LookupState, LookupAction))
        requires
            awaits(state, event),
        ensures
            lookup_transition(state, event, out.0, out.1),
    {
        match state {
            LookupState::Connecting { username, key } => match event {
                LookupEvent::Connected(Ok(_)) => {
                    let read = LookupAction::ReadCache { key: key.clone() };
                    (LookupState::ReadingCache { username, key }, read)
                },
                _ => (LookupState::Finished, LookupAction::Reply(Err(QueryError::Connection))),
            },
            LookupState::ReadingCache { username, key } => match event {
                LookupEvent::CacheRead(Ok(Some(bytes))) => {
                    match User::decode(bytes.as_slice()) {
                        Ok(user) => (LookupState::Finished, LookupAction::Reply(Ok(Some(user)))),
                        Err(_) => (
                            LookupState::Finished,
                            LookupAction::Reply(Err(QueryError::Decode)),
                        ),
                    }
                },
                LookupEvent::CacheRead(Ok(None)) => {
                    let query = LookupAction::QueryRepository { username: username.clone() };
                    (LookupState::QueryingRepository { username, key }, query)
                },
                _ => (LookupState::Finished, LookupAction::Reply(Err(QueryError::Query))),
            },
            LookupState::QueryingRepository { username, key } => match event {
                LookupEvent::RepositoryRead(Ok(Some(user))) => {
                    let bytes = user.encode_to_vec();
                    (LookupState::WritingCache { user }, LookupAction::WriteCache { key, bytes })
                },
                LookupEvent::RepositoryRead(Ok(None)) => (
                    LookupState::Finished,
                    LookupAction::Reply(Ok(None)),
                ),
                LookupEvent::RepositoryRead(Err(e)) => (
                    LookupState::Finished,
                    LookupAction::Reply(Err(e)),
                ),
                _ => (LookupState::Finished, LookupAction::Reply(Err(QueryError::Query))),
            },
            LookupState::WritingCache { user } => match event {
                LookupEvent::CacheWritten(Ok(_)) => (
                    LookupState::Finished,
                    LookupAction::Reply(Ok(Some(user))),
                ),
                _ => (LookupState::Finished, LookupAction::Reply(Err(QueryError::Query))),
            },
            LookupState::Finished => (LookupState::Finished, LookupAction::Reply(Ok(None))),
        }
    }
}

/// What a lookup writes to the cache is read back as the same user: when a
/// miss finds `user` in the repository, the entry that it stores, once a
/// later lookup reads it from the cache, is answered with `user`.
pub proof fn law_cached_user_reads_back(
    username: String,
    key: String,
    user: User,
    s1: LookupState,
    a1: LookupAction,
    later: LookupState,
    read: Vec<u8>,
    s2: LookupState,
    a2: LookupAction,
)
    requires
        user@.encodable(),
        lookup_transition(
            (LookupState::QueryingRepository { username, key }),
            LookupEvent::RepositoryRead(Ok(Some(user))),
            s1,
            a1,
        ),
        a1 matches LookupAction::WriteCache { bytes, .. } && read@ == bytes@,
        later is ReadingCache,
        lookup_transition(later, LookupEvent::CacheRead(Ok(Some(read))), s2, a2),
    ensures
        replies_user(a2, user@),
        a2 matches LookupAction::Reply(Ok(Some(v))) && v@ == user@,
{
    assert(encodes_user(user@, read@));
}

/// On a cache miss the lookup asks the repository for the same username,
/// stores the encoding of the user that it finds under the same key, and,
/// once stored, answers with exactly that user.
pub proof fn law_cache_miss_answers_repository_user(
    username: String,
    key: String,
    user: User,
    s0: LookupState,
    a0: LookupAction,
    s1: LookupState,
    a1: LookupAction,
    s2: LookupState,
    a2: LookupAction,
)
    requires
        lookup_transition(
            (LookupState::ReadingCache { username, key }),
            LookupEvent::CacheRead(Ok(None)),
            s0,
            a0,
        ),
        lookup_transition(s0, LookupEvent::RepositoryRead(Ok(Some(user))), s1, a1),
        lookup_transition(s1, LookupEvent::CacheWritten(Ok(())), s2, a2),
    ensures
        a0 matches LookupAction::QueryRepository { username: u } && u == username,
        a1 matches LookupAction::WriteCache { key: k, bytes } && k == key && bytes@ == user_bytes(
            user@,
        ),
        a2 matches LookupAction::Reply(Ok(Some(v))) && v@ == user@,
        s2 is Finished,
{
}

/// A user that the repository does not know is answered `None` and not
/// cached; a failure of the repository is passed on as it is.
pub proof fn law_cache_miss_passes_on_repository_answer(
    username: String,
    key: String,
    e: QueryError,
    n1: LookupState,
    x1: LookupAction,
    n2: LookupState,
    x2: LookupAction,
)
    requires
        lookup_transition(
            (LookupState::QueryingRepository { username, key }),
            LookupEvent::RepositoryRead(Ok(None)),
            n1,
            x1,
        ),
        lookup_transition(
            (LookupState::QueryingRepository { username, key }),
            LookupEvent::RepositoryRead(Err(e)),
            n2,
            x2,
        ),
    ensures
        n1 is Finished,
        x1 matches LookupAction::Reply(Ok(None)),
        n2 is Finished,
        x2 matches LookupAction::Reply(Err(f)) && f == e,
{
}

} // verus!
