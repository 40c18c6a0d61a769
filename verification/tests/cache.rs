use auth::host::repository::error::QueryError;
use auth::host::repository::users::cache::{
    LookupAction, LookupEvent, LookupState, UsersCachingRepository,
};
use auth::host::repository::users::User;

type Repo = UsersCachingRepository<(), ()>;

fn alice() -> User {
    User {
        id: "1".to_string(),
        username: "alice".to_string(),
        password_hash: "hash".to_string(),
    }
}

fn connected() -> LookupState {
    let (state, action) = Repo::lookup_start("alice".to_string());
    assert!(matches!(action, LookupAction::Connect));
    let (state, action) = Repo::lookup_step(state, LookupEvent::Connected(Ok(())));
    match action {
        LookupAction::ReadCache { key } => assert_eq!(key, "auth:alice"),
        _ => panic!("expected a cache read"),
    }
    state
}

#[test]
fn cache_key_prefixes_the_username() {
    assert_eq!(Repo::cache_key("alice"), "auth:alice");
    assert_eq!(Repo::cache_key(""), "auth:");
}

#[test]
fn cache_hit_answers_the_cached_user() {
    let bytes = alice().encode_to_vec();
    let (state, action) = Repo::lookup_step(connected(), LookupEvent::CacheRead(Ok(Some(bytes))));
    assert!(matches!(state, LookupState::Finished));
    match action {
        LookupAction::Reply(Ok(Some(u))) => {
            assert_eq!(u.id, "1");
            assert_eq!(u.username, "alice");
            assert_eq!(u.password_hash, "hash");
        }
        _ => panic!("expected the cached user"),
    }
}

#[test]
fn cache_miss_stores_the_user_found_and_answers_it() {
    let (state, action) = Repo::lookup_step(connected(), LookupEvent::CacheRead(Ok(None)));
    match action {
        LookupAction::QueryRepository { username } => assert_eq!(username, "alice"),
        _ => panic!("expected a repository query"),
    }
    let (state, action) =
        Repo::lookup_step(state, LookupEvent::RepositoryRead(Ok(Some(alice()))));
    let written = match action {
        LookupAction::WriteCache { key, bytes } => {
            assert_eq!(key, "auth:alice");
            bytes
        }
        _ => panic!("expected a cache write"),
    };
    assert_eq!(written, alice().encode_to_vec());
    let (state, action) = Repo::lookup_step(state, LookupEvent::CacheWritten(Ok(())));
    assert!(matches!(state, LookupState::Finished));
    match action {
        LookupAction::Reply(Ok(Some(u))) => assert_eq!(u.username, "alice"),
        _ => panic!("expected the user"),
    }
    // A later lookup that finds what was written answers the same user.
    let (_, action) = Repo::lookup_step(connected(), LookupEvent::CacheRead(Ok(Some(written))));
    match action {
        LookupAction::Reply(Ok(Some(u))) => {
            assert_eq!(u.id, "1");
            assert_eq!(u.password_hash, "hash");
        }
        _ => panic!("expected the user written before"),
    }
}

#[test]
fn unknown_user_is_not_cached() {
    let (state, _) = Repo::lookup_step(connected(), LookupEvent::CacheRead(Ok(None)));
    let (state, action) = Repo::lookup_step(state, LookupEvent::RepositoryRead(Ok(None)));
    assert!(matches!(state, LookupState::Finished));
    assert!(matches!(action, LookupAction::Reply(Ok(None))));
}

#[test]
fn failures_are_reported() {
    let (state, _) = Repo::lookup_start("bob".to_string());
    let (_, action) = Repo::lookup_step(state, LookupEvent::Connected(Err(())));
    assert!(matches!(action, LookupAction::Reply(Err(QueryError::Connection))));

    let (_, action) = Repo::lookup_step(connected(), LookupEvent::CacheRead(Err(())));
    assert!(matches!(action, LookupAction::Reply(Err(QueryError::Query))));

    let (_, action) =
        Repo::lookup_step(connected(), LookupEvent::CacheRead(Ok(Some(vec![0x0a, 0x09]))));
    assert!(matches!(action, LookupAction::Reply(Err(QueryError::Decode))));

    let (state, _) = Repo::lookup_step(connected(), LookupEvent::CacheRead(Ok(None)));
    let (_, action) =
        Repo::lookup_step(state, LookupEvent::RepositoryRead(Err(QueryError::Query)));
    assert!(matches!(action, LookupAction::Reply(Err(QueryError::Query))));

    let (state, _) = Repo::lookup_step(connected(), LookupEvent::CacheRead(Ok(None)));
    let (state, _) = Repo::lookup_step(state, LookupEvent::RepositoryRead(Ok(Some(alice()))));
    let (_, action) = Repo::lookup_step(state, LookupEvent::CacheWritten(Err(())));
    assert!(matches!(action, LookupAction::Reply(Err(QueryError::Query))));
}

#[test]
fn default_repository_uses_defaults() {
    let repo: UsersCachingRepository<u8, String> = Default::default();
    assert_eq!(repo.repository, 0);
    assert_eq!(repo.cache, "");
}
