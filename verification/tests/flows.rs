use eutopic_api::auth::{AuthData, AuthUser};
use eutopic_api::endpoints::account::cancel_account_deletion::{self, CancelAccountDeletion};
use eutopic_api::endpoints::account::create_account::{self, Body, CreateAccount};
use eutopic_api::endpoints::account::flow::{Action, Event, Queue, Reply, StoredAccount, Timestamp};
use eutopic_api::endpoints::account::get_account::{self, GetAccount};
use eutopic_api::endpoints::account::request_account_deletion::{self, RequestAccountDeletion};
use eutopic_api::queue::QueueRoute;

fn auth(uid: &str) -> AuthData {
    AuthData {
        user: AuthUser {
            local_id: uid.to_string(),
            display_name: Some("Ada".to_string()),
            email: Some("ada@x.io".to_string()),
            photo_url: None,
        },
    }
}

fn account(uid: &str, pending: Option<Timestamp>) -> StoredAccount {
    StoredAccount {
        uid: uid.to_string(),
        created_at: Some(Timestamp { secs: 1, nanos: 0 }),
        dapp_share: "cipher".to_string(),
        pubkey: "PubKey0123456789".to_string(),
        name: None,
        email: None,
        photo_url: None,
        delete_request_at: pending,
        deleted_at: None,
    }
}

fn route() -> QueueRoute {
    QueueRoute { exchange_name: "ex".to_string(), routing_key: "rk".to_string() }
}

fn reply(a: Action) -> Reply {
    match a {
        Action::Respond(r) => r,
        _ => panic!("expected a reply"),
    }
}

// cancel

#[test]
fn cancel_clears_a_pending_request() {
    let (m, a) = cancel_account_deletion::exec(auth("u1"));
    assert!(matches!(a, Action::Connect));
    let (m, a) = m.step(Event::Connected(Ok(())));
    assert!(matches!(&a, Action::ReadAccount { uid } if uid == "u1"));
    let (m, a) = m.step(Event::AccountRead(Some(account("u1", Some(Timestamp { secs: 5, nanos: 6 })))));
    assert!(matches!(&a, Action::SetDeleteRequestAt { uid, at: None } if uid == "u1"));
    let (_, a) = m.step(Event::Written(Ok(())));
    assert!(matches!(reply(a), Reply::Success));
}

#[test]
fn cancel_without_pending_request_is_bad_request() {
    let (m, _) = cancel_account_deletion::exec(auth("u1"));
    let (m, _) = m.step(Event::Connected(Ok(())));
    let (_, a) = m.step(Event::AccountRead(Some(account("u1", None))));
    assert!(matches!(reply(a), Reply::BadRequest));
}

#[test]
fn cancel_for_unknown_account_is_not_found() {
    let (m, _) = cancel_account_deletion::exec(auth("u1"));
    let (m, _) = m.step(Event::Connected(Ok(())));
    let (_, a) = m.step(Event::AccountRead(None));
    assert!(matches!(reply(a), Reply::NotFound));
}

#[test]
fn cancel_failures_fail_the_request() {
    let (m, _) = cancel_account_deletion::exec(auth("u1"));
    let (_, a) = m.step(Event::Connected(Err("pool".to_string())));
    assert!(matches!(reply(a), Reply::Failed(e) if e == "pool"));
    let (m, _) = cancel_account_deletion::exec(auth("u1"));
    let (m, _) = m.step(Event::Connected(Ok(())));
    let (m, _) = m.step(Event::AccountRead(Some(account("u1", Some(Timestamp { secs: 0, nanos: 0 })))));
    let (_, a) = m.step(Event::Written(Err("write".to_string())));
    assert!(matches!(reply(a), Reply::Failed(e) if e == "write"));
}

// request

fn request_until_marked(pending: Option<Timestamp>, now: Timestamp) -> (RequestAccountDeletion, Action) {
    let (m, _) = request_account_deletion::exec(auth("u2"), route());
    let (m, _) = m.step(Event::Connected(Ok(())), None);
    let event = Event::AccountRead(Some(account("u2", pending)));
    assert_eq!(m.needs_time(&event), pending.is_none());
    m.step(event, Some(now))
}

#[test]
fn request_records_now_then_announces() {
    let now = Timestamp { secs: 1_700_000_000, nanos: 42 };
    let (m, a) = request_until_marked(None, now);
    match &a {
        Action::SetDeleteRequestAt { uid, at: Some(t) } => {
            assert_eq!(uid, "u2");
            assert_eq!((t.secs, t.nanos), (1_700_000_000, 42));
        }
        _ => panic!("expected the request to be recorded"),
    }
    let (m, a) = m.step(Event::Written(Ok(())), None);
    match a {
        Action::Publish { queue, publication: p } => {
            assert!(matches!(queue, Queue::DeleteAccountRequest));
            assert_eq!(p.exchange_name, "ex");
            assert_eq!(p.routing_key, "rk");
            assert_eq!(p.payload, vec![2, 0, 0, 0, b'u', b'2']);
        }
        _ => panic!("expected a publication"),
    }
    let (_, a) = m.step(Event::Published(Ok(())), None);
    assert!(matches!(reply(a), Reply::Success));
}

#[test]
fn repeated_request_is_bad_request() {
    let (_, a) = request_until_marked(Some(Timestamp { secs: 3, nanos: 0 }), Timestamp { secs: 9, nanos: 0 });
    assert!(matches!(reply(a), Reply::BadRequest));
}

#[test]
fn request_for_unknown_account_is_not_found() {
    let now = Timestamp { secs: 9, nanos: 0 };
    let (m, _) = request_account_deletion::exec(auth("u2"), route());
    let (m, _) = m.step(Event::Connected(Ok(())), Some(now));
    assert!(!m.needs_time(&Event::AccountRead(None)));
    let (_, a) = m.step(Event::AccountRead(None), None);
    assert!(matches!(reply(a), Reply::NotFound));
}

#[test]
fn request_failures_fail_the_request() {
    let now = Timestamp { secs: 9, nanos: 0 };
    let (m, _) = request_until_marked(None, now);
    let (_, a) = m.step(Event::Written(Err("db".to_string())), None);
    assert!(matches!(reply(a), Reply::Failed(e) if e == "db"));
    let (m, _) = request_until_marked(None, now);
    let (m, _) = m.step(Event::Written(Ok(())), None);
    let (_, a) = m.step(Event::Published(Err("mq".to_string())), None);
    assert!(matches!(reply(a), Reply::Failed(e) if e == "mq"));
}

#[test]
fn cancel_undoes_request() {
    let now = Timestamp { secs: 77, nanos: 1 };
    let (_, a) = request_until_marked(None, now);
    let pending = match a {
        Action::SetDeleteRequestAt { at, .. } => at,
        _ => panic!("expected the request to be recorded"),
    };
    assert!(pending.is_some());
    let (m, _) = cancel_account_deletion::exec(auth("u2"));
    let (m, _) = m.step(Event::Connected(Ok(())));
    let (_, a) = m.step(Event::AccountRead(Some(account("u2", pending))));
    assert!(matches!(a, Action::SetDeleteRequestAt { at: None, .. }));
}

// create

fn body() -> Body {
    Body { dapp_share: "share".to_string(), pubkey: "PubKey0123456789".to_string() }
}

const KEY: &[u8] = b"0123456789abcdef0123456789abcdefEXTRA";

fn create_until_read(found: Option<StoredAccount>) -> (CreateAccount, Action) {
    let (m, _) = create_account::exec(auth("u3"), body(), KEY.to_vec(), route());
    let (m, a) = m.step(Event::Connected(Ok(())));
    assert!(matches!(&a, Action::ReadAccount { uid } if uid == "u3"));
    m.step(Event::AccountRead(found))
}

#[test]
fn create_returns_existing_account_unchanged() {
    let (_, a) = create_until_read(Some(account("u3", None)));
    match reply(a) {
        Reply::SuccessAccount(acc) => {
            assert_eq!(acc.uid, "u3");
            assert_eq!(acc.dapp_share, "cipher");
        }
        _ => panic!("expected the account"),
    }
}

#[test]
fn create_encrypts_stores_and_announces() {
    let (m, a) = create_until_read(None);
    match &a {
        Action::Encrypt { key, nonce, plaintext } => {
            assert_eq!(key.as_slice(), &KEY[..32]);
            assert_eq!(nonce.as_slice(), &b"PubKey012345"[..]);
            assert_eq!(plaintext.as_slice(), b"share");
        }
        _ => panic!("expected encryption"),
    }
    let (m, a) = m.step(Event::Encrypted(Ok("ENC".to_string())));
    match &a {
        Action::UpsertAccount(acc) => {
            assert_eq!(acc.uid, "u3");
            assert!(acc.created_at.is_none());
            assert_eq!(acc.dapp_share, "ENC");
            assert_eq!(acc.pubkey, "PubKey0123456789");
            assert_eq!(acc.name.as_deref(), Some("Ada"));
            assert_eq!(acc.email.as_deref(), Some("ada@x.io"));
            assert!(acc.photo_url.is_none());
            assert!(acc.delete_request_at.is_none());
            assert!(acc.deleted_at.is_none());
        }
        _ => panic!("expected an upsert"),
    }
    let (m, a) = m.step(Event::Written(Ok(())));
    match &a {
        Action::Publish { queue, publication: p } => {
            assert!(matches!(queue, Queue::NewUser));
            let mut expected = vec![16, 0, 0, 0];
            expected.extend_from_slice(b"PubKey0123456789");
            assert_eq!(p.payload, expected);
            assert_eq!(p.exchange_name, "ex");
        }
        _ => panic!("expected a publication"),
    }
    let (_, a) = m.step(Event::Published(Ok(())));
    assert!(matches!(reply(a), Reply::Created));
}

#[test]
fn create_failures_fail_the_request() {
    let (m, _) = create_until_read(None);
    let (_, a) = m.step(Event::Encrypted(Err("aes".to_string())));
    assert!(matches!(reply(a), Reply::Failed(e) if e == "aes"));
    let (m, _) = create_until_read(None);
    let (m, _) = m.step(Event::Encrypted(Ok("x".to_string())));
    let (_, a) = m.step(Event::Written(Err("db".to_string())));
    assert!(matches!(reply(a), Reply::Failed(e) if e == "db"));
}

// get

fn get_until_read(found: Option<StoredAccount>) -> (GetAccount, Action) {
    let (m, _) = get_account::exec(auth("u4"), b"KEY".to_vec());
    let (m, _) = m.step(Event::Connected(Ok(())));
    m.step(Event::AccountRead(found))
}

#[test]
fn get_decrypts_the_share() {
    let (m, a) = get_until_read(Some(account("u4", None)));
    match &a {
        Action::Decrypt { key, nonce, ciphertext } => {
            assert_eq!(key.as_slice(), b"KEY");
            assert_eq!(nonce.as_slice(), b"PubKey0123456789");
            assert_eq!(ciphertext.as_slice(), b"cipher");
        }
        _ => panic!("expected decryption"),
    }
    let (_, a) = m.step(Event::Decrypted(Ok("plain".to_string())));
    match reply(a) {
        Reply::SuccessAccount(acc) => {
            assert_eq!(acc.dapp_share, "plain");
            assert_eq!(acc.uid, "u4");
            assert_eq!(acc.pubkey, "PubKey0123456789");
        }
        _ => panic!("expected the account"),
    }
}

#[test]
fn get_unknown_or_undecryptable() {
    let (_, a) = get_until_read(None);
    assert!(matches!(reply(a), Reply::NotFound));
    let (m, _) = get_until_read(Some(account("u4", None)));
    let (_, a) = m.step(Event::Decrypted(Err("tag".to_string())));
    assert!(matches!(reply(a), Reply::Failed(e) if e == "tag"));
}
