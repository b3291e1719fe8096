use mail_shard::api::{classify_endpoint, receive_email, EmailReceiveRequest};
use mail_shard::store::{process_incoming_email, Email, EmailStore, StoreError};

#[test]
fn incoming_email_gets_fresh_id() {
    let mut store = EmailStore::new();
    let a = process_incoming_email(&mut store, "a@x", "b@y", "Hi", "Body");
    let b = process_incoming_email(&mut store, "a@x", "b@y", "Hi", "Body");
    assert_eq!(a.len(), 36);
    assert_ne!(a, b);
    assert_eq!(store.len(), 2);
    let e = store.get_email(&a).ok().unwrap();
    assert_eq!((e.id.as_str(), e.from.as_str(), e.to.as_str()), (a.as_str(), "a@x", "b@y"));
    assert_eq!((e.subject.as_str(), e.body.as_str()), ("Hi", "Body"));
    assert!(e.category.is_none());
    assert!(!e.ai_processed);
    assert!(e.received_at > 1_600_000_000);
}

#[test]
fn missing_email_is_not_found() {
    let store = EmailStore::new();
    match store.get_email("nope") {
        Err(err) => {
            let StoreError::NotFound(id) = &err;
            assert_eq!(id, "nope");
            assert_eq!(err.message(), "이메일을 찾을 수 없음: nope");
        }
        Ok(_) => panic!("found a message in an empty store"),
    }
    assert!(store.get("nope").is_none());
}

#[test]
fn same_id_replaces_message() {
    let mut store = EmailStore::new();
    store.insert(Email::new("k".to_string(), "f1", "t", "s1", "b", 1));
    store.insert(Email::new("j".to_string(), "f2", "t", "s2", "b", 2));
    store.insert(Email::new("k".to_string(), "f3", "t", "s3", "b", 3));
    assert_eq!(store.len(), 2);
    assert_eq!(store.get("k").unwrap().subject, "s3");
    assert_eq!(store.get("j").unwrap().received_at, 2);
    let id = store.receive("n".to_string(), "f", "t", "s", "b", 9);
    assert_eq!(id, "n");
    assert_eq!(store.len(), 3);
}

#[test]
fn receive_request_is_stored() {
    let mut store = EmailStore::new();
    let req = EmailReceiveRequest {
        from: "a".to_string(),
        to: "b".to_string(),
        subject: "c".to_string(),
        body: "d".to_string(),
    };
    let resp = receive_email(&mut store, &req);
    assert!(resp.success);
    assert_eq!(resp.message, "이메일 수신 성공");
    let id = resp.email_id.unwrap();
    assert_eq!(store.get(&id).unwrap().body, "d");
}

#[test]
fn receive_replaces_in_place() {
    let mut store = EmailStore::new();
    store.receive("a".to_string(), "f1", "t1", "s1", "b1", 1);
    store.receive("b".to_string(), "f2", "t2", "s2", "b2", 2);
    let id = store.receive("a".to_string(), "f3", "t3", "s3", "b3", 3);
    assert_eq!(id, "a");
    assert_eq!(store.len(), 2);
    let e = store.get_email("a").ok().unwrap();
    assert_eq!((e.from.as_str(), e.to.as_str(), e.subject.as_str(), e.body.as_str()), ("f3", "t3", "s3", "b3"));
    assert_eq!(e.received_at, 3);
    assert_eq!(store.get("b").unwrap().subject, "s2");
}

#[test]
fn endpoint_of_base() {
    assert_eq!(classify_endpoint("http://127.0.0.1:7860"), "http://127.0.0.1:7860/api/email/classify");
}
