use fridge_door::create::{
    created_body, insert_sql, CreatedBody, INSERT_TEXT_EXPIRY_SQL, INSERT_TEXT_SQL,
};
use fridge_door::message::{Message, NewMessage};
use fridge_door::query::{select_listed, select_random, ListQuery};
use fridge_door::startup::{
    after_migrations, cors, static_dir, CorsPolicy, HttpMethod, Ignition, DEFAULT_STATIC_DIR,
};

fn row(id: i64, expires_at: Option<i64>) -> Message {
    Message { id, text: format!("row {id}"), created_at: 0, expires_at }
}

#[test]
fn insert_statement_follows_expiration() {
    let with = NewMessage { text: "a".to_string(), expires_at: Some(3) };
    let without = NewMessage { text: "a".to_string(), expires_at: None };
    assert_eq!(insert_sql(&with), "insert into messages (text, expires_at) values (?, ?)");
    assert_eq!(insert_sql(&without), "insert into messages (text) values (?)");
    assert_eq!(insert_sql(&with), INSERT_TEXT_EXPIRY_SQL);
    assert_eq!(insert_sql(&without), INSERT_TEXT_SQL);
}

#[test]
fn created_body_falls_back_to_payload() {
    let sent = NewMessage { text: "hi".to_string(), expires_at: None };
    match created_body(sent.clone(), Some(row(1, None))) {
        CreatedBody::Stored(m) => assert_eq!((m.id, m.text.as_str()), (1, "row 1")),
        CreatedBody::Echoed(_) => panic!("expected the stored message"),
    }
    match created_body(sent, None) {
        CreatedBody::Echoed(p) => assert_eq!((p.text.as_str(), p.expires_at), ("hi", None)),
        CreatedBody::Stored(_) => panic!("expected the echoed payload"),
    }
}

#[test]
fn select_listed_on_rows() {
    let rows = vec![row(1, None), row(2, Some(5)), row(3, Some(50)), row(4, None)];
    let q = ListQuery::from_params(Some(2), Some(1), None);
    let page = select_listed(&rows, &q, 10);
    assert_eq!(page.iter().map(|m| m.id).collect::<Vec<_>>(), vec![3, 4]);
    let q = ListQuery::from_params(Some(2), Some(1), Some(1));
    let page = select_listed(&rows, &q, 10);
    assert_eq!(page.iter().map(|m| m.id).collect::<Vec<_>>(), vec![2, 3]);
    assert!(select_listed(&Vec::new(), &q, 10).is_empty());
}

#[test]
fn select_random_on_rows() {
    let rows = vec![row(1, None), row(2, Some(5)), row(3, Some(50)), row(4, Some(60))];
    assert_eq!(select_random(&rows, 10, 0).unwrap().id, 3);
    assert_eq!(select_random(&rows, 10, 3).unwrap().id, 4);
    assert!(select_random(&rows, 60, 0).is_none());
}

#[test]
fn cors_route_text() {
    assert_eq!(cors(), "Hello CORS!");
}

#[test]
fn static_dir_default_and_configured() {
    assert_eq!(static_dir(None), "./static");
    assert_eq!(DEFAULT_STATIC_DIR, "./static");
    assert_eq!(static_dir(Some("/srv/www".to_string())), "/srv/www");
}

#[test]
fn permissive_cors_policy() {
    let p = CorsPolicy::permissive();
    assert!(p.any_origin);
    assert!(p.allow_credentials);
    assert_eq!(
        p.methods,
        vec![HttpMethod::Get, HttpMethod::Post, HttpMethod::Options, HttpMethod::Delete]
    );
}

#[test]
fn migration_failure_aborts_startup() {
    assert_eq!(after_migrations(true, true), Ignition::Proceed);
    assert_eq!(after_migrations(true, false), Ignition::Abort);
    assert_eq!(after_migrations(false, true), Ignition::Abort);
    assert_eq!(after_migrations(false, false), Ignition::Abort);
}
