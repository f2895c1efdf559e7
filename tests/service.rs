use serde_json::Value;
use todo_service::db::{DBAccessor, MemoryStore, StorePort, Todo};
use todo_service::error::{handle_rejection, Error};
use todo_service::handler::{
    create_todo, create_with_fact, created_reply, health_handler, list_reply, list_todos_handler,
    Body, Reply, TodoResponse,
};
use todo_service::http::{
    fact_from_response, fact_url, is_success, CatFact, HttpClient, LookupPort, DEFAULT_FACT_URI,
};
use todo_service::router::{route, same_text, Method};

/// A fact lookup that always answers with the same text.
struct MockHttpClient {
    fact: String,
}

impl HttpClient for MockHttpClient {
    fn get_cat_fact(&self) -> Result<String, Error> {
        Ok(self.fact.clone())
    }
}

/// A fact lookup whose upstream is down.
struct FailingHttpClient {}

impl HttpClient for FailingHttpClient {
    fn get_cat_fact(&self) -> Result<String, Error> {
        Err(Error::UpstreamError)
    }
}

/// A store that always lists one checked item and hands out id 2.
struct MockDBAccessor {}

impl DBAccessor for MockDBAccessor {
    fn init_db(&self) -> Result<(), Error> {
        Ok(())
    }

    fn fetch_todos(&self) -> Result<Vec<Todo>, Error> {
        Ok(vec![Todo { id: 1, name: String::from("first todo"), checked: true }])
    }

    fn create_todo(&mut self, name: String) -> Result<Todo, Error> {
        Ok(Todo { id: 2, name, checked: false })
    }
}

/// A store whose connections are all taken.
struct FailingDBAccessor {}

impl DBAccessor for FailingDBAccessor {
    fn init_db(&self) -> Result<(), Error> {
        Err(Error::PoolError)
    }

    fn fetch_todos(&self) -> Result<Vec<Todo>, Error> {
        Err(Error::PoolError)
    }

    fn create_todo(&mut self, _name: String) -> Result<Todo, Error> {
        Err(Error::QueryError)
    }
}

/// A fact lookup that answers with the next of its facts on each call.
struct SequenceHttpClient {
    facts: std::cell::RefCell<Vec<String>>,
}

impl HttpClient for SequenceHttpClient {
    fn get_cat_fact(&self) -> Result<String, Error> {
        Ok(self.facts.borrow_mut().remove(0))
    }
}

/// A store that fails its first creation and remembers every name it was asked for.
struct FlakyDBAccessor {
    asked: Vec<String>,
}

impl DBAccessor for FlakyDBAccessor {
    fn init_db(&self) -> Result<(), Error> {
        Ok(())
    }

    fn fetch_todos(&self) -> Result<Vec<Todo>, Error> {
        Ok(Vec::new())
    }

    fn create_todo(&mut self, name: String) -> Result<Todo, Error> {
        self.asked.push(name.clone());
        if self.asked.len() == 1 {
            Err(Error::QueryError)
        } else {
            Ok(Todo { id: 1, name, checked: false })
        }
    }
}

fn cat_fact() -> LookupPort<MockHttpClient> {
    LookupPort::new(MockHttpClient { fact: String::from("cat fact") })
}

fn wiremock_fact() -> LookupPort<MockHttpClient> {
    LookupPort::new(MockHttpClient { fact: String::from("wiremock cat fact") })
}

fn item_json(t: &TodoResponse) -> Value {
    let mut m = serde_json::Map::new();
    m.insert(String::from("id"), Value::from(t.id));
    m.insert(String::from("name"), Value::from(t.name.clone()));
    m.insert(String::from("checked"), Value::from(t.checked));
    Value::Object(m)
}

/// The JSON value that a reply's body stands for.
fn body_json(r: &Reply) -> Value {
    match &r.body {
        Body::Item(t) => item_json(t),
        Body::Items(v) => Value::Array(v.iter().map(item_json).collect()),
        Body::Text(s) => Value::from(s.clone()),
        Body::ServerError => Value::from("server error"),
        Body::NotFound => Value::Null,
    }
}

fn parse(s: &str) -> Value {
    serde_json::from_str(s).unwrap()
}

fn body_text(r: &Reply) -> String {
    match &r.body {
        Body::Text(s) => s.clone(),
        _ => String::new(),
    }
}

fn store_names(store: &StorePort<MemoryStore>) -> Vec<(i32, String, bool)> {
    store
        .store()
        .list()
        .into_iter()
        .map(|t| (t.id, t.name, t.checked))
        .collect()
}

#[test]
fn test_health_mock() {
    let mut db = StorePort::new(MockDBAccessor {});
    let resp = route(Method::Get, "/health", &mut cat_fact(), &mut db);
    assert_eq!(resp.status, 200);
    assert_eq!(body_text(&resp), "OK");
}

#[test]
fn test_list_todos_mock() {
    let mut db = StorePort::new(MockDBAccessor {});
    let resp = route(Method::Get, "/todo", &mut cat_fact(), &mut db);
    assert_eq!(resp.status, 200);
    assert_eq!(
        body_json(&resp),
        parse(r#"[{"id":1,"name":"first todo","checked":true}]"#)
    );
}

#[test]
fn test_create_todo_mock() {
    let mut db = StorePort::new(MockDBAccessor {});
    let resp = route(Method::Post, "/todo", &mut cat_fact(), &mut db);
    assert_eq!(resp.status, 200);
    assert_eq!(
        body_json(&resp),
        parse(r#"{"id":2,"name":"cat fact","checked":false}"#)
    );
}

#[test]
fn test_create_and_list_todo_hybrid() {
    let mut db = StorePort::new(MockDBAccessor {});
    let resp = route(Method::Post, "/todo", &mut wiremock_fact(), &mut db);
    assert_eq!(resp.status, 200);
    assert_eq!(
        body_json(&resp),
        parse(r#"{"id":2,"name":"wiremock cat fact","checked":false}"#)
    );

    let resp = route(Method::Get, "/todo", &mut wiremock_fact(), &mut db);
    assert_eq!(resp.status, 200);
    assert_eq!(
        body_json(&resp),
        parse(r#"[{"id":1,"name":"first todo","checked":true}]"#)
    );
}

#[test]
fn test_create_and_list_full() {
    let mut db = StorePort::new(MemoryStore::new());
    let resp = route(Method::Post, "/todo", &mut wiremock_fact(), &mut db);
    assert_eq!(resp.status, 200);
    assert_eq!(
        body_json(&resp),
        parse(r#"{"id":1,"name":"wiremock cat fact","checked":false}"#)
    );

    let resp = route(Method::Get, "/todo", &mut wiremock_fact(), &mut db);
    assert_eq!(resp.status, 200);
    assert_eq!(
        body_json(&resp),
        parse(r#"[{"id":1,"name":"wiremock cat fact","checked":false}]"#)
    );
}

#[test]
fn test_create_and_list_e2e() {
    let mut db = StorePort::new(MemoryStore::new());
    assert!(db.store().init_db().is_ok());
    let resp = route(Method::Post, "/todo", &mut wiremock_fact(), &mut db);
    assert_eq!(resp.status, 200);
    assert_eq!(
        body_json(&resp),
        parse(r#"{"id":1,"name":"wiremock cat fact","checked":false}"#)
    );

    let resp = route(Method::Get, "/todo", &mut wiremock_fact(), &mut db);
    assert_eq!(resp.status, 200);
    assert_eq!(
        body_json(&resp),
        parse(r#"[{"id":1,"name":"wiremock cat fact","checked":false}]"#)
    );
}

#[test]
fn test_list_e2e() {
    let mut db = StorePort::new(MemoryStore::new());
    let resp = route(Method::Get, "/todo", &mut cat_fact(), &mut db);
    assert_eq!(resp.status, 200);
    assert_eq!(body_json(&resp), parse("[]"));
}

#[test]
fn list_of_seeded_store() {
    let mut db = StorePort::new(MemoryStore::with_items(vec![Todo {
        id: 1,
        name: String::from("first todo"),
        checked: true,
    }]));
    let resp = list_todos_handler(&mut db);
    assert_eq!(resp.status, 200);
    assert_eq!(
        body_json(&resp),
        parse(r#"[{"id":1,"name":"first todo","checked":true}]"#)
    );
}

#[test]
fn creates_are_listed_in_order() {
    let mut db = StorePort::new(MemoryStore::new());
    let facts = ["a", "b", "c"];
    for f in facts.iter() {
        let mut client = LookupPort::new(MockHttpClient { fact: f.to_string() });
        let resp = create_todo(&mut client, &mut db);
        assert_eq!(resp.status, 200);
    }
    assert_eq!(
        store_names(&db),
        vec![
            (1, String::from("a"), false),
            (2, String::from("b"), false),
            (3, String::from("c"), false)
        ]
    );
}

#[test]
fn seeded_store_continues_ids() {
    let mut db = StorePort::new(MemoryStore::with_items(vec![
        Todo { id: 3, name: String::from("x"), checked: true },
        Todo { id: 7, name: String::from("y"), checked: false },
    ]));
    let resp = route(Method::Post, "/todo", &mut cat_fact(), &mut db);
    assert_eq!(
        body_json(&resp),
        parse(r#"{"id":8,"name":"cat fact","checked":false}"#)
    );
}

#[test]
fn ids_exhausted_is_a_query_error() {
    let mut db = StorePort::new(MemoryStore::with_items(vec![Todo {
        id: i32::MAX,
        name: String::from("last"),
        checked: false,
    }]));
    assert!(matches!(
        db.create_todo(String::from("more")),
        Err(Error::QueryError)
    ));
    let resp = create_todo(&mut cat_fact(), &mut db);
    assert_eq!(resp.status, 500);
    assert!(matches!(resp.body, Body::ServerError));
    assert_eq!(store_names(&db).len(), 1);
}

#[test]
fn failed_lookup_writes_nothing() {
    let mut db = StorePort::new(MemoryStore::new());
    let resp = route(Method::Post, "/todo", &mut LookupPort::new(FailingHttpClient {}), &mut db);
    assert_eq!(resp.status, 500);
    assert!(matches!(resp.body, Body::ServerError));
    assert!(store_names(&db).is_empty());
}

#[test]
fn failed_store_drops_the_fact() {
    let mut db = StorePort::new(FailingDBAccessor {});
    let resp = create_with_fact(Ok(String::from("cat fact")), &mut db);
    assert_eq!(resp.status, 500);
    assert!(matches!(resp.body, Body::ServerError));

    let mut store = StorePort::new(MemoryStore::new());
    let resp = create_with_fact(Ok(String::from("fresh fact")), &mut store);
    assert_eq!(
        body_json(&resp),
        parse(r#"{"id":1,"name":"fresh fact","checked":false}"#)
    );
}

#[test]
fn health_ignores_failing_ports() {
    let mut db = StorePort::new(FailingDBAccessor {});
    assert_eq!(db.store().init_db(), Err(Error::PoolError));
    let resp = route(Method::Get, "/health", &mut LookupPort::new(FailingHttpClient {}), &mut db);
    assert_eq!(resp.status, 200);
    assert_eq!(body_text(&resp), "OK");
    let resp = health_handler();
    assert_eq!(body_text(&resp), "OK");
}

#[test]
fn failed_list_is_server_error() {
    let resp = list_todos_handler(&mut StorePort::new(FailingDBAccessor {}));
    assert_eq!(resp.status, 500);
    assert!(matches!(resp.body, Body::ServerError));
    let resp = list_reply(Err(Error::QueryError));
    assert_eq!(resp.status, 500);
}

#[test]
fn round_trip_shows_created_item() {
    let mut db = StorePort::new(MemoryStore::with_items(vec![Todo {
        id: 1,
        name: String::from("first todo"),
        checked: true,
    }]));
    let created = route(Method::Post, "/todo", &mut cat_fact(), &mut db);
    let listed = route(Method::Get, "/todo", &mut cat_fact(), &mut db);
    let item = body_json(&created);
    match body_json(&listed) {
        Value::Array(items) => assert!(items.contains(&item)),
        _ => panic!("listing is not an array"),
    }
}

#[test]
fn unknown_routes_are_not_found() {
    let mut db = StorePort::new(MemoryStore::new());
    for (m, p) in [
        (Method::Get, "/"),
        (Method::Post, "/health"),
        (Method::Other, "/todo"),
        (Method::Get, "/todos"),
    ]
    .iter()
    {
        let resp = route(*m, p, &mut cat_fact(), &mut db);
        assert_eq!(resp.status, 404);
        assert!(matches!(resp.body, Body::NotFound));
    }
    assert!(store_names(&db).is_empty());
}

#[test]
fn every_failure_becomes_a_generic_server_error() {
    for e in [
        Error::ConfigError,
        Error::PoolError,
        Error::QueryError,
        Error::InitError,
        Error::UpstreamError,
        Error::DecodeError,
    ]
    .iter()
    {
        let resp = handle_rejection(*e);
        assert_eq!(resp.status, 500);
        assert!(matches!(resp.body, Body::ServerError));
    }
    assert!(Error::ConfigError.is_fatal());
    assert!(Error::InitError.is_fatal());
    assert!(!Error::PoolError.is_fatal());
    assert!(!Error::DecodeError.is_fatal());
}

#[test]
fn created_reply_projects_item() {
    let resp = created_reply(Ok(Todo { id: 5, name: String::from("n"), checked: false }));
    assert_eq!(
        body_json(&resp),
        parse(r#"{"id":5,"name":"n","checked":false}"#)
    );
    let resp = created_reply(Err(Error::PoolError));
    assert_eq!(resp.status, 500);
}

#[test]
fn todo_response_of_keeps_fields() {
    let r = TodoResponse::of(Todo { id: 4, name: String::from("z"), checked: true });
    assert_eq!((r.id, r.name.as_str(), r.checked), (4, "z", true));
}

#[test]
fn lookup_outcomes() {
    let fact = || Some(CatFact { text: String::from("cats sleep") });
    assert_eq!(fact_from_response(Some(200), fact()), Ok(String::from("cats sleep")));
    assert_eq!(fact_from_response(Some(299), fact()), Ok(String::from("cats sleep")));
    assert_eq!(fact_from_response(Some(404), fact()), Err(Error::UpstreamError));
    assert_eq!(fact_from_response(Some(199), fact()), Err(Error::UpstreamError));
    assert_eq!(fact_from_response(Some(300), fact()), Err(Error::UpstreamError));
    assert_eq!(fact_from_response(None, fact()), Err(Error::UpstreamError));
    assert_eq!(fact_from_response(Some(200), None), Err(Error::DecodeError));
    assert!(is_success(204));
    assert!(!is_success(500));
}

#[test]
fn lookup_address() {
    assert_eq!(
        fact_url(DEFAULT_FACT_URI),
        "https://cat-fact.herokuapp.com/facts/random"
    );
    assert_eq!(fact_url("http://127.0.0.1:9000"), "http://127.0.0.1:9000/facts/random");
}

#[test]
fn text_comparison() {
    assert!(same_text("/todo", "/todo"));
    assert!(!same_text("/todo", "/tod"));
    assert!(!same_text("/todo", "/toda"));
    assert!(same_text("", ""));
}

#[test]
fn retry_after_store_failure_uses_fresh_fact() {
    let mut client = LookupPort::new(SequenceHttpClient {
        facts: std::cell::RefCell::new(vec![String::from("f1"), String::from("f2")]),
    });
    let mut db = StorePort::new(FlakyDBAccessor { asked: Vec::new() });
    let first = create_todo(&mut client, &mut db);
    assert_eq!(first.status, 500);
    assert!(matches!(first.body, Body::ServerError));
    let second = create_todo(&mut client, &mut db);
    assert_eq!(
        body_json(&second),
        parse(r#"{"id":1,"name":"f2","checked":false}"#)
    );
    assert_eq!(
        db.into_inner().asked,
        vec![String::from("f1"), String::from("f2")]
    );
    assert!(client.client().facts.borrow().is_empty());
}
