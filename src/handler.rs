use vstd::prelude::*;

use crate::db::{ids_ascending, todos_view, DBAccessor, StorePort, Todo, TodoView};
use crate::error::{handle_rejection, Error};
use crate::http::{text_result, HttpClient, LookupPort};

verus! {

/// An item as a reply shows it.
pub struct TodoResponse {
    pub id: i32,
    pub name: String,
    pub checked: bool,
}

impl View for TodoResponse {
    type V = TodoView;

    open spec fn view(&self) -> TodoView {
        TodoView { id: self.id as int, name: self.name@, checked: self.checked }
    }
}

impl TodoResponse {
    /// The reply's projection of a stored item.
    pub fn of(todo: Todo) -> (r: TodoResponse)
        ensures
            r@ == todo@,
    {
        TodoResponse { id: todo.id, name: todo.name, checked: todo.checked }
    }
}

/// The values of a sequence of reply items.
pub open spec fn responses_view(s: Seq<TodoResponse>) -> Seq<TodoView> {
    s.map_values(|t: TodoResponse| t@)
}

/// What a reply carries; the transport renders the items as JSON.
pub enum Body {
    /// Plain text.
    Text(String),
    /// One item, as a JSON object.
    Item(TodoResponse),
    /// Items, as a JSON array in the order given.
    Items(Vec<TodoResponse>),
    /// The generic JSON error body of a server error.
    ServerError,
    /// No route matched.
    NotFound,
}

/// A status code and a body.
pub struct Reply {
    pub status: u16,
    pub body: Body,
}

/// The status of a successful reply.
pub const STATUS_OK: u16 = 200;

/// The status of a reply to a request that no route matched.
pub const STATUS_NOT_FOUND: u16 = 404;

/// The status of a reply to a request that failed on the server's side.
pub const STATUS_SERVER_ERROR: u16 = 500;

/// The body of the liveness reply.
pub const HEALTH_TEXT: &'static str = "OK";

/// `r` is the generic server error.
pub open spec fn is_server_error(r: Reply) -> bool {
    r.status == STATUS_SERVER_ERROR && r.body is ServerError
}

/// `r` is a success that lists exactly the items `s`, in that order.
pub open spec fn is_items_reply(r: Reply, s: Seq<TodoView>) -> bool {
    &&& r.status == STATUS_OK
    &&& r.body is Items
    &&& r.body->Items_0@.len() == s.len()
    &&& responses_view(r.body->Items_0@) == s
}

/// `r` is a success that shows the single item `t`.
pub open spec fn is_item_reply(r: Reply, t: TodoView) -> bool {
    &&& r.status == STATUS_OK
    &&& r.body is Item
    &&& r.body->Item_0@ == t
}

/// `r` is the liveness reply.
pub open spec fn is_health_reply(r: Reply) -> bool {
    &&& r.status == STATUS_OK
    &&& r.body is Text
    &&& r.body->Text_0@ == HEALTH_TEXT@
}

/// `r` says that no route matched.
pub open spec fn is_not_found(r: Reply) -> bool {
    r.status == STATUS_NOT_FOUND && r.body is NotFound
}

/// The liveness probe; it needs no port.
pub fn health_handler() -> (r: Reply)
    ensures
        is_health_reply(r),
{
    Reply { status: STATUS_OK, body: Body::Text(HEALTH_TEXT.to_owned()) }
}

/// The reply to a listing, from what the store returned.
pub fn list_reply(fetched: Result<Vec<Todo>, Error>) -> (r: Reply)
    ensures
        fetched matches Ok(v) ==> is_items_reply(r, todos_view(v@)),
        fetched is Err ==> is_server_error(r),
{
    match fetched {
        Err(e) => handle_rejection(e),
        Ok(todos) => {
            let mut out: Vec<TodoResponse> = Vec::new();
            let mut i: usize = 0;
            while i < todos.len()
                invariant
                    i <= todos@.len(),
                    out@.len() == i,
                    forall|j: int| 0 <= j < i ==> #[trigger] out@[j]@ == todos@[j]@,
                decreases todos@.len() - i,
            {
                out.push(TodoResponse::of(todos[i].duplicate()));
                i += 1;
            }
            assert(responses_view(out@) =~= todos_view(todos@));
            Reply { status: STATUS_OK, body: Body::Items(out) }
        },
    }
}

/// One listing through the port: the store was asked once, its answer was
/// recorded, and `r` shows that answer.
pub open spec fn listing_outcome<D: DBAccessor>(
    before: StorePort<D>,
    after: StorePort<D>,
    r: Reply,
) -> bool {
    &&& after.inner() == before.inner()
    &&& after.requested() == before.requested()
    &&& after.created() == before.created()
    &&& after.listed().len() == before.listed().len() + 1
    &&& after.listed() == before.listed().push(after.listed().last())
    &&& match after.listed().last() {
        Ok(s) => is_items_reply(r, s) && ids_ascending(s),
        Err(_) => is_server_error(r),
    }
}

/// One creation from the lookup's answer `fact`. A failed lookup asks nothing of
/// the store and gives the server error. A fact is handed to the store exactly
/// once, and `r` shows the store's answer: the new item, or the server error.
pub open spec fn creation_outcome<D: DBAccessor>(
    fact: Result<Seq<char>, Error>,
    before: StorePort<D>,
    after: StorePort<D>,
    r: Reply,
) -> bool {
    match fact {
        Err(_) => is_server_error(r) && after == before,
        Ok(name) => {
            &&& after.requested() == before.requested().push(name)
            &&& after.created().len() == before.created().len() + 1
            &&& after.created() == before.created().push(after.created().last())
            &&& after.listed() == before.listed()
            &&& match after.created().last() {
                Ok(t) => is_item_reply(r, t) && t.name == name && !t.checked && t.id > 0,
                Err(_) => is_server_error(r),
            }
        },
    }
}

/// One lookup through the port: the client was asked once and its answer recorded.
pub open spec fn lookup_step<H: HttpClient>(before: LookupPort<H>, after: LookupPort<H>) -> bool {
    &&& after.inner() == before.inner()
    &&& after.answers().len() == before.answers().len() + 1
    &&& after.answers() == before.answers().push(after.answers().last())
}

/// Lists every stored item, in the order of their ids.
pub fn list_todos_handler<D: DBAccessor>(db_access: &mut StorePort<D>) -> (r: Reply)
    ensures
        listing_outcome(*old(db_access), *final(db_access), r),
{
    list_reply(db_access.fetch_todos())
}

/// The reply to a creation, from what the store returned.
pub fn created_reply(created: Result<Todo, Error>) -> (r: Reply)
    ensures
        created matches Ok(t) ==> is_item_reply(r, t@),
        created is Err ==> is_server_error(r),
{
    match created {
        Err(e) => handle_rejection(e),
        Ok(t) => Reply { status: STATUS_OK, body: Body::Item(TodoResponse::of(t)) },
    }
}

/// Creates an item named by an already fetched fact. A failed lookup leaves
/// the store untouched; a failed write drops the fact.
pub fn create_with_fact<D: DBAccessor>(
    fact: Result<String, Error>,
    db_access: &mut StorePort<D>,
) -> (r: Reply)
    ensures
        creation_outcome(text_result(fact), *old(db_access), *final(db_access), r),
{
    match fact {
        Err(e) => handle_rejection(e),
        Ok(name) => created_reply(db_access.create_todo(name)),
    }
}

/// Fetches a fact and stores it as the name of a new item. Each call makes
/// exactly one lookup.
pub fn create_todo<H: HttpClient, D: DBAccessor>(
    http_client: &mut LookupPort<H>,
    db_access: &mut StorePort<D>,
) -> (r: Reply)
    ensures
        lookup_step(*old(http_client), *final(http_client)),
        creation_outcome(
            final(http_client).answers().last(),
            *old(db_access),
            *final(db_access),
            r,
        ),
{
    let fact = http_client.get_cat_fact();
    create_with_fact(fact, db_access)
}

} // verus!
