use vstd::prelude::*;

use crate::db::{DBAccessor, StorePort};
use crate::handler::{
    create_todo, creation_outcome, health_handler, is_health_reply, is_not_found,
    list_todos_handler, listing_outcome, lookup_step, Body, Reply, STATUS_NOT_FOUND,
};
use crate::http::{HttpClient, LookupPort};

verus! {

/// The path of the liveness probe.
pub const HEALTH_PATH: &'static str = "/health";

/// The path of the todo list.
pub const TODO_PATH: &'static str = "/todo";

/// The request methods that the routes tell apart.
#[derive(Clone, Copy, Debug, PartialEq, Eq, Structural)]
pub enum Method {
    Get,
    Post,
    Other,
}

/// Whether two texts hold the same characters.
pub fn same_text(a: &str, b: &str) -> (r: bool)
    ensures
        r == (a@ == b@),
{
    let n = a.unicode_len();
    if n != b.unicode_len() {
        return false;
    }
    let mut i: usize = 0;
    while i < n
        invariant
            n == a@.len(),
            n == b@.len(),
            i <= n,
            forall|j: int| 0 <= j < i ==> a@[j] == b@[j],
        decreases n - i,
    {
        if a.get_char(i) != b.get_char(i) {
            return false;
        }
        i += 1;
    }
    assert(a@ =~= b@);
    true
}

/// Dispatches one request by method and path to its handler, with the ports
/// that the composition root chose. The body of a request is never read.
pub fn route<H: HttpClient, D: DBAccessor>(
    method: Method,
    path: &str,
    http_client: &mut LookupPort<H>,
    db_access: &mut StorePort<D>,
) -> (r: Reply)
    ensures
        method == Method::Get && path@ == HEALTH_PATH@ ==> {
            &&& is_health_reply(r)
            &&& *final(db_access) == *old(db_access)
            &&& *final(http_client) == *old(http_client)
        },
        method == Method::Get && path@ == TODO_PATH@ ==> {
            &&& listing_outcome(*old(db_access), *final(db_access), r)
            &&& *final(http_client) == *old(http_client)
        },
        method == Method::Post && path@ == TODO_PATH@ ==> {
            &&& lookup_step(*old(http_client), *final(http_client))
            &&& creation_outcome(
                final(http_client).answers().last(),
                *old(db_access),
                *final(db_access),
                r,
            )
        },
        !(method == Method::Get && path@ == HEALTH_PATH@) && !(method != Method::Other && path@
            == TODO_PATH@) ==> {
            &&& is_not_found(r)
            &&& *final(db_access) == *old(db_access)
            &&& *final(http_client) == *old(http_client)
        },
{
    proof {
        reveal_strlit("/health");
        reveal_strlit("/todo");
    }
    assert(HEALTH_PATH@.len() != TODO_PATH@.len());
    if same_text(path, HEALTH_PATH) && method == Method::Get {
        health_handler()
    } else if same_text(path, TODO_PATH) && method == Method::Get {
        list_todos_handler(db_access)
    } else if same_text(path, TODO_PATH) && method == Method::Post {
        create_todo(http_client, db_access)
    } else {
        Reply { status: STATUS_NOT_FOUND, body: Body::NotFound }
    }
}

} // verus!
