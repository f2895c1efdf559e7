use vstd::prelude::*;

use crate::error::Error;

verus! {

/// An item of the todo list as the store holds it.
pub struct Todo {
    pub id: i32,
    pub name: String,
    pub checked: bool,
}

/// The mathematical value of an item.
pub struct TodoView {
    pub id: int,
    pub name: Seq<char>,
    pub checked: bool,
}

impl View for Todo {
    type V = TodoView;

    open spec fn view(&self) -> TodoView {
        TodoView { id: self.id as int, name: self.name@, checked: self.checked }
    }
}

impl Todo {
    /// A copy of the item, field by field.
    pub fn duplicate(&self) -> (r: Todo)
        ensures
            r@ == self@,
    {
        Todo { id: self.id, name: self.name.clone(), checked: self.checked }
    }
}

/// The values of a sequence of items.
pub open spec fn todos_view(s: Seq<Todo>) -> Seq<TodoView> {
    s.map_values(|t: Todo| t@)
}

/// Every id is positive and the ids rise strictly from first to last.
pub open spec fn ids_ascending(s: Seq<TodoView>) -> bool {
    &&& forall|i: int| 0 <= i < s.len() ==> #[trigger] s[i].id > 0
    &&& forall|i: int, j: int| 0 <= i < j < s.len() ==> #[trigger] s[i].id < #[trigger] s[j].id
}

/// The failures that a store operation may report.
pub open spec fn is_store_error(e: Error) -> bool {
    e == Error::PoolError || e == Error::QueryError
}

/// One successful creation: the store held `before`, was asked to create an item
/// named `name`, answered with `t` and now holds `after`.
pub open spec fn create_step(
    before: Seq<TodoView>,
    name: Seq<char>,
    t: TodoView,
    after: Seq<TodoView>,
) -> bool {
    &&& after == before.push(t)
    &&& t.name == name
    &&& !t.checked
    &&& t.id > 0
    &&& forall|i: int| 0 <= i < before.len() ==> #[trigger] before[i].id < t.id
}

/// The failures that a schema initialisation may report.
pub open spec fn is_init_error(e: Error) -> bool {
    e == Error::ConfigError || e == Error::PoolError || e == Error::InitError
}

/// The persistence capability that handlers are given.
pub trait DBAccessor: Sized {
    /// Prepares the schema; run once at startup, before any request is routed.
    fn init_db(&self) -> (r: Result<(), Error>)
        ensures
            r matches Err(e) ==> is_init_error(e),
    ;

    /// All items, ordered by ascending id.
    fn fetch_todos(&self) -> (r: Result<Vec<Todo>, Error>)
        ensures
            r matches Ok(v) ==> ids_ascending(todos_view(v@)),
            r matches Err(e) ==> is_store_error(e),
    ;

    /// Stores a new unchecked item named `name` under a fresh id, and returns it.
    fn create_todo(&mut self, name: String) -> (r: Result<Todo, Error>)
        ensures
            r matches Ok(t) ==> t@.name == name@ && !t.checked && t.id > 0,
            r matches Err(e) ==> is_store_error(e),
    ;
}

/// A creation's answer, with the item as a value.
pub open spec fn todo_result(r: Result<Todo, Error>) -> Result<TodoView, Error> {
    match r {
        Ok(t) => Ok(t@),
        Err(e) => Err(e),
    }
}

/// A listing's answer, with the items as values.
pub open spec fn todos_result(r: Result<Vec<Todo>, Error>) -> Result<Seq<TodoView>, Error> {
    match r {
        Ok(v) => Ok(todos_view(v@)),
        Err(e) => Err(e),
    }
}

/// A store as handlers reach it, together with a record of what was asked of it:
/// the names of the creations, their answers, and the answers of the listings.
/// Only the methods below extend the record, each by exactly the call it makes.
pub struct StorePort<D> {
    store: D,
    requested: Ghost<Seq<Seq<char>>>,
    created: Ghost<Seq<Result<TodoView, Error>>>,
    listed: Ghost<Seq<Result<Seq<TodoView>, Error>>>,
}

impl<D: DBAccessor> StorePort<D> {
    /// The store itself.
    pub closed spec fn inner(&self) -> D {
        self.store
    }

    /// The names that the store was asked to create, oldest first.
    pub closed spec fn requested(&self) -> Seq<Seq<char>> {
        self.requested@
    }

    /// The store's answers to those creations, in the same order.
    pub closed spec fn created(&self) -> Seq<Result<TodoView, Error>> {
        self.created@
    }

    /// The store's answers to listings, oldest first.
    pub closed spec fn listed(&self) -> Seq<Result<Seq<TodoView>, Error>> {
        self.listed@
    }

    /// A port over `store` with nothing asked of it yet.
    pub fn new(store: D) -> (r: StorePort<D>)
        ensures
            r.inner() == store,
            r.requested() == Seq::<Seq<char>>::empty(),
            r.created() == Seq::<Result<TodoView, Error>>::empty(),
            r.listed() == Seq::<Result<Seq<TodoView>, Error>>::empty(),
    {
        StorePort {
            store,
            requested: Ghost(Seq::empty()),
            created: Ghost(Seq::empty()),
            listed: Ghost(Seq::empty()),
        }
    }

    /// The store, to read.
    pub fn store(&self) -> (r: &D)
        ensures
            *r == self.inner(),
    {
        &self.store
    }

    /// Gives the store back.
    pub fn into_inner(self) -> (r: D)
        ensures
            r == self.inner(),
    {
        self.store
    }

    /// Lists through the store and records its answer.
    pub fn fetch_todos(&mut self) -> (r: Result<Vec<Todo>, Error>)
        ensures
            final(self).inner() == old(self).inner(),
            final(self).requested() == old(self).requested(),
            final(self).created() == old(self).created(),
            final(self).listed() == old(self).listed().push(todos_result(r)),
            r matches Ok(v) ==> ids_ascending(todos_view(v@)),
            r matches Err(e) ==> is_store_error(e),
    {
        let r = self.store.fetch_todos();
        self.listed = Ghost(self.listed@.push(todos_result(r)));
        r
    }

    /// Asks the store to create an item named `name` and records the request and
    /// the answer.
    pub fn create_todo(&mut self, name: String) -> (r: Result<Todo, Error>)
        ensures
            final(self).requested() == old(self).requested().push(name@),
            final(self).created() == old(self).created().push(todo_result(r)),
            final(self).listed() == old(self).listed(),
            r matches Ok(t) ==> t@.name == name@ && !t.checked && t.id > 0,
            r matches Err(e) ==> is_store_error(e),
    {
        let ghost asked = name@;
        let r = self.store.create_todo(name);
        self.requested = Ghost(self.requested@.push(asked));
        self.created = Ghost(self.created@.push(todo_result(r)));
        r
    }
}

/// The id that a store holding `s` gives the next item: one past the last.
pub open spec fn next_id(s: Seq<TodoView>) -> int {
    if s.len() == 0 {
        1
    } else {
        s.last().id + 1
    }
}

/// A store that keeps its items in memory, in the order of their ids.
pub struct MemoryStore {
    items: Vec<Todo>,
}

impl View for MemoryStore {
    type V = Seq<TodoView>;

    closed spec fn view(&self) -> Seq<TodoView> {
        todos_view(self.items@)
    }
}

impl MemoryStore {
    #[verifier::type_invariant]
    closed spec fn well_formed(&self) -> bool {
        ids_ascending(todos_view(self.items@))
    }

    /// An empty store.
    pub fn new() -> (r: MemoryStore)
        ensures
            r@ == Seq::<TodoView>::empty(),
    {
        let r = MemoryStore { items: Vec::new() };
        assert(r@ =~= Seq::<TodoView>::empty());
        r
    }

    /// A store that already holds `items`; new ids follow the last one.
    pub fn with_items(items: Vec<Todo>) -> (r: MemoryStore)
        requires
            ids_ascending(todos_view(items@)),
        ensures
            r@ == todos_view(items@),
    {
        MemoryStore { items }
    }

    /// All items, ordered by ascending id.
    pub fn list(&self) -> (r: Vec<Todo>)
        ensures
            r@.len() == self@.len(),
            todos_view(r@) == self@,
            ids_ascending(self@),
    {
        proof {
            use_type_invariant(self);
        }
        let mut out: Vec<Todo> = Vec::new();
        let mut i: usize = 0;
        while i < self.items.len()
            invariant
                i <= self.items@.len(),
                out@.len() == i,
                forall|j: int| 0 <= j < i ==> #[trigger] out@[j]@ == self.items@[j]@,
            decreases self.items@.len() - i,
        {
            out.push(self.items[i].duplicate());
            i += 1;
        }
        assert(todos_view(out@) =~= todos_view(self.items@));
        out
    }

    /// Stores an unchecked item named `name` under the next id and returns it;
    /// fails, storing nothing, once the ids are used up.
    pub fn insert(&mut self, name: String) -> (r: Result<Todo, Error>)
        ensures
            r is Err <==> next_id(old(self)@) > i32::MAX,
            r matches Ok(t) ==> t@ == (TodoView {
                id: next_id(old(self)@),
                name: name@,
                checked: false,
            }) && final(self)@ == old(self)@.push(t@),
            r matches Ok(t) ==> create_step(old(self)@, name@, t@, final(self)@),
            r matches Err(e) ==> e == Error::QueryError && final(self)@ == old(self)@,
    {
        proof {
            use_type_invariant(&*self);
        }
        let n = self.items.len();
        let id: i32 = if n == 0 {
            1
        } else {
            let last = self.items[n - 1].id;
            if last == i32::MAX {
                return Err(Error::QueryError);
            }
            last + 1
        };
        let ghost before = todos_view(self.items@);
        assert(n > 0 ==> before.last().id == self.items@[n - 1].id);
        let t = Todo { id, name, checked: false };
        let r = t.duplicate();
        let mut items = Vec::new();
        std::mem::swap(&mut items, &mut self.items);
        items.push(t);
        assert(todos_view(items@) =~= before.push(r@));
        assert forall|i: int| 0 <= i < before.len() implies #[trigger] before[i].id < r@.id by {
            if i < before.len() - 1 {
                assert(before[i].id < before[before.len() - 1].id);
            }
        }
        self.items = items;
        Ok(r)
    }
}

impl DBAccessor for MemoryStore {
    /// Memory needs no schema.
    fn init_db(&self) -> (r: Result<(), Error>) {
        Ok(())
    }

    fn fetch_todos(&self) -> (r: Result<Vec<Todo>, Error>) {
        Ok(self.list())
    }

    fn create_todo(&mut self, name: String) -> (r: Result<Todo, Error>) {
        self.insert(name)
    }
}

} // verus!
