//! The todo list: todos kept by id, with adding, completing, removing and a
//! tally of what is done.
use std::collections::HashMap;
use std::time::SystemTime;
use vstd::prelude::*;
use vstd::std_specs::iter::IteratorSpec;

verus! {

broadcast use vstd::std_specs::hash::group_hash_axioms;

/// `std::time::SystemTime`, carried through as an opaque value.
#[verifier::external_type_specification]
#[verifier::external_body]
pub struct ExSystemTime(SystemTime);

/// `r` is the id that comes after the largest of `ids` (taking 0 when there
/// is none): every id is below it, and it is 1 or one past an id.
pub open spec fn is_next_id(ids: Set<u32>, r: u32) -> bool {
    &&& 1 <= r
    &&& forall|k: u32| ids.contains(k) ==> k < r
    &&& (r == 1 || ids.contains((r - 1) as u32))
}

/// Every id is below `u32::MAX`, so that one more id can follow the largest.
pub open spec fn has_room(ids: Set<u32>) -> bool {
    forall|k: u32| ids.contains(k) ==> k < u32::MAX
}

/// The id for a new todo: one past the largest id in use, or 1.
pub fn get_next_id(todos: &HashMap<u32, Todo>) -> (r: u32)
    requires
        has_room(todos@.dom()),
    ensures
        is_next_id(todos@.dom(), r),
{
    let mut max: u32 = 0;
    let ghost all = vstd::std_specs::hash::spec_keys_iter(todos).remaining();
    for k in it: todos.keys()
        invariant
            it.seq() == all,
            has_room(todos@.dom()),
            forall|i: int| 0 <= i < it.index() ==> *it.seq()[i] <= max,
            max == 0 || exists|i: int| 0 <= i < it.index() && *it.seq()[i] == max,
    {
        if *k > max {
            max = *k;
        }
    }
    proof {
        assert(all.unref().to_set() == todos@.dom());
        assert forall|k: u32| todos@.dom().contains(k) implies k <= max by {
            assert(all.unref().to_set().contains(k));
            let i = choose|i: int| 0 <= i < all.unref().len() && all.unref()[i] == k;
            assert(*all[i] == k);
        }
        if max != 0 {
            let i = choose|i: int| 0 <= i < all.len() && *all[i] == max;
            assert(all.unref()[i] == max);
            assert(all.unref().to_set().contains(max));
        }
    }
    max + 1
}

/// How urgent a todo is.
#[derive(Clone, Copy, Debug, PartialEq, Eq, Structural)]
pub enum Priority {
    Low,
    Medium,
    High,
}

/// A todo.
#[derive(Debug, PartialEq, Eq)]
pub struct Todo {
    pub id: u32,
    pub title: String,
    pub description: String,
    pub completed: bool,
    pub created_at: SystemTime,
    pub complete_at: SystemTime,
    pub priority: Priority,
}

/// Reads the clock with `std::time::SystemTime::now`. Nothing is stated of
/// the time it gives.
#[verifier::external_body]
fn system_now() -> SystemTime {
    SystemTime::now()
}

/// `t` is a new, not yet completed todo with these fields.
pub open spec fn is_new_todo(
    t: Todo,
    id: u32,
    title: String,
    description: String,
    priority: Priority,
) -> bool {
    &&& t.id == id
    &&& t.title == title
    &&& t.description == description
    &&& !t.completed
    &&& t.priority == priority
}

/// The todo that an add makes: open, with the given fields.
pub open spec fn new_todo(
    id: u32,
    title: String,
    description: String,
    priority: Priority,
    created_at: SystemTime,
    complete_at: SystemTime,
) -> Todo {
    Todo { id, title, description, completed: false, created_at, complete_at, priority }
}

/// Whatever its fields, a todo just added is not completed and keeps the
/// title, description, priority and times it was given, under its own id;
/// adding it leaves every other todo as it was.
pub proof fn added_todo_is_open_with_its_fields(
    m: Map<u32, Todo>,
    id: u32,
    title: String,
    description: String,
    priority: Priority,
    created_at: SystemTime,
    complete_at: SystemTime,
    other: u32,
)
    requires
        !m.contains_key(id),
        other != id,
    ensures
        ({
            let t = new_todo(id, title, description, priority, created_at, complete_at);
            &&& !t.completed
            &&& t.id == id
            &&& t.title == title
            &&& t.description == description
            &&& t.priority == priority
            &&& t.created_at == created_at
            &&& t.complete_at == complete_at
            &&& is_new_todo(t, id, title, description, priority)
            &&& m.insert(id, t).contains_key(other) == m.contains_key(other)
            &&& m.contains_key(other) ==> m.insert(id, t)[other] == m[other]
        }),
{
}

/// Adds a todo created at `created_at`, with `complete_at` as its completion
/// time, under the next id, and returns that id.
pub fn add_todo_at(
    todos: &mut HashMap<u32, Todo>,
    title: String,
    description: String,
    priority: Priority,
    created_at: SystemTime,
    complete_at: SystemTime,
) -> (id: u32)
    requires
        has_room(old(todos)@.dom()),
    ensures
        is_next_id(old(todos)@.dom(), id),
        !old(todos)@.contains_key(id),
        final(todos)@ == old(todos)@.insert(
            id,
            new_todo(id, title, description, priority, created_at, complete_at),
        ),
{
    let id = get_next_id(todos);
    let todo = Todo { id, title, description, completed: false, created_at, complete_at, priority };
    todos.insert(id, todo);
    id
}

/// Adds a todo created now under the next id, and returns that id.
pub fn add_todo(
    todos: &mut HashMap<u32, Todo>,
    title: String,
    description: String,
    priority: Priority,
) -> (id: u32)
    requires
        has_room(old(todos)@.dom()),
    ensures
        is_next_id(old(todos)@.dom(), id),
        !old(todos)@.contains_key(id),
        final(todos)@ == old(todos)@.insert(id, final(todos)@[id]),
        is_new_todo(final(todos)@[id], id, title, description, priority),
{
    let created_at = system_now();
    let complete_at = system_now();
    add_todo_at(todos, title, description, priority, created_at, complete_at)
}

/// `t` marked as completed, all else kept.
pub open spec fn completed(t: Todo) -> Todo {
    Todo {
        id: t.id,
        title: t.title,
        description: t.description,
        completed: true,
        created_at: t.created_at,
        complete_at: t.complete_at,
        priority: t.priority,
    }
}

/// Marks the todo with this id as completed. Returns whether there is one;
/// when there is none, nothing changes.
pub fn mark_completed(todos: &mut HashMap<u32, Todo>, id: u32) -> (found: bool)
    ensures
        found == old(todos)@.contains_key(id),
        found ==> final(todos)@ == old(todos)@.insert(id, completed(old(todos)@[id])),
        !found ==> final(todos)@ == old(todos)@,
{
    match todos.remove(&id) {
        Some(mut todo) => {
            todo.completed = true;
            todos.insert(id, todo);
            true
        },
        None => false,
    }
}

/// Removes the todo with this id and returns it, if there is one.
pub fn remove_todo(todos: &mut HashMap<u32, Todo>, id: u32) -> (removed: Option<Todo>)
    ensures
        final(todos)@ == old(todos)@.remove(id),
        match removed {
            Some(t) => old(todos)@.contains_key(id) && t == old(todos)@[id],
            None => !old(todos)@.contains_key(id),
        },
{
    todos.remove(&id)
}

/// The ids of the completed todos.
pub open spec fn completed_ids(m: Map<u32, Todo>) -> Set<u32> {
    m.dom().filter(|k: u32| m[k].completed)
}

/// The ids of the todos not yet completed.
pub open spec fn pending_ids(m: Map<u32, Todo>) -> Set<u32> {
    m.dom().filter(|k: u32| !m[k].completed)
}

/// Counts of a todo list: all todos, the completed ones, and the others.
#[derive(Clone, Copy, Debug, PartialEq, Eq, Structural)]
pub struct TodoSummary {
    pub total: usize,
    pub completed: usize,
    pub pending: usize,
}

/// Filtering a sequence without duplicates keeps as many elements as
/// filtering the set of its elements.
proof fn lemma_filter_len_matches_set(s: Seq<u32>, p: spec_fn(u32) -> bool)
    requires
        s.no_duplicates(),
    ensures
        s.filter(p).len() == s.to_set().filter(p).len(),
    decreases s.len(),
{
    broadcast use vstd::seq_lib::group_seq_properties;
    broadcast use vstd::set::group_set_axioms;

    if s.len() == 0 {
        assert(s.to_set().filter(p) =~= Set::empty());
        assert(s.filter(p) =~= Seq::empty());
    } else {
        let rest = s.drop_last();
        let last = s.last();
        assert(s == rest.push(last));
        rest.lemma_filter_push(last, p);
        assert(rest.no_duplicates());
        lemma_filter_len_matches_set(rest, p);
        assert(s.to_set() =~= rest.to_set().insert(last));
        assert(!rest.to_set().contains(last)) by {
            if rest.to_set().contains(last) {
                let j = choose|j: int| 0 <= j < rest.len() && rest[j] == last;
                assert(s[j] == s[s.len() - 1]);
            }
        }
        if p(last) {
            assert(s.to_set().filter(p) =~= rest.to_set().filter(p).insert(last));
        } else {
            assert(s.to_set().filter(p) =~= rest.to_set().filter(p));
        }
    }
}

/// Every todo is either completed or pending.
proof fn lemma_completed_and_pending_partition(m: Map<u32, Todo>)
    requires
        m.dom().finite(),
    ensures
        completed_ids(m).len() + pending_ids(m).len() == m.len(),
{
    broadcast use vstd::set::group_set_axioms;
    broadcast use vstd::set_lib::group_set_lib_default;

    let c = completed_ids(m);
    let p = pending_ids(m);
    assert(c.disjoint(p));
    assert(c + p =~= m.dom());
    vstd::set_lib::lemma_set_disjoint_lens(c, p);
}

/// Counts the todos, the completed ones, and the pending ones.
pub fn summarize(todos: &HashMap<u32, Todo>) -> (s: TodoSummary)
    ensures
        s.total == todos@.len(),
        s.completed == completed_ids(todos@).len(),
        s.pending == s.total - s.completed,
        s.pending == pending_ids(todos@).len(),
{
    let total = todos.len();
    let mut done: usize = 0;
    let ghost all = vstd::std_specs::hash::spec_keys_iter(todos).remaining();
    let ghost pred = |k: u32| todos@[k].completed;
    for k in it: todos.keys()
        invariant
            it.seq() == all,
            done == all.unref().take(it.index() as int).filter(pred).len(),
            done <= it.index(),
            all.unref().to_set() == todos@.dom(),
            all.len() == total,
            total == todos@.len(),
            pred == (|k: u32| todos@[k].completed),
    {
        let ghost i = it.index();
        proof {
            assert(*k == all.unref()[i as int]);
            assert(all.unref().to_set().contains(*k));
            assert(all.unref().take(i + 1) == all.unref().take(i as int).push(*k));
            all.unref().take(i as int).lemma_filter_push(*k, pred);
        }
        match todos.get(k) {
            Some(t) => {
                if t.completed {
                    done = done + 1;
                }
            },
            None => {},
        }
    }
    proof {
        assert(all.unref().take(all.len() as int) == all.unref());
        assert(all.unref().no_duplicates());
        lemma_filter_len_matches_set(all.unref(), pred);
        assert(completed_ids(todos@) == todos@.dom().filter(pred));
        lemma_completed_and_pending_partition(todos@);
    }
    TodoSummary { total, completed: done, pending: total - done }
}

/// The mark shown before a todo: done or open.
pub open spec fn status_mark(completed: bool) -> Seq<char> {
    if completed {
        "✅"@
    } else {
        "⭕"@
    }
}

/// The mark shown before a todo that is done or open.
pub fn status_icon(completed: bool) -> (r: &'static str)
    ensures
        r@ == status_mark(completed),
{
    if completed {
        "✅"
    } else {
        "⭕"
    }
}

/// The icon shown beside a todo of this priority.
pub open spec fn priority_icon(p: Priority) -> Seq<char> {
    match p {
        Priority::High => "🔥"@,
        Priority::Medium => "⚡"@,
        Priority::Low => "🌱"@,
    }
}

/// The terminal colour in which a priority is written.
pub open spec fn priority_color(p: Priority) -> Seq<char> {
    match p {
        Priority::High => "red"@,
        Priority::Medium => "yellow"@,
        Priority::Low => "green"@,
    }
}

/// The name under which a priority is written.
pub open spec fn priority_label(p: Priority) -> Seq<char> {
    match p {
        Priority::High => "High"@,
        Priority::Medium => "Medium"@,
        Priority::Low => "Low"@,
    }
}

impl Priority {
    /// The icon shown beside a todo of this priority.
    pub fn icon(&self) -> (r: &'static str)
        ensures
            r@ == priority_icon(*self),
    {
        match self {
            Priority::High => "🔥",
            Priority::Medium => "⚡",
            Priority::Low => "🌱",
        }
    }

    /// The terminal colour in which this priority is written.
    pub fn color(&self) -> (r: &'static str)
        ensures
            r@ == priority_color(*self),
    {
        match self {
            Priority::High => "red",
            Priority::Medium => "yellow",
            Priority::Low => "green",
        }
    }

    /// The name under which this priority is written.
    pub fn label(&self) -> (r: &'static str)
        ensures
            r@ == priority_label(*self),
    {
        match self {
            Priority::High => "High",
            Priority::Medium => "Medium",
            Priority::Low => "Low",
        }
    }
}

/// A set of ids has one next id.
pub proof fn next_id_is_unique(ids: Set<u32>, a: u32, b: u32)
    requires
        is_next_id(ids, a),
        is_next_id(ids, b),
    ensures
        a == b,
{
}

/// Ids are handed out in order: right after a todo is added under the next
/// id, the next id is one more.
pub proof fn next_id_follows_added_id(m: Map<u32, Todo>, id: u32, t: Todo, r: u32)
    requires
        is_next_id(m.dom(), id),
        is_next_id(m.insert(id, t).dom(), r),
    ensures
        r == id + 1,
{
    assert(m.insert(id, t).dom().contains(id));
    if r != 1 {
        assert(m.insert(id, t).dom().contains((r - 1) as u32));
    }
}

/// Removing a todo just added gives back that todo and the list as it was.
pub proof fn remove_undoes_add(m: Map<u32, Todo>, id: u32, t: Todo)
    requires
        !m.contains_key(id),
    ensures
        m.insert(id, t).contains_key(id),
        m.insert(id, t)[id] == t,
        m.insert(id, t).remove(id) == m,
{
    assert(m.insert(id, t).remove(id) =~= m);
}

/// Marking a todo as completed a second time changes nothing.
pub proof fn mark_completed_is_idempotent(m: Map<u32, Todo>, id: u32)
    requires
        m.contains_key(id),
    ensures
        ({
            let once = m.insert(id, completed(m[id]));
            once.insert(id, completed(once[id])) == once
        }),
{
    let once = m.insert(id, completed(m[id]));
    assert(completed(once[id]) == once[id]);
    assert(once.insert(id, completed(once[id])) =~= once);
}

/// Completing a todo moves it from the pending ones to the completed ones
/// and leaves the number of todos as it was.
pub proof fn mark_completed_moves_to_completed(m: Map<u32, Todo>, id: u32)
    requires
        m.dom().finite(),
        m.contains_key(id),
        !m[id].completed,
    ensures
        ({
            let after = m.insert(id, completed(m[id]));
            &&& after.len() == m.len()
            &&& completed_ids(after) == completed_ids(m).insert(id)
            &&& pending_ids(after) == pending_ids(m).remove(id)
        }),
{
    let after = m.insert(id, completed(m[id]));
    assert(after.dom() =~= m.dom());
    assert(completed_ids(after) =~= completed_ids(m).insert(id));
    assert(pending_ids(after) =~= pending_ids(m).remove(id));
}

} // verus!
