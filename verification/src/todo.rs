//! Todo records: what a new todo holds and how an update changes one.

use vstd::prelude::*;

use crate::ids::{is_random_uuid_text, new_id};
use crate::models::{TodoCreateRequest, TodoItem, TodoUpdateRequest};
use crate::text::opt_text;

verus! {

/// A todo, as texts.
pub struct TodoView {
    pub id: Seq<char>,
    pub title: Seq<char>,
    pub due_at: Option<i64>,
    pub repeat_rule: Option<Seq<char>>,
    pub priority: i32,
    pub status: Seq<char>,
    pub source: Seq<char>,
}

impl View for TodoItem {
    type V = TodoView;

    open spec fn view(&self) -> TodoView {
        TodoView {
            id: self.id@,
            title: self.title@,
            due_at: self.due_at,
            repeat_rule: opt_text(self.repeat_rule),
            priority: self.priority,
            status: self.status@,
            source: self.source@,
        }
    }
}

/// A new todo with id `id`: the request's fields, status `pending`.
pub open spec fn created(id: Seq<char>, req: TodoCreateRequest) -> TodoView {
    TodoView {
        id,
        title: req.title@,
        due_at: req.due_at,
        repeat_rule: opt_text(req.repeat_rule),
        priority: req.priority,
        status: "pending"@,
        source: req.source@,
    }
}

/// Whether an update removes the due time.
pub open spec fn clears_due_at(req: TodoUpdateRequest) -> bool {
    req.clear_due_at == Some(true)
}

/// A todo after an update: each given field replaces the old one; the due
/// time is removed when `clear_due_at` is true, else replaced when given;
/// id, status and source never change.
pub open spec fn updated(current: TodoView, req: TodoUpdateRequest) -> TodoView {
    TodoView {
        id: current.id,
        title: match req.title {
            Some(t) => t@,
            None => current.title,
        },
        due_at: if clears_due_at(req) {
            None
        } else {
            match req.due_at {
                Some(d) => Some(d),
                None => current.due_at,
            }
        },
        repeat_rule: match req.repeat_rule {
            Some(r) => Some(r@),
            None => current.repeat_rule,
        },
        priority: match req.priority {
            Some(p) => p,
            None => current.priority,
        },
        status: current.status,
        source: current.source,
    }
}

/// The todo that a create request makes, under the given id.
pub fn new_todo(id: String, req: TodoCreateRequest) -> (t: TodoItem)
    ensures
        t@ == created(id@, req),
{
    TodoItem {
        id,
        title: req.title,
        due_at: req.due_at,
        repeat_rule: req.repeat_rule,
        priority: req.priority,
        status: String::from_str("pending"),
        source: req.source,
    }
}

/// The todo that a create request makes, under a fresh random id.
pub fn create(req: TodoCreateRequest) -> (t: TodoItem)
    ensures
        is_random_uuid_text(t.id@),
        t@ == created(t.id@, req),
{
    new_todo(new_id(), req)
}

/// Applies an update to the todo it names.
pub fn update(current: TodoItem, req: TodoUpdateRequest) -> (t: TodoItem)
    ensures
        t@ == updated(current@, req),
{
    let clear = match req.clear_due_at {
        Some(c) => c,
        None => false,
    };
    let due_at = if clear {
        None
    } else {
        match req.due_at {
            Some(d) => Some(d),
            None => current.due_at,
        }
    };
    let title = match req.title {
        Some(t) => t,
        None => current.title,
    };
    let repeat_rule = match req.repeat_rule {
        Some(r) => Some(r),
        None => current.repeat_rule,
    };
    let priority = match req.priority {
        Some(p) => p,
        None => current.priority,
    };
    TodoItem {
        id: current.id,
        title,
        due_at,
        repeat_rule,
        priority,
        status: current.status,
        source: current.source,
    }
}

/// Law: an update that gives no field leaves the todo as it was.
pub proof fn law_empty_update_changes_nothing(current: TodoView, req: TodoUpdateRequest)
    requires
        req.title is None,
        req.due_at is None,
        !clears_due_at(req),
        req.repeat_rule is None,
        req.priority is None,
    ensures
        updated(current, req) == current,
{
}

/// Law: clearing the due time wins over a due time given in the same update.
pub proof fn law_clear_due_at_wins(current: TodoView, req: TodoUpdateRequest)
    requires
        clears_due_at(req),
    ensures
        updated(current, req).due_at is None,
{
}

/// Law: applying the same update twice is the same as applying it once.
pub proof fn law_update_is_idempotent(current: TodoView, req: TodoUpdateRequest)
    ensures
        updated(updated(current, req), req) == updated(current, req),
{
}

/// Law: each field of an update acts on its own field alone. A given title,
/// repeat rule or priority replaces the old one whatever else the update
/// holds, and an absent one keeps the old one; the due time is removed when
/// `clear_due_at` is true, else replaced by a given one, else kept; id,
/// status and source never change.
pub proof fn law_update_fields_act_alone(current: TodoView, req: TodoUpdateRequest)
    ensures
        req.title matches Some(t) ==> updated(current, req).title == t@,
        req.title is None ==> updated(current, req).title == current.title,
        req.clear_due_at == Some(true) ==> updated(current, req).due_at is None,
        req.clear_due_at != Some(true) ==> (req.due_at matches Some(d) ==> updated(current, req).due_at
            == Some(d)),
        req.clear_due_at != Some(true) && req.due_at is None ==> updated(current, req).due_at
            == current.due_at,
        req.repeat_rule matches Some(r) ==> updated(current, req).repeat_rule == Some(r@),
        req.repeat_rule is None ==> updated(current, req).repeat_rule == current.repeat_rule,
        req.priority matches Some(p) ==> updated(current, req).priority == p,
        req.priority is None ==> updated(current, req).priority == current.priority,
        updated(current, req).id == current.id,
        updated(current, req).status == current.status,
        updated(current, req).source == current.source,
{
}

/// Law: a new todo holds exactly what its request gives, under its id, and
/// starts pending.
pub proof fn law_created_holds_the_request(id: Seq<char>, req: TodoCreateRequest)
    ensures
        created(id, req).id == id,
        created(id, req).title == req.title@,
        created(id, req).due_at == req.due_at,
        req.repeat_rule matches Some(r) ==> created(id, req).repeat_rule == Some(r@),
        req.repeat_rule is None ==> created(id, req).repeat_rule is None,
        created(id, req).priority == req.priority,
        created(id, req).status == "pending"@,
        created(id, req).source == req.source@,
{
}

} // verus!
