//! The `edit_item` tool: which changes a call asks for, in the order they
//! are applied, and where its arguments stop being acceptable.

use vstd::prelude::*;
use crate::json::{
    as_str, get, get_bool, get_str, get_u64, json_as_bool, json_as_str, json_get, json_member,
    json_text, json_u64, uint_json, JsonValue,
};
use crate::text::{eq_ignore_ascii_case, string_of, trim, views_of};
use crate::tools::{
    arg_u64, due_arg_message, due_arg_reads, missing_arg_message, opt_string_vec,
    parse_due_arg, parse_priority_arg, priority_arg, string_list_arg, trimmed_string,
};

verus! {

/// One change of an item.
#[derive(Debug)]
pub enum EditStep {
    Description(String),
    Priority(u8),
    DueDate(Option<i64>),
    Boards(Vec<String>),
    /// The new tags as given; the store normalizes them and drops empty ones.
    Tags(Vec<String>),
    Starred(bool),
}

/// A change, as the contracts speak of it.
pub enum Change {
    Description(Seq<char>),
    Priority(u8),
    DueDate(Option<i64>),
    Boards(Seq<Seq<char>>),
    Tags(Seq<Seq<char>>),
    Starred(bool),
}

pub open spec fn change_of(s: EditStep) -> Change {
    match s {
        EditStep::Description(d) => Change::Description(d@),
        EditStep::Priority(p) => Change::Priority(p),
        EditStep::DueDate(d) => Change::DueDate(d),
        EditStep::Boards(b) => Change::Boards(views_of(b@)),
        EditStep::Tags(t) => Change::Tags(views_of(t@)),
        EditStep::Starred(b) => Change::Starred(b),
    }
}

pub open spec fn changes_of(steps: Seq<EditStep>) -> Seq<Change> {
    steps.map_values(|s: EditStep| change_of(s))
}

/// What an `edit_item` call comes to: the item, the changes to apply in
/// order, and the error to answer with once they are applied, if any.
#[derive(Debug)]
pub struct EditPlan {
    pub id: u64,
    pub steps: Vec<EditStep>,
    pub failure: Option<String>,
}

/// Changes so far and the error that stops the rest.
pub type Progress = (Seq<Change>, Option<Seq<char>>);

pub open spec fn no_fields_message() -> Seq<char> {
    "no editable fields provided (description, priority, due_date, boards, tags, starred)"@
}

pub open spec fn empty_boards_message() -> Seq<char> {
    "'boards' must be a non-empty array of board names"@
}

/// The description: a string argument must not be blank and is applied trimmed.
pub open spec fn plan_description(args: JsonValue) -> Progress {
    match get_str(args, "description"@) {
        None => (Seq::empty(), None),
        Some(d) => if trim(d).len() == 0 {
            (Seq::empty(), Some("'description' must not be empty"@))
        } else {
            (seq![Change::Description(trim(d))], None)
        },
    }
}

/// Then the priority, if given, must be 1, 2 or 3.
pub open spec fn plan_priority(args: JsonValue, p: Progress) -> Progress {
    if p.1 is Some {
        p
    } else {
        match priority_arg(args) {
            Err(m) => (p.0, Some(m)),
            Ok(None) => p,
            Ok(Some(q)) => (p.0.push(Change::Priority(q)), None),
        }
    }
}

/// Then the due date, read as `due` says (`None` when the argument is
/// missing or not a string; otherwise the outcome of reading it).
pub open spec fn plan_due(due: Option<Result<Option<i64>, Seq<char>>>, p: Progress) -> Progress {
    if p.1 is Some {
        p
    } else {
        match due {
            None => p,
            Some(Err(m)) => (p.0, Some(m)),
            Some(Ok(d)) => (p.0.push(Change::DueDate(d)), None),
        }
    }
}

/// Then the boards, if the argument is there: at least one board name.
pub open spec fn plan_boards(args: JsonValue, p: Progress) -> Progress {
    if p.1 is Some || get(args, "boards"@) is None {
        p
    } else if string_list_arg(args, "boards"@).len() == 0 {
        (p.0, Some(empty_boards_message()))
    } else {
        (p.0.push(Change::Boards(string_list_arg(args, "boards"@))), None)
    }
}

/// Then the tags, if the argument is there; then the starred flag, if it is a boolean.
pub open spec fn plan_tags_starred(args: JsonValue, p: Progress) -> Progress {
    if p.1 is Some {
        p
    } else {
        let with_tags = if get(args, "tags"@) is Some {
            p.0.push(Change::Tags(string_list_arg(args, "tags"@)))
        } else {
            p.0
        };
        match get_bool(args, "starred"@) {
            Some(b) => (with_tags.push(Change::Starred(b)), None),
            None => (with_tags, None),
        }
    }
}

/// The whole plan: the changes in order, then the error to answer with (a
/// rejected argument, or no change asked for at all).
pub open spec fn plan_edit(args: JsonValue, due: Option<Result<Option<i64>, Seq<char>>>) -> Progress {
    let p = plan_tags_starred(args, plan_boards(args, plan_due(due, plan_priority(args, plan_description(args)))));
    if p.1 is None && p.0.len() == 0 {
        (p.0, Some(no_fields_message()))
    } else {
        p
    }
}

/// A non-empty list of boards is always applied once the arguments read
/// before it are accepted (a description that is not blank, a priority of 1
/// to 3, a due date that reads): the plan succeeds and moves the item to
/// exactly those boards.
pub proof fn lemma_given_boards_planned(args: JsonValue, due: Option<Result<Option<i64>, Seq<char>>>)
    requires
        string_list_arg(args, "boards"@).len() > 0,
        get_str(args, "description"@) matches Some(d) ==> trim(d).len() > 0,
        priority_arg(args) is Ok,
        !(due matches Some(Err(_))),
    ensures
        plan_edit(args, due).1 is None,
        plan_edit(args, due).0.contains(Change::Boards(string_list_arg(args, "boards"@))),
{
    let p0 = plan_due(due, plan_priority(args, plan_description(args)));
    let p1 = plan_boards(args, p0);
    assert(get(args, "boards"@) is Some);
    assert(p1.0.last() == Change::Boards(string_list_arg(args, "boards"@)));
    let p2 = plan_tags_starred(args, p1);
    assert(p2.0[p1.0.len() - 1] == p1.0.last());
}

/// `due` is what reading the `due_date` argument of `args` may give.
pub open spec fn due_reading(args: JsonValue, due: Option<Result<Option<i64>, Seq<char>>>) -> bool {
    match get_str(args, "due_date"@) {
        None => due is None,
        Some(raw) => match due {
            None => false,
            Some(d) => due_arg_reads(raw, d),
        },
    }
}

pub open spec fn opt_view(m: Option<String>) -> Option<Seq<char>> {
    match m {
        Some(s) => Some(s@),
        None => None,
    }
}

pub open spec fn due_view(d: Option<Result<Option<i64>, String>>) -> Option<Result<Option<i64>, Seq<char>>> {
    match d {
        None => None,
        Some(Ok(x)) => Some(Ok(x)),
        Some(Err(m)) => Some(Err(m@)),
    }
}

proof fn lemma_changes_push(steps: Seq<EditStep>, s: EditStep)
    ensures
        changes_of(steps.push(s)) == changes_of(steps).push(change_of(s)),
{
    assert(changes_of(steps.push(s)) =~= changes_of(steps).push(change_of(s)));
}

/// The plan of an `edit_item` call for the item `id`, given what reading
/// its `due_date` argument gave.
pub fn plan_from(args: &JsonValue, id: u64, due: Option<Result<Option<i64>, String>>) -> (r: EditPlan)
    ensures
        r.id == id,
        plan_edit(*args, due_view(due)) == (changes_of(r.steps@), opt_view(r.failure)),
{
    let mut steps: Vec<EditStep> = Vec::new();
    let mut failure: Option<String> = None;
    assert(changes_of(steps@) =~= Seq::<Change>::empty());
    if let Some(v) = json_get(args, "description") {
        if let Some(d) = json_as_str(v) {
            let t = trimmed_string(d);
            if t.as_str().is_empty() {
                failure = Some(string_of("'description' must not be empty"));
            } else {
                proof { lemma_changes_push(steps@, EditStep::Description(t)); }
                steps.push(EditStep::Description(t));
            }
        }
    }
    assert((changes_of(steps@), opt_view(failure)) == plan_description(*args));
    let ghost p1 = plan_description(*args);
    if failure.is_none() {
        match parse_priority_arg(args) {
            Err(m) => {
                failure = Some(m);
            },
            Ok(Some(p)) => {
                proof { lemma_changes_push(steps@, EditStep::Priority(p)); }
                steps.push(EditStep::Priority(p));
            },
            Ok(None) => {},
        }
    }
    assert((changes_of(steps@), opt_view(failure)) == plan_priority(*args, p1));
    let ghost p2 = plan_priority(*args, p1);
    if failure.is_none() {
        match due {
            None => {},
            Some(Err(m)) => {
                failure = Some(m);
            },
            Some(Ok(d)) => {
                proof { lemma_changes_push(steps@, EditStep::DueDate(d)); }
                steps.push(EditStep::DueDate(d));
            },
        }
    }
    assert((changes_of(steps@), opt_view(failure)) == plan_due(due_view(due), p2));
    let ghost p3 = plan_due(due_view(due), p2);
    if failure.is_none() && json_get(args, "boards").is_some() {
        let boards = opt_string_vec(args, "boards");
        if boards.len() == 0 {
            failure = Some(string_of("'boards' must be a non-empty array of board names"));
        } else {
            proof { lemma_changes_push(steps@, EditStep::Boards(boards)); }
            steps.push(EditStep::Boards(boards));
        }
    }
    assert((changes_of(steps@), opt_view(failure)) == plan_boards(*args, p3));
    let ghost p4 = plan_boards(*args, p3);
    if failure.is_none() {
        if json_get(args, "tags").is_some() {
            let tags = opt_string_vec(args, "tags");
            proof { lemma_changes_push(steps@, EditStep::Tags(tags)); }
            steps.push(EditStep::Tags(tags));
        }
        if let Some(v) = json_get(args, "starred") {
            if let Some(b) = json_as_bool(v) {
                proof { lemma_changes_push(steps@, EditStep::Starred(b)); }
                steps.push(EditStep::Starred(b));
            }
        }
    }
    assert((changes_of(steps@), opt_view(failure)) == plan_tags_starred(*args, p4));
    if failure.is_none() && steps.len() == 0 {
        failure = Some(string_of("no editable fields provided (description, priority, due_date, boards, tags, starred)"));
    }
    EditPlan { id, steps, failure }
}

/// Plans an `edit_item` call: the id comes first and, without it, the call
/// is refused; the due date is read if it is given as a string.
pub fn edit_item_plan(args: &JsonValue) -> (r: Result<EditPlan, String>)
    ensures
        match get_u64(*args, "id"@) {
            None => r matches Err(m) && m@ == missing_arg_message("id"@),
            Some(id) => r matches Ok(plan) && plan.id == id && exists|due: Option<Result<Option<i64>, Seq<char>>>|
                due_reading(*args, due) && plan_edit(*args, due) == (changes_of(plan.steps@), opt_view(plan.failure)),
        },
{
    let id = arg_u64(args, "id")?;
    let due: Option<Result<Option<i64>, String>> = match json_get(args, "due_date") {
        Some(v) => match json_as_str(v) {
            Some(raw) => Some(parse_due_arg(raw)),
            None => None,
        },
        None => None,
    };
    assert(due_reading(*args, due_view(due)));
    Ok(plan_from(args, id, due))
}

/// The name under which a change is reported.
pub open spec fn change_name(c: Change) -> Seq<char> {
    match c {
        Change::Description(_) => "description"@,
        Change::Priority(_) => "priority"@,
        Change::DueDate(_) => "due_date"@,
        Change::Boards(_) => "boards"@,
        Change::Tags(_) => "tags"@,
        Change::Starred(_) => "starred"@,
    }
}

fn step_name(s: &EditStep) -> (r: &'static str)
    ensures
        r@ == change_name(change_of(*s)),
{
    match s {
        EditStep::Description(_) => "description",
        EditStep::Priority(_) => "priority",
        EditStep::DueDate(_) => "due_date",
        EditStep::Boards(_) => "boards",
        EditStep::Tags(_) => "tags",
        EditStep::Starred(_) => "starred",
    }
}

/// `r` is `{"id": id, "updated": [the names of the changes]}`.
pub open spec fn is_edit_result(r: JsonValue, id: u64, changes: Seq<Change>) -> bool {
    &&& r matches JsonValue::Object(es)
    &&& es@.len() == 2
    &&& es@[0].0@ == "id"@
    &&& es@[0].1 == uint_json(id)
    &&& es@[1].0@ == "updated"@
    &&& es@[1].1 matches JsonValue::Array(names)
    &&& names@.len() == changes.len()
    &&& forall|i: int| 0 <= i < names@.len() ==> as_str(#[trigger] names@[i]) == Some(change_name(changes[i]))
}

/// The result of an applied edit: `{"id": id, "updated": [names of the changes]}`.
pub fn edit_result(id: u64, steps: &Vec<EditStep>) -> (r: JsonValue)
    ensures
        is_edit_result(r, id, changes_of(steps@)),
{
    let mut names: Vec<JsonValue> = Vec::new();
    let mut i: usize = 0;
    while i < steps.len()
        invariant
            i <= steps.len(),
            names.len() == i,
            forall|j: int| 0 <= j < i ==> as_str(#[trigger] names@[j]) == Some(change_name(change_of(steps@[j]))),
        decreases steps.len() - i,
    {
        names.push(json_text(step_name(&steps[i])));
        i = i + 1;
    }
    JsonValue::Object(vec![json_member("id", json_u64(id)), json_member("updated", JsonValue::Array(names))])
}


/// The argument that asks for change `c` is there.
pub open spec fn provided(args: JsonValue, c: Change) -> bool {
    match c {
        Change::Description(_) => get_str(args, "description"@) is Some,
        Change::Priority(_) => get(args, "priority"@) is Some,
        Change::DueDate(_) => get_str(args, "due_date"@) is Some,
        Change::Boards(_) => get(args, "boards"@) is Some,
        Change::Tags(_) => get(args, "tags"@) is Some,
        Change::Starred(_) => get_bool(args, "starred"@) is Some,
    }
}

pub open spec fn all_provided(args: JsonValue, s: Seq<Change>) -> bool {
    forall|i: int| 0 <= i < s.len() ==> provided(args, #[trigger] s[i])
}

proof fn lemma_push_provided(args: JsonValue, s: Seq<Change>, c: Change)
    requires
        all_provided(args, s),
        provided(args, c),
    ensures
        all_provided(args, s.push(c)),
{
    assert forall|i: int| 0 <= i < s.push(c).len() implies provided(args, #[trigger] s.push(c)[i]) by {
        if i < s.len() {
            assert(s.push(c)[i] == s[i]);
        }
    }
}

/// An edit changes only the fields that its arguments name.
pub proof fn lemma_edit_changes_only_given_fields(args: JsonValue, due: Option<Result<Option<i64>, Seq<char>>>)
    requires
        due_reading(args, due),
    ensures
        all_provided(args, plan_edit(args, due).0),
{
    let p0 = plan_description(args);
    assert(all_provided(args, p0.0));
    let p1 = plan_priority(args, p0);
    if p0.1 is None {
        if let Ok(Some(q)) = priority_arg(args) {
            lemma_push_provided(args, p0.0, Change::Priority(q));
        }
    }
    assert(all_provided(args, p1.0));
    let p2 = plan_due(due, p1);
    if p1.1 is None {
        if let Some(Ok(d)) = due {
            lemma_push_provided(args, p1.0, Change::DueDate(d));
        }
    }
    assert(all_provided(args, p2.0));
    let p3 = plan_boards(args, p2);
    if p2.1 is None && get(args, "boards"@) is Some && string_list_arg(args, "boards"@).len() != 0 {
        lemma_push_provided(args, p2.0, Change::Boards(string_list_arg(args, "boards"@)));
    }
    assert(all_provided(args, p3.0));
    if p3.1 is None {
        let with_tags = if get(args, "tags"@) is Some {
            lemma_push_provided(args, p3.0, Change::Tags(string_list_arg(args, "tags"@)));
            p3.0.push(Change::Tags(string_list_arg(args, "tags"@)))
        } else {
            p3.0
        };
        if let Some(b) = get_bool(args, "starred"@) {
            lemma_push_provided(args, with_tags, Change::Starred(b));
        }
    }
}

} // verus!
