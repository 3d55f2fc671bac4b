//! The `list_items` tool: which items a listing keeps, in which order, and
//! how each item is shown.

use vstd::prelude::*;
use crate::due::format_due_date;
use crate::calendar::{near_range_edge, near_range_edge_millis};
use crate::json::{
    as_str, get_bool, get_str, json_as_bool, json_as_str, json_get, json_member, json_text,
    json_u64, uint_json, JsonValue,
};
use crate::task::{state_name, task_state_name, TaskState};
use crate::text::{chars_of, concat3, string_of, views_of};

verus! {

/// What `list_items` can keep by state or kind.
#[derive(Debug, Clone, Copy, PartialEq, Eq, Structural)]
pub enum ItemFilter {
    Pending,
    InProgress,
    Done,
    Task,
    Note,
    Starred,
}

/// The filter called `name`.
pub open spec fn filter_named(name: Seq<char>) -> Option<ItemFilter> {
    if name == "pending"@ {
        Some(ItemFilter::Pending)
    } else if name == "in_progress"@ {
        Some(ItemFilter::InProgress)
    } else if name == "done"@ {
        Some(ItemFilter::Done)
    } else if name == "task"@ {
        Some(ItemFilter::Task)
    } else if name == "note"@ {
        Some(ItemFilter::Note)
    } else if name == "starred"@ {
        Some(ItemFilter::Starred)
    } else {
        None
    }
}

pub open spec fn invalid_filter_message(name: Seq<char>) -> Seq<char> {
    "invalid filter '"@ + name
        + "' (use one of [\"pending\", \"in_progress\", \"done\", \"task\", \"note\", \"starred\"])"@
}

/// Checks the filter argument of a listing.
pub fn check_filter(name: Option<&str>) -> (r: Result<Option<ItemFilter>, String>)
    ensures
        match name {
            None => r matches Ok(f) && f is None,
            Some(n) => match filter_named(n@) {
                Some(f) => r matches Ok(g) && g == Some(f),
                None => r matches Err(m) && m@ == invalid_filter_message(n@),
            },
        },
{
    let n = match name {
        None => return Ok(None),
        Some(n) => n,
    };
    if crate::json::text_eq(n, "pending") {
        Ok(Some(ItemFilter::Pending))
    } else if crate::json::text_eq(n, "in_progress") {
        Ok(Some(ItemFilter::InProgress))
    } else if crate::json::text_eq(n, "done") {
        Ok(Some(ItemFilter::Done))
    } else if crate::json::text_eq(n, "task") {
        Ok(Some(ItemFilter::Task))
    } else if crate::json::text_eq(n, "note") {
        Ok(Some(ItemFilter::Note))
    } else if crate::json::text_eq(n, "starred") {
        Ok(Some(ItemFilter::Starred))
    } else {
        Err(concat3(
            "invalid filter '",
            n,
            "' (use one of [\"pending\", \"in_progress\", \"done\", \"task\", \"note\", \"starred\"])",
        ))
    }
}

/// The arguments of `list_items`.
#[derive(Debug)]
pub struct ListArgs {
    /// List the archive instead of the active items.
    pub archived: bool,
    pub filter: Option<String>,
    pub board: Option<String>,
    pub tag: Option<String>,
    pub query: Option<String>,
}

pub open spec fn opt_seq(s: Option<String>) -> Option<Seq<char>> {
    match s {
        Some(x) => Some(x@),
        None => None,
    }
}

fn str_arg(args: &JsonValue, key: &str) -> (r: Option<String>)
    ensures
        opt_seq(r) == get_str(*args, key@),
{
    match json_get(args, key) {
        Some(v) => match json_as_str(v) {
            Some(s) => Some(string_of(s)),
            None => None,
        },
        None => None,
    }
}

/// Reads the arguments of `list_items` (all optional; `archived` defaults to false).
pub fn list_args(args: &JsonValue) -> (r: ListArgs)
    ensures
        r.archived == match get_bool(*args, "archived"@) {
            Some(b) => b,
            None => false,
        },
        opt_seq(r.filter) == get_str(*args, "filter"@),
        opt_seq(r.board) == get_str(*args, "board"@),
        opt_seq(r.tag) == get_str(*args, "tag"@),
        opt_seq(r.query) == get_str(*args, "query"@),
{
    let archived = match json_get(args, "archived") {
        Some(v) => match json_as_bool(v) {
            Some(b) => b,
            None => false,
        },
        None => false,
    };
    ListArgs {
        archived,
        filter: str_arg(args, "filter"),
        board: str_arg(args, "board"),
        tag: str_arg(args, "tag"),
        query: str_arg(args, "query"),
    }
}

/// The task fields of a listed task.
#[derive(Debug)]
pub struct TaskFields {
    pub is_complete: bool,
    pub in_progress: bool,
    pub priority: u8,
    pub due_date: Option<i64>,
}

/// An item as a listing sees it.
#[derive(Debug)]
pub struct ListedItem {
    pub id: u64,
    pub is_task: bool,
    pub description: String,
    pub boards: Vec<String>,
    pub tags: Vec<String>,
    pub starred: bool,
    /// The creation date text.
    pub created: String,
    /// The task fields, for a task.
    pub task: Option<TaskFields>,
    /// The body, for a note that has one.
    pub note_body: Option<String>,
    /// Whether the item is on the board the listing asks for, as the store
    /// compares board names (true when no board is asked for).
    pub on_board: bool,
    /// Whether the item carries the tag the listing asks for, as the store
    /// compares tags (true when no tag is asked for).
    pub has_tag: bool,
}

/// The state of listed task fields, as `TaskState` names it.
pub open spec fn fields_state(t: TaskFields) -> TaskState {
    if t.is_complete {
        TaskState::Done
    } else if t.in_progress {
        TaskState::InProgress
    } else {
        TaskState::Pending
    }
}

/// An item passes the state or kind filter `f`; the state filters keep tasks only.
pub open spec fn passes_filter(item: ListedItem, f: ItemFilter) -> bool {
    match f {
        ItemFilter::Task => item.is_task,
        ItemFilter::Note => !item.is_task,
        ItemFilter::Starred => item.starred,
        ItemFilter::Pending => item.task matches Some(t) && !t.is_complete && !t.in_progress,
        ItemFilter::InProgress => item.task matches Some(t) && t.in_progress,
        ItemFilter::Done => item.task matches Some(t) && t.is_complete,
    }
}

/// The lowercase form of a text, as `str::to_lowercase` computes it.
pub uninterp spec fn lowercase_text(s: Seq<char>) -> Seq<char>;

/// `str::to_lowercase` (full Unicode lowercasing), its result named by `lowercase_text`.
#[verifier::external_body]
fn to_lowercase(s: &str) -> (r: String)
    ensures
        r@ == lowercase_text(s@),
{
    s.to_lowercase()
}

/// `needle` occurs in `hay`.
pub open spec fn contains_text(hay: Seq<char>, needle: Seq<char>) -> bool {
    exists|i: int| 0 <= i <= hay.len() - needle.len() && #[trigger] hay.subrange(i, i + needle.len()) == needle
}

/// Whether `needle` occurs in `hay`.
pub fn text_contains(hay: &str, needle: &str) -> (r: bool)
    ensures
        r == contains_text(hay@, needle@),
{
    let h = chars_of(hay);
    let n = chars_of(needle);
    if n.len() > h.len() {
        return false;
    }
    let mut i: usize = 0;
    while i <= h.len() - n.len()
        invariant
            h@ == hay@,
            n@ == needle@,
            n.len() <= h.len(),
            i <= h.len() - n.len() + 1,
            forall|k: int| 0 <= k < i ==> #[trigger] h@.subrange(k, k + n.len()) != n@,
        decreases h.len() - i,
    {
        let mut j: usize = 0;
        while j < n.len() && h[i + j] == n[j]
            invariant
                h@ == hay@,
                n@ == needle@,
                i + n.len() <= h.len(),
                j <= n.len(),
                forall|k: int| 0 <= k < j ==> h@[i + k] == n@[k],
            decreases n.len() - j,
        {
            j = j + 1;
        }
        if j == n.len() {
            assert(h@.subrange(i as int, i + n.len()) =~= n@);
            return true;
        }
        assert(h@.subrange(i as int, i + n.len())[j as int] != n@[j as int]);
        i = i + 1;
    }
    assert forall|k: int| 0 <= k <= h@.len() - n@.len() implies #[trigger] h@.subrange(k, k + n@.len()) != n@ by {
        assert(k < i);
    }
    false
}

/// What a listing asks for, as the contracts speak of it: the filter, whether
/// a board and a tag are asked for, and the lowercase query.
pub struct Selection {
    pub filter: Option<ItemFilter>,
    pub board: bool,
    pub tag: bool,
    pub query: Option<Seq<char>>,
}

/// A listing keeps an item when it passes the filter, is on the board, has
/// the tag, and holds the query (ignoring case) in its description or note body.
pub open spec fn keeps(sel: Selection, item: ListedItem) -> bool {
    &&& (sel.filter matches Some(f) ==> passes_filter(item, f))
    &&& (sel.board ==> item.on_board)
    &&& (sel.tag ==> item.has_tag)
    &&& (sel.query matches Some(q) ==> {
        ||| contains_text(lowercase_text(item.description@), q)
        ||| (item.note_body matches Some(b) && contains_text(lowercase_text(b@), q))
    })
}

pub open spec fn keep_pred(sel: Selection) -> spec_fn(ListedItem) -> bool {
    |item: ListedItem| keeps(sel, item)
}

/// The ids are in ascending order.
pub open spec fn sorted_by_id(s: Seq<ListedItem>) -> bool {
    forall|i: int, j: int| 0 <= i <= j < s.len() ==> s[i].id <= s[j].id
}

fn passes(item: &ListedItem, f: ItemFilter) -> (r: bool)
    ensures
        r == passes_filter(*item, f),
{
    match f {
        ItemFilter::Task => item.is_task,
        ItemFilter::Note => !item.is_task,
        ItemFilter::Starred => item.starred,
        ItemFilter::Pending => match &item.task {
            Some(t) => !t.is_complete && !t.in_progress,
            None => false,
        },
        ItemFilter::InProgress => match &item.task {
            Some(t) => t.in_progress,
            None => false,
        },
        ItemFilter::Done => match &item.task {
            Some(t) => t.is_complete,
            None => false,
        },
    }
}

fn keep(item: &ListedItem, filter: Option<ItemFilter>, board: bool, tag: bool, query: &Option<String>, sel: Ghost<Selection>) -> (r: bool)
    requires
        sel@ == (Selection { filter, board, tag, query: opt_seq(*query) }),
    ensures
        r == keeps(sel@, *item),
{
    if let Some(f) = filter {
        if !passes(item, f) {
            return false;
        }
    }
    if board && !item.on_board {
        return false;
    }
    if tag && !item.has_tag {
        return false;
    }
    if let Some(q) = query {
        let in_desc = text_contains(to_lowercase(item.description.as_str()).as_str(), q.as_str());
        let in_body = match &item.note_body {
            Some(b) => text_contains(to_lowercase(b.as_str()).as_str(), q.as_str()),
            None => false,
        };
        if !in_desc && !in_body {
            return false;
        }
    }
    true
}

/// Inserts `item` into the id-sorted `out`, after the items with the same or a smaller id.
fn insert_by_id(out: &mut Vec<ListedItem>, item: ListedItem)
    requires
        sorted_by_id(old(out)@),
    ensures
        sorted_by_id(final(out)@),
        final(out)@.to_multiset() == old(out)@.to_multiset().insert(item),
{
    let mut k: usize = 0;
    while k < out.len() && out[k].id <= item.id
        invariant
            out@ == old(out)@,
            k <= out.len(),
            forall|j: int| 0 <= j < k ==> out@[j].id <= item.id,
        decreases out.len() - k,
    {
        k = k + 1;
    }
    let ghost before = out@;
    proof {
        vstd::seq_lib::to_multiset_insert(before, k as int, item);
    }
    out.insert(k, item);
    assert forall|i: int, j: int| 0 <= i <= j < out@.len() implies out@[i].id <= out@[j].id by {
        if j < k {
        } else if i > k {
            assert(out@[i] == before[i - 1] && out@[j] == before[j - 1]);
        } else if i == k && j == k {
        } else if i == k {
            assert(out@[j] == before[j - 1]);
            assert(k < before.len() ==> before[k as int].id > item.id);
            assert(before[k as int].id <= before[j - 1].id);
        } else if j == k {
            assert(out@[i] == before[i]);
        } else {
            assert(out@[i] == before[i] && out@[j] == before[j - 1]);
        }
    }
}


/// The lowercase query, if any.
pub open spec fn lowercase_query(query: Option<Seq<char>>) -> Option<Seq<char>> {
    match query {
        Some(q) => Some(lowercase_text(q)),
        None => None,
    }
}

/// Keeps the items that the listing asks for and orders them by id (items
/// with the same id stay in the order given).
pub fn select_items(items: Vec<ListedItem>, filter: Option<ItemFilter>, board: bool, tag: bool, query: Option<&str>) -> (r: Vec<ListedItem>)
    ensures
        sorted_by_id(r@),
        r@.to_multiset() == items@.filter(
            keep_pred(Selection { filter, board, tag, query: lowercase_query(match query { Some(q) => Some(q@), None => None }) }),
        ).to_multiset(),
{
    let lowered: Option<String> = match query {
        Some(q) => Some(to_lowercase(q)),
        None => None,
    };
    let ghost sel = Selection { filter, board, tag, query: opt_seq(lowered) };
    assert(opt_seq(lowered) == lowercase_query(match query { Some(q) => Some(q@), None => None }));
    let ghost all = items@;
    let n = items.len();
    let mut rest = items;
    let mut out: Vec<ListedItem> = Vec::new();
    let mut k: usize = 0;
    proof {
        reveal_with_fuel(Seq::filter, 1);
        assert(all.take(0) =~= Seq::<ListedItem>::empty());
        assert(out@ =~= Seq::<ListedItem>::empty());
    }
    while k < n
        invariant
            sel == (Selection { filter, board, tag, query: opt_seq(lowered) }),
            k <= n == all.len(),
            rest@ == all.subrange(k as int, n as int),
            sorted_by_id(out@),
            out@.to_multiset() == all.take(k as int).filter(keep_pred(sel)).to_multiset(),
        decreases n - k,
    {
        let item = rest.remove(0);
        assert(item == all[k as int]);
        assert(all.take(k + 1).drop_last() =~= all.take(k as int));
        assert(all.take(k + 1).last() == item);
        proof {
            reveal_with_fuel(Seq::filter, 1);
        }
        if keep(&item, filter, board, tag, &lowered, Ghost(sel)) {
            proof {
                vstd::seq_lib::to_multiset_build(all.take(k as int).filter(keep_pred(sel)), item);
            }
            insert_by_id(&mut out, item);
        }
        assert(rest@ =~= all.subrange(k + 1, n as int));
        k = k + 1;
    }
    assert(all.take(n as int) =~= all);
    out
}


/// `r` is an array of these strings.
pub open spec fn is_string_array(r: JsonValue, strings: Seq<Seq<char>>) -> bool {
    &&& r matches JsonValue::Array(items)
    &&& items@.len() == strings.len()
    &&& forall|i: int| 0 <= i < strings.len() ==> as_str(#[trigger] items@[i]) == Some(strings[i])
}

/// A JSON array of strings.
pub fn strings_json(v: &Vec<String>) -> (r: JsonValue)
    ensures
        is_string_array(r, views_of(v@)),
{
    let mut items: Vec<JsonValue> = Vec::new();
    let mut i: usize = 0;
    while i < v.len()
        invariant
            i <= v.len(),
            items.len() == i,
            forall|j: int| 0 <= j < i ==> as_str(#[trigger] items@[j]) == Some(v@[j]@),
        decreases v.len() - i,
    {
        items.push(json_text(v[i].as_str()));
        i = i + 1;
    }
    JsonValue::Array(items)
}

/// `text` is how the due date `millis` shows in local time: blank when the
/// instant cannot be represented, otherwise the text of the wall time that
/// the instant reads as in the local time zone.
pub open spec fn shows_due(millis: i64, text: Seq<char>) -> bool {
    &&& !crate::calendar::millis_in_range(millis as int) ==> text == Seq::<char>::empty()
    &&& crate::calendar::millis_in_range(millis as int) ==> exists|l: crate::calendar::LocalDateTime|
        crate::calendar::is_local_reading(millis as int, l) && text == crate::due::due_text(l)
}

/// The member at position `i` of an object has key `k`.
pub open spec fn key_at(es: Seq<(String, JsonValue)>, i: int, k: Seq<char>) -> bool {
    0 <= i < es.len() && es[i].0@ == k
}

/// `r` shows `item`: id, type, description, boards, tags, starred and the
/// creation date; for a task also its state, priority and, if it has one,
/// its due date.
pub open spec fn is_item_json(r: JsonValue, item: ListedItem) -> bool {
    &&& r matches JsonValue::Object(es)
    &&& key_at(es@, 0, "id"@) && es@[0].1 == uint_json(item.id)
    &&& key_at(es@, 1, "type"@) && as_str(es@[1].1) == Some(if item.is_task { "task"@ } else { "note"@ })
    &&& key_at(es@, 2, "description"@) && as_str(es@[2].1) == Some(item.description@)
    &&& key_at(es@, 3, "boards"@) && is_string_array(es@[3].1, views_of(item.boards@))
    &&& key_at(es@, 4, "tags"@) && is_string_array(es@[4].1, views_of(item.tags@))
    &&& key_at(es@, 5, "starred"@) && es@[5].1 == JsonValue::Bool(item.starred)
    &&& key_at(es@, 6, "created"@) && as_str(es@[6].1) == Some(item.created@)
    &&& match item.task {
        None => es@.len() == 7,
        Some(t) => {
            &&& key_at(es@, 7, "state"@) && as_str(es@[7].1) == Some(state_name(fields_state(t)))
            &&& key_at(es@, 8, "priority"@) && es@[8].1 == uint_json(t.priority as u64)
            &&& match t.due_date {
                None => es@.len() == 9,
                Some(m) => es@.len() == 10 && key_at(es@, 9, "due_date"@) && (es@[9].1 matches JsonValue::Str(s) && shows_due(m, s@)),
            }
        },
    }
}

/// The due dates of a listed item can be shown in any time zone.
pub open spec fn due_showable(item: ListedItem) -> bool {
    item.task matches Some(t) ==> (t.due_date matches Some(m) ==> !near_range_edge(m as int))
}

/// Shows an item of a listing.
pub fn item_to_json(item: &ListedItem) -> (r: JsonValue)
    requires
        due_showable(*item),
    ensures
        is_item_json(r, *item),
{
    let mut es: Vec<(String, JsonValue)> = vec![
        json_member("id", json_u64(item.id)),
        json_member("type", json_text(if item.is_task { "task" } else { "note" })),
        json_member("description", json_text(item.description.as_str())),
        json_member("boards", strings_json(&item.boards)),
        json_member("tags", strings_json(&item.tags)),
        json_member("starred", JsonValue::Bool(item.starred)),
        json_member("created", json_text(item.created.as_str())),
    ];
    if let Some(t) = &item.task {
        let state = if t.is_complete {
            TaskState::Done
        } else if t.in_progress {
            TaskState::InProgress
        } else {
            TaskState::Pending
        };
        es.push(json_member("state", json_text(task_state_name(state))));
        es.push(json_member("priority", json_u64(t.priority as u64)));
        if let Some(m) = t.due_date {
            let shown = format_due_date(m);
            es.push(json_member("due_date", JsonValue::Str(shown)));
        }
    }
    JsonValue::Object(es)
}

/// Shows the items of a listing, in order.
pub fn items_json(items: &Vec<ListedItem>) -> (r: JsonValue)
    requires
        forall|i: int| 0 <= i < items@.len() ==> due_showable(#[trigger] items@[i]),
    ensures
        r matches JsonValue::Array(shown) && shown@.len() == items@.len() && forall|i: int|
            0 <= i < items@.len() ==> is_item_json(#[trigger] shown@[i], items@[i]),
{
    let mut shown: Vec<JsonValue> = Vec::new();
    let mut i: usize = 0;
    while i < items.len()
        invariant
            forall|i: int| 0 <= i < items@.len() ==> due_showable(#[trigger] items@[i]),
            i <= items.len(),
            shown.len() == i,
            forall|j: int| 0 <= j < i ==> is_item_json(#[trigger] shown@[j], items@[j]),
        decreases items.len() - i,
    {
        shown.push(item_to_json(&items[i]));
        i = i + 1;
    }
    JsonValue::Array(shown)
}


/// `r` shows, in order, the items of `data` that the listing keeps, ordered by id.
pub open spec fn is_listing(r: JsonValue, data: Seq<ListedItem>, sel: Selection) -> bool {
    exists|kept: Seq<ListedItem>|
        {
            &&& sorted_by_id(kept)
            &&& kept.to_multiset() == data.filter(keep_pred(sel)).to_multiset()
            &&& r matches JsonValue::Array(shown)
            &&& shown@.len() == kept.len()
            &&& forall|i: int| 0 <= i < kept.len() ==> is_item_json(#[trigger] shown@[i], kept[i])
        }
}

/// The selection that the arguments of a listing ask for.
pub open spec fn selection_of(args: ListArgs) -> Selection {
    Selection {
        filter: match opt_seq(args.filter) {
            Some(f) => filter_named(f),
            None => None,
        },
        board: args.board is Some,
        tag: args.tag is Some,
        query: lowercase_query(opt_seq(args.query)),
    }
}

/// The filter argument names no filter.
pub open spec fn filter_rejected(args: ListArgs) -> bool {
    opt_seq(args.filter) matches Some(f) && filter_named(f) is None
}

/// Every item that the listing shows has a due date that can be shown in
/// local time (nothing is shown when the filter is rejected).
pub open spec fn listing_showable_spec(args: ListArgs, items: Seq<ListedItem>) -> bool {
    !filter_rejected(args) ==> forall|i: int|
        #![trigger items[i]]
        0 <= i < items.len() && keeps(selection_of(args), items[i]) ==> due_showable(items[i])
}

/// Whether every item that the listing of `items` shows has a due date that
/// can be shown in local time.
pub fn listing_showable(args: &ListArgs, items: &Vec<ListedItem>) -> (r: bool)
    ensures
        r == listing_showable_spec(*args, items@),
{
    let filter_name: Option<&str> = match &args.filter {
        Some(f) => Some(f.as_str()),
        None => None,
    };
    let filter = match check_filter(filter_name) {
        Ok(f) => f,
        Err(_) => return true,
    };
    let lowered: Option<String> = match &args.query {
        Some(q) => Some(to_lowercase(q.as_str())),
        None => None,
    };
    let board = args.board.is_some();
    let tag = args.tag.is_some();
    let ghost sel = Selection { filter, board, tag, query: opt_seq(lowered) };
    assert(sel == selection_of(*args));
    let mut i: usize = 0;
    while i < items.len()
        invariant
            sel == selection_of(*args),
            sel == (Selection { filter, board, tag, query: opt_seq(lowered) }),
            !filter_rejected(*args),
            i <= items.len(),
            forall|j: int|
                #![trigger items@[j]]
                0 <= j < i && keeps(sel, items@[j]) ==> due_showable(items@[j]),
        decreases items.len() - i,
    {
        if keep(&items[i], filter, board, tag, &lowered, Ghost(sel)) {
            if let Some(t) = &items[i].task {
                if let Some(m) = t.due_date {
                    if near_range_edge_millis(m) {
                        return false;
                    }
                }
            }
        }
        i = i + 1;
    }
    true
}

/// The result of `list_items` once the store has been read (`data`, or the
/// store's error): the store's error first, then an unknown filter, and
/// otherwise the kept items, shown in order of id. The due dates of the items
/// shown must be showable in local time.
pub fn list_items(args: &ListArgs, data: Result<Vec<ListedItem>, String>) -> (r: Result<JsonValue, String>)
    requires
        data matches Ok(items) ==> listing_showable_spec(*args, items@),
    ensures
        data matches Err(e) ==> r matches Err(m) && m@ == e@,
        data is Ok ==> match opt_seq(args.filter) {
            Some(f) if filter_named(f) is None => r matches Err(m) && m@ == invalid_filter_message(f),
            _ => r matches Ok(shown) && data matches Ok(items) && is_listing(shown, items@, selection_of(*args)),
        },
{
    let items = match data {
        Err(e) => return Err(e),
        Ok(items) => items,
    };
    let ghost all = items@;
    let filter_name: Option<&str> = match &args.filter {
        Some(f) => Some(f.as_str()),
        None => None,
    };
    let filter = check_filter(filter_name)?;
    let query: Option<&str> = match &args.query {
        Some(q) => Some(q.as_str()),
        None => None,
    };
    let ghost sel = Selection {
        filter,
        board: args.board.is_some(),
        tag: args.tag.is_some(),
        query: lowercase_query(match query { Some(q) => Some(q@), None => None }),
    };
    assert(sel == selection_of(*args));
    let kept = select_items(items, filter, args.board.is_some(), args.tag.is_some(), query);
    assert forall|i: int| 0 <= i < kept@.len() implies due_showable(#[trigger] kept@[i]) by {
        broadcast use vstd::seq_lib::group_filter_ensures;
        let x = kept@[i];
        let fs = all.filter(keep_pred(sel));
        assert(kept@.contains(x));
        vstd::seq_lib::to_multiset_contains(kept@, x);
        vstd::seq_lib::to_multiset_contains(fs, x);
        let k = choose|k: int| 0 <= k < fs.len() && fs[k] == x;
        assert(keep_pred(sel)(fs[k]));
        lemma_filter_sub(all, keep_pred(sel), x);
        let j = choose|j: int| 0 <= j < all.len() && all[j] == x;
        assert(keeps(sel, all[j]));
    }
    let shown = items_json(&kept);
    Ok(shown)
}

/// With only a filter given, a listing keeps an item by the item's own kind
/// and state: `done` the completed tasks, `pending` the tasks neither
/// complete nor in progress, `in_progress` the tasks in progress, `task` the
/// tasks, `note` the notes and `starred` the starred items.
pub proof fn lemma_filters_keep_by_state(args: ListArgs, item: ListedItem)
    requires
        args.board is None,
        args.tag is None,
        args.query is None,
    ensures
        opt_seq(args.filter) == Some("done"@) ==> (keeps(selection_of(args), item) <==> (item.task matches Some(t)
            && t.is_complete)),
        opt_seq(args.filter) == Some("pending"@) ==> (keeps(selection_of(args), item) <==> (item.task matches Some(t)
            && !t.is_complete && !t.in_progress)),
        opt_seq(args.filter) == Some("in_progress"@) ==> (keeps(selection_of(args), item) <==> (item.task matches Some(
            t,
        ) && t.in_progress)),
        opt_seq(args.filter) == Some("task"@) ==> (keeps(selection_of(args), item) <==> item.is_task),
        opt_seq(args.filter) == Some("note"@) ==> (keeps(selection_of(args), item) <==> !item.is_task),
        opt_seq(args.filter) == Some("starred"@) ==> (keeps(selection_of(args), item) <==> item.starred),
        opt_seq(args.filter) is None ==> keeps(selection_of(args), item),
{
    reveal_strlit("pending");
    reveal_strlit("in_progress");
    reveal_strlit("done");
    reveal_strlit("task");
    reveal_strlit("note");
    reveal_strlit("starred");
    assert("pending"@.len() == 7 && "in_progress"@.len() == 11 && "done"@.len() == 4);
    assert("done"@ != "pending"@ && "done"@ != "in_progress"@);
    assert("in_progress"@ != "pending"@);
    assert(filter_named("done"@) == Some(ItemFilter::Done));
    assert(filter_named("in_progress"@) == Some(ItemFilter::InProgress));
    assert("task"@[0] != "done"@[0] && "note"@[0] != "done"@[0] && "note"@[0] != "task"@[0]);
    assert(filter_named("task"@) == Some(ItemFilter::Task));
    assert(filter_named("note"@) == Some(ItemFilter::Note));
    assert(filter_named("starred"@) == Some(ItemFilter::Starred)) by {
        assert("starred"@[0] != "pending"@[0]);
    }
}

/// An element of a filtered sequence is an element of the sequence.
proof fn lemma_filter_sub(s: Seq<ListedItem>, p: spec_fn(ListedItem) -> bool, x: ListedItem)
    requires
        s.filter(p).contains(x),
    ensures
        s.contains(x),
    decreases s.len(),
{
    reveal_with_fuel(Seq::filter, 1);
    if s.len() > 0 {
        let rest = s.drop_last();
        if p(s.last()) && x == s.last() {
            assert(s[s.len() - 1] == x);
        } else {
            if p(s.last()) {
                let k = choose|k: int| 0 <= k < s.filter(p).len() && s.filter(p)[k] == x;
                assert(rest.filter(p).push(s.last())[k] == x);
                if k < rest.filter(p).len() {
                    assert(rest.filter(p)[k] == x);
                }
            }
            lemma_filter_sub(rest, p, x);
            let k2 = choose|k: int| 0 <= k < rest.len() && rest[k] == x;
            assert(s[k2] == x);
        }
    }
}

} // verus!
