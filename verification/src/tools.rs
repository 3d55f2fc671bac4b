//! The MCP tools: their schemas, the reading of their arguments, and the
//! shape of their results.

use vstd::prelude::*;
use crate::due::{due_parse_result, parse_due_date};
use crate::json::{
    as_str, as_u64, get, get_array, get_str, get_u64, json_as_array, json_as_str, json_as_u64,
    json_get, json_member, json_text, json_text_of, json_u64, take_member, to_json_text, text_eq, uint_json, JsonValue,
};
use crate::schema::tool_names;
pub use crate::schema::definitions;
use crate::text::{
    chars_of, concat3, eq_ignore_ascii_case, slice_eq_ignore_ascii_case, string_of, trim, trim_bounds,
    views_of,
};

verus! {

/// The message for a missing or mistyped argument.
pub open spec fn missing_arg_message(key: Seq<char>) -> Seq<char> {
    "missing or invalid '"@ + key + "'"@
}

/// Reads the non-negative integer argument `key`.
pub fn arg_u64(args: &JsonValue, key: &str) -> (r: Result<u64, String>)
    ensures
        match r {
            Ok(n) => get_u64(*args, key@) == Some(n),
            Err(m) => get_u64(*args, key@) is None && m@ == missing_arg_message(key@),
        },
{
    match json_get(args, key) {
        Some(v) => match json_as_u64(v) {
            Some(n) => return Ok(n),
            None => {},
        },
        None => {},
    }
    Err(concat3("missing or invalid '", key, "'"))
}

/// Reads the string argument `key`.
pub fn arg_str<'a>(args: &'a JsonValue, key: &str) -> (r: Result<&'a str, String>)
    ensures
        match r {
            Ok(s) => get_str(*args, key@) == Some(s@),
            Err(m) => get_str(*args, key@) is None && m@ == missing_arg_message(key@),
        },
{
    match json_get(args, key) {
        Some(v) => match json_as_str(v) {
            Some(s) => return Ok(s),
            None => {},
        },
        None => {},
    }
    Err(concat3("missing or invalid '", key, "'"))
}

/// The strings among `items`, in order.
pub open spec fn strings_among(items: Seq<JsonValue>) -> Seq<Seq<char>> {
    items.filter_map(|v: JsonValue| as_str(v))
}

/// The non-negative integers among `items`, in order.
pub open spec fn u64s_among(items: Seq<JsonValue>) -> Seq<u64> {
    items.filter_map(|v: JsonValue| as_u64(v))
}

/// The strings of the array argument `key` (other elements skipped); empty
/// when the argument is missing or not an array.
pub open spec fn string_list_arg(args: JsonValue, key: Seq<char>) -> Seq<Seq<char>> {
    match get_array(args, key) {
        Some(items) => strings_among(items),
        None => Seq::empty(),
    }
}

/// The non-negative integers of the array argument `key` (other elements
/// skipped); empty when the argument is missing or not an array.
pub open spec fn id_list_arg(args: JsonValue, key: Seq<char>) -> Seq<u64> {
    match get_array(args, key) {
        Some(items) => u64s_among(items),
        None => Seq::empty(),
    }
}

/// Reads the strings of the optional array argument `key`.
pub fn opt_string_vec(args: &JsonValue, key: &str) -> (r: Vec<String>)
    ensures
        views_of(r@) == string_list_arg(*args, key@),
{
    let mut out: Vec<String> = Vec::new();
    match json_get(args, key) {
        Some(v) => match json_as_array(v) {
            Some(items) => {
                let mut i: usize = 0;
                while i < items.len()
                    invariant
                        i <= items.len(),
                        views_of(out@) == strings_among(items@.take(i as int)),
                    decreases items.len() - i,
                {
                    assert(items@.take(i + 1).drop_last() =~= items@.take(i as int));
                    if let Some(s) = json_as_str(&items[i]) {
                        out.push(string_of(s));
                    }
                    assert(views_of(out@) =~= strings_among(items@.take(i + 1)));
                    i = i + 1;
                }
                assert(items@.take(items.len() as int) =~= items@);
            },
            None => {
                assert(views_of(out@) =~= Seq::<Seq<char>>::empty());
            },
        },
        None => {
            assert(views_of(out@) =~= Seq::<Seq<char>>::empty());
        },
    }
    out
}

/// The message for a missing or empty id list.
pub open spec fn ids_message(key: Seq<char>) -> Seq<char> {
    "'"@ + key + "' must be a non-empty array of item ids"@
}

/// Reads the non-empty id list argument `key`.
pub fn arg_ids(args: &JsonValue, key: &str) -> (r: Result<Vec<u64>, String>)
    ensures
        match r {
            Ok(ids) => ids@ == id_list_arg(*args, key@) && ids@.len() > 0,
            Err(m) => id_list_arg(*args, key@).len() == 0 && m@ == ids_message(key@),
        },
{
    let mut ids: Vec<u64> = Vec::new();
    match json_get(args, key) {
        Some(v) => match json_as_array(v) {
            Some(items) => {
                let mut i: usize = 0;
                while i < items.len()
                    invariant
                        i <= items.len(),
                        ids@ == u64s_among(items@.take(i as int)),
                    decreases items.len() - i,
                {
                    assert(items@.take(i + 1).drop_last() =~= items@.take(i as int));
                    if let Some(n) = json_as_u64(&items[i]) {
                        ids.push(n);
                    }
                    i = i + 1;
                }
                assert(items@.take(items.len() as int) =~= items@);
            },
            None => {},
        },
        None => {},
    }
    if ids.len() == 0 {
        Err(concat3("'", key, "' must be a non-empty array of item ids"))
    } else {
        Ok(ids)
    }
}

/// The priority argument, if given, must be 1, 2 or 3.
pub open spec fn priority_arg(args: JsonValue) -> Result<Option<u8>, Seq<char>> {
    match get(args, "priority"@) {
        None => Ok(None),
        Some(v) => match as_u64(v) {
            Some(p) => if 1 <= p <= 3 {
                Ok(Some(p as u8))
            } else {
                Err("'priority' must be 1, 2 or 3"@)
            },
            None => Err("'priority' must be 1, 2 or 3"@),
        },
    }
}

/// Reads the optional priority argument.
pub fn parse_priority_arg(args: &JsonValue) -> (r: Result<Option<u8>, String>)
    ensures
        match r {
            Ok(p) => priority_arg(*args) == Ok::<Option<u8>, Seq<char>>(p),
            Err(m) => priority_arg(*args) == Err::<Option<u8>, Seq<char>>(m@),
        },
{
    match json_get(args, "priority") {
        None => Ok(None),
        Some(v) => match json_as_u64(v) {
            Some(p) => if 1 <= p && p <= 3 {
                Ok(Some(p as u8))
            } else {
                Err(string_of("'priority' must be 1, 2 or 3"))
            },
            None => Err(string_of("'priority' must be 1, 2 or 3")),
        },
    }
}

/// The message for a due date that does not parse.
pub open spec fn due_arg_message(raw: Seq<char>) -> Seq<char> {
    "invalid due date '"@ + raw + "' (use YYYY-MM-DD, today, tomorrow or none)"@
}

/// What reading the due-date argument `raw` gives: no due date for `none`
/// (in any case); otherwise the instant that `parse_due_date` gives, or the
/// message for a text that it gives nothing for.
pub open spec fn due_arg_reads(raw: Seq<char>, d: Result<Option<i64>, Seq<char>>) -> bool {
    if eq_ignore_ascii_case(raw, "none"@) {
        d == Ok::<Option<i64>, Seq<char>>(None)
    } else {
        match d {
            Ok(Some(m)) => due_parse_result(raw, Some(m)),
            Ok(None) => false,
            Err(msg) => msg == due_arg_message(raw) && due_parse_result(raw, None),
        }
    }
}

/// Reads a due-date argument: `none` (in any case) clears the due date,
/// anything else must parse as a due date.
pub fn parse_due_arg(raw: &str) -> (r: Result<Option<i64>, String>)
    ensures
        due_arg_reads(
            raw@,
            match r {
                Ok(d) => Ok(d),
                Err(m) => Err(m@),
            },
        ),
{
    let cs = chars_of(raw);
    assert(cs@.subrange(0, cs.len() as int) =~= raw@);
    if slice_eq_ignore_ascii_case(&cs, 0, cs.len(), "none") {
        return Ok(None);
    }
    match parse_due_date(raw) {
        Some(m) => Ok(Some(m)),
        None => Err(concat3("invalid due date '", raw, "' (use YYYY-MM-DD, today, tomorrow or none)")),
    }
}


/// The tools the server offers.
#[derive(Debug, Clone, Copy, PartialEq, Eq, Structural)]
pub enum ToolName {
    ListItems,
    ListBoards,
    CreateTask,
    CreateNote,
    SetTaskState,
    EditItem,
    DeleteItems,
    RestoreItems,
}

/// The position of a tool in the tool list.
pub open spec fn tool_position(t: ToolName) -> int {
    match t {
        ToolName::ListItems => 0,
        ToolName::ListBoards => 1,
        ToolName::CreateTask => 2,
        ToolName::CreateNote => 3,
        ToolName::SetTaskState => 4,
        ToolName::EditItem => 5,
        ToolName::DeleteItems => 6,
        ToolName::RestoreItems => 7,
    }
}

/// The tool called `name`, if there is one.
pub open spec fn tool_named(name: Seq<char>) -> Option<ToolName> {
    if name == "list_items"@ {
        Some(ToolName::ListItems)
    } else if name == "list_boards"@ {
        Some(ToolName::ListBoards)
    } else if name == "create_task"@ {
        Some(ToolName::CreateTask)
    } else if name == "create_note"@ {
        Some(ToolName::CreateNote)
    } else if name == "set_task_state"@ {
        Some(ToolName::SetTaskState)
    } else if name == "edit_item"@ {
        Some(ToolName::EditItem)
    } else if name == "delete_items"@ {
        Some(ToolName::DeleteItems)
    } else if name == "restore_items"@ {
        Some(ToolName::RestoreItems)
    } else {
        None
    }
}

/// A tool found by name is listed under that name.
pub proof fn lemma_tool_named_listed(name: Seq<char>)
    ensures
        tool_named(name) matches Some(t) ==> tool_names()[tool_position(t)] == name,
{
}

/// Every tool that `tools/list` announces is found by its name, as the tool
/// at that place in the list.
pub proof fn lemma_listed_tools_found(i: int)
    requires
        0 <= i < tool_names().len(),
    ensures
        tool_named(tool_names()[i]) matches Some(t) && tool_position(t) == i,
{
    reveal_strlit("list_items");
    reveal_strlit("list_boards");
    reveal_strlit("create_task");
    reveal_strlit("create_note");
    reveal_strlit("set_task_state");
    reveal_strlit("edit_item");
    reveal_strlit("delete_items");
    reveal_strlit("restore_items");
    let n = tool_names();
    assert(n[0].len() == 10 && n[1].len() == 11 && n[2].len() == 11 && n[3].len() == 11);
    assert(n[4].len() == 14 && n[5].len() == 9 && n[6].len() == 12 && n[7].len() == 13);
    assert(n[2] != n[1] && n[3] != n[1] && n[3] != n[2]) by {
        assert(n[2][0] != n[1][0] || n[2][5] != n[1][5]);
        assert(n[3][7] != n[1][7] || n[3][5] != n[1][5]);
        assert(n[3][7] != n[2][7]);
    }
}

/// `args` are the arguments of a tool call: the `arguments` member of its
/// params, an empty object when there is none.
pub open spec fn are_call_arguments(params: JsonValue, args: JsonValue) -> bool {
    match get(params, "arguments"@) {
        Some(a) => args == a,
        None => args matches JsonValue::Object(es) && es@.len() == 0,
    }
}

/// The tool a `tools/call` request names and its arguments, or the protocol
/// error it is refused with (`-32602` for a missing or unknown tool name).
pub fn prepare_tool_call(params: JsonValue) -> (r: Result<(ToolName, JsonValue), (i64, String)>)
    ensures
        match get_str(params, "name"@) {
            None => r matches Err(e) && e.0 == -32602 && e.1@ == "missing tool name"@,
            Some(name) => match tool_named(name) {
                None => r matches Err(e) && e.0 == -32602 && e.1@ == "unknown tool: "@ + name,
                Some(t) => r matches Ok(call) && call.0 == t && are_call_arguments(params, call.1),
            },
        },
{
    let ghost p0 = params;
    let tool = match json_get(&params, "name") {
        Some(v) => match json_as_str(v) {
            Some(name) => match tool_by_name(name) {
                Some(t) => t,
                None => {
                    let m = concat3("unknown tool: ", name, "");
                    assert(m@ =~= "unknown tool: "@ + name@) by {
                        reveal_strlit("");
                    }
                    return Err((-32602, m));
                },
            },
            None => return Err((-32602, string_of("missing tool name"))),
        },
        None => return Err((-32602, string_of("missing tool name"))),
    };
    let args = match params {
        JsonValue::Object(mut entries) => match take_member(&mut entries, "arguments") {
            Some(a) => a,
            None => JsonValue::Object(Vec::new()),
        },
        _ => JsonValue::Object(Vec::new()),
    };
    Ok((tool, args))
}

fn tool_by_name(name: &str) -> (r: Option<ToolName>)
    ensures
        r == tool_named(name@),
{
    if text_eq(name, "list_items") {
        Some(ToolName::ListItems)
    } else if text_eq(name, "list_boards") {
        Some(ToolName::ListBoards)
    } else if text_eq(name, "create_task") {
        Some(ToolName::CreateTask)
    } else if text_eq(name, "create_note") {
        Some(ToolName::CreateNote)
    } else if text_eq(name, "set_task_state") {
        Some(ToolName::SetTaskState)
    } else if text_eq(name, "edit_item") {
        Some(ToolName::EditItem)
    } else if text_eq(name, "delete_items") {
        Some(ToolName::DeleteItems)
    } else if text_eq(name, "restore_items") {
        Some(ToolName::RestoreItems)
    } else {
        None
    }
}

/// `r` is a tool result: one text content item and the error flag.
pub open spec fn is_tool_result(r: JsonValue, text: Seq<char>, is_error: bool) -> bool {
    &&& r matches JsonValue::Object(es)
    &&& es@.len() == 2
    &&& es@[0].0@ == "content"@
    &&& es@[0].1 matches JsonValue::Array(items)
    &&& items@.len() == 1
    &&& items@[0] matches JsonValue::Object(c)
    &&& c@.len() == 2
    &&& c@[0].0@ == "type"@
    &&& as_str(c@[0].1) == Some("text"@)
    &&& c@[1].0@ == "text"@
    &&& as_str(c@[1].1) == Some(text)
    &&& es@[1].0@ == "isError"@
    &&& es@[1].1 == JsonValue::Bool(is_error)
}

/// Wraps the outcome of a tool as a `tools/call` result: the JSON text of
/// what the tool returned, or its error message flagged with `isError`, so
/// that the calling agent can react to a failed tool.
pub fn tool_result(outcome: Result<String, String>) -> (r: JsonValue)
    ensures
        match outcome {
            Ok(t) => is_tool_result(r, t@, false),
            Err(m) => is_tool_result(r, m@, true),
        },
{
    let (text, is_error) = match outcome {
        Ok(t) => (t, false),
        Err(m) => (m, true),
    };
    let item = JsonValue::Object(vec![json_member("type", json_text("text")), json_member("text", JsonValue::Str(text))]);
    JsonValue::Object(vec![json_member("content", JsonValue::Array(vec![item])), json_member("isError", JsonValue::Bool(is_error))])
}


/// Wraps what a tool gave as a `tools/call` result: the JSON text of the
/// value it returned, or its error message flagged with `isError`.
pub fn tool_outcome(outcome: Result<JsonValue, String>) -> (r: JsonValue)
    ensures
        match outcome {
            Ok(v) => is_tool_result(r, json_text_of(v), false),
            Err(m) => is_tool_result(r, m@, true),
        },
{
    match outcome {
        Ok(v) => tool_result(Ok(to_json_text(&v))),
        Err(m) => tool_result(Err(m)),
    }
}

/// `s` trimmed of whitespace, as an owned string.
pub(crate) fn trimmed_string(s: &str) -> (r: String)
    ensures
        r@ == trim(s@),
{
    let cs = chars_of(s);
    let (lo, hi) = trim_bounds(&cs, 0, cs.len());
    assert(cs@.subrange(0, cs.len() as int) =~= s@);
    string_of(s.substring_char(lo, hi))
}

/// The arguments of `create_task`, read and checked. Boards and tags are as
/// given; the store normalizes them.
#[derive(Debug)]
pub struct NewTask {
    pub description: String,
    pub boards: Vec<String>,
    pub priority: u8,
    pub tags: Vec<String>,
    pub due_date: Option<i64>,
}

/// The arguments of `create_note`, read and checked.
#[derive(Debug)]
pub struct NewNote {
    pub description: String,
    pub boards: Vec<String>,
    pub tags: Vec<String>,
}

pub open spec fn empty_description_message() -> Seq<char> {
    "'description' must not be empty"@
}

/// How a required description argument is read: it must be a string that
/// is not blank, and it is kept trimmed.
pub open spec fn description_arg(args: JsonValue) -> Result<Seq<char>, Seq<char>> {
    match get_str(args, "description"@) {
        None => Err(missing_arg_message("description"@)),
        Some(d) => if trim(d).len() == 0 {
            Err(empty_description_message())
        } else {
            Ok(trim(d))
        },
    }
}

fn read_description(args: &JsonValue) -> (r: Result<String, String>)
    ensures
        match r {
            Ok(d) => description_arg(*args) == Ok::<Seq<char>, Seq<char>>(d@),
            Err(m) => description_arg(*args) == Err::<Seq<char>, Seq<char>>(m@),
        },
{
    let raw = arg_str(args, "description")?;
    let d = trimmed_string(raw);
    if d.as_str().is_empty() {
        return Err(string_of("'description' must not be empty"));
    }
    Ok(d)
}

/// What the optional `due_date` argument of a tool call gives: nothing when
/// it is missing or not a string, and otherwise what reading it as a due
/// date gives (`due_arg_reads`).
pub open spec fn due_arg_outcome(args: JsonValue, r: Result<Option<i64>, Seq<char>>) -> bool {
    match get_str(args, "due_date"@) {
        None => r == Ok::<Option<i64>, Seq<char>>(None),
        Some(raw) => due_arg_reads(raw, r),
    }
}

fn read_due_arg(args: &JsonValue) -> (r: Result<Option<i64>, String>)
    ensures
        due_arg_outcome(
            *args,
            match r {
                Ok(d) => Ok(d),
                Err(m) => Err(m@),
            },
        ),
{
    match json_get(args, "due_date") {
        Some(v) => match json_as_str(v) {
            Some(raw) => parse_due_arg(raw),
            None => Ok(None),
        },
        None => Ok(None),
    }
}

/// The board an item goes on when no board is given.
pub open spec fn default_board() -> Seq<char> {
    "My Board"@
}

/// The boards an item is created on: those given, or the default board when none is.
pub open spec fn boards_arg(args: JsonValue) -> Seq<Seq<char>> {
    let given = string_list_arg(args, "boards"@);
    if given.len() == 0 {
        seq![default_board()]
    } else {
        given
    }
}

/// An item is created on all the boards given, in order, when at least one
/// is given, and on the default board `My Board` alone otherwise.
pub proof fn lemma_created_on_given_boards(args: JsonValue)
    ensures
        string_list_arg(args, "boards"@).len() > 0 ==> boards_arg(args) == string_list_arg(args, "boards"@),
        string_list_arg(args, "boards"@).len() == 0 ==> boards_arg(args) == seq!["My Board"@],
{
}

/// Reads the `boards` argument, falling back to the default board.
fn read_boards(args: &JsonValue) -> (r: Vec<String>)
    ensures
        views_of(r@) == boards_arg(*args),
{
    let mut boards = opt_string_vec(args, "boards");
    if boards.len() == 0 {
        boards.push(string_of("My Board"));
        assert(views_of(boards@) =~= seq![default_board()]);
    }
    boards
}

/// Reads and checks the arguments of `create_task`: the description, then the
/// priority (1 when missing), then the due date; the boards as given, or the
/// default board when none is; the tags as given.
pub fn create_task_request(args: &JsonValue) -> (r: Result<NewTask, String>)
    ensures
        description_arg(*args) matches Err(m) ==> (r matches Err(e) && e@ == m),
        description_arg(*args) is Ok ==> (priority_arg(*args) matches Err(m) ==> (r matches Err(e) && e@ == m)),
        description_arg(*args) is Ok && priority_arg(*args) is Ok ==> due_arg_outcome(
            *args,
            match r {
                Ok(t) => Ok(t.due_date),
                Err(m) => Err(m@),
            },
        ),
        r matches Ok(t) ==> {
            &&& description_arg(*args) == Ok::<Seq<char>, Seq<char>>(t.description@)
            &&& priority_arg(*args) matches Ok(p) && t.priority == match p {
                Some(q) => q,
                None => 1u8,
            }
            &&& views_of(t.boards@) == boards_arg(*args)
            &&& views_of(t.tags@) == string_list_arg(*args, "tags"@)
        },
{
    let description = read_description(args)?;
    let boards = read_boards(args);
    let priority = match parse_priority_arg(args)? {
        Some(p) => p,
        None => 1,
    };
    let tags = opt_string_vec(args, "tags");
    let due_date = read_due_arg(args)?;
    Ok(NewTask { description, boards, priority, tags, due_date })
}

/// Reads and checks the arguments of `create_note`: the description; the
/// boards as given, or the default board when none is; the tags as given.
pub fn create_note_request(args: &JsonValue) -> (r: Result<NewNote, String>)
    ensures
        description_arg(*args) matches Err(m) ==> (r matches Err(e) && e@ == m),
        description_arg(*args) is Ok ==> r is Ok,
        r matches Ok(n) ==> {
            &&& description_arg(*args) == Ok::<Seq<char>, Seq<char>>(n.description@)
            &&& views_of(n.boards@) == boards_arg(*args)
            &&& views_of(n.tags@) == string_list_arg(*args, "tags"@)
        },
{
    let description = read_description(args)?;
    let boards = read_boards(args);
    let tags = opt_string_vec(args, "tags");
    Ok(NewNote { description, boards, tags })
}

/// Reads the arguments of `set_task_state`: the id, then the state name.
pub fn set_task_state_request<'a>(args: &'a JsonValue) -> (r: Result<(u64, &'a str), String>)
    ensures
        match get_u64(*args, "id"@) {
            None => r matches Err(m) && m@ == missing_arg_message("id"@),
            Some(id) => match get_str(*args, "state"@) {
                None => r matches Err(m) && m@ == missing_arg_message("state"@),
                Some(s) => r matches Ok(p) && p.0 == id && p.1@ == s,
            },
        },
{
    let id = arg_u64(args, "id")?;
    let state = arg_str(args, "state")?;
    Ok((id, state))
}

/// `{"id": id, "type": "task"}` or, for a note, `{"id": id, "type": "note"}`.
pub fn created_result(id: u64, is_task: bool) -> (r: JsonValue)
    ensures
        r matches JsonValue::Object(es) && es@.len() == 2 && es@[0].0@ == "id"@ && es@[0].1 == uint_json(id)
            && es@[1].0@ == "type"@ && as_str(es@[1].1) == Some(if is_task { "task"@ } else { "note"@ }),
{
    JsonValue::Object(vec![json_member("id", json_u64(id)), json_member("type", json_text(if is_task { "task" } else { "note" }))])
}


/// `{"id": id, "state": state}`, the result of `set_task_state`.
pub fn state_result(id: u64, state: &str) -> (r: JsonValue)
    ensures
        r matches JsonValue::Object(es) && es@.len() == 2 && es@[0].0@ == "id"@ && es@[0].1 == uint_json(id)
            && es@[1].0@ == "state"@ && as_str(es@[1].1) == Some(state@),
{
    JsonValue::Object(vec![json_member("id", json_u64(id)), json_member("state", json_text(state))])
}

/// `r` is `{key: ids}`.
pub open spec fn is_ids_result(r: JsonValue, key: Seq<char>, ids: Seq<u64>) -> bool {
    &&& r matches JsonValue::Object(es)
    &&& es@.len() == 1
    &&& es@[0].0@ == key
    &&& es@[0].1 matches JsonValue::Array(items)
    &&& items@.len() == ids.len()
    &&& forall|i: int| 0 <= i < ids.len() ==> #[trigger] items@[i] == uint_json(ids[i])
}

/// `{"deleted": ids}` (when `deleted`) or `{"restored": ids}`, the result of
/// `delete_items` and `restore_items`.
pub fn ids_result(deleted: bool, ids: &Vec<u64>) -> (r: JsonValue)
    ensures
        is_ids_result(r, if deleted { "deleted"@ } else { "restored"@ }, ids@),
{
    let mut items: Vec<JsonValue> = Vec::new();
    let mut i: usize = 0;
    while i < ids.len()
        invariant
            i <= ids.len(),
            items.len() == i,
            forall|j: int| 0 <= j < i ==> #[trigger] items@[j] == uint_json(ids@[j]),
        decreases ids.len() - i,
    {
        items.push(json_u64(ids[i]));
        i = i + 1;
    }
    JsonValue::Object(vec![json_member(if deleted { "deleted" } else { "restored" }, JsonValue::Array(items))])
}

} // verus!
