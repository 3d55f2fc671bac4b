//! The JSON schemas of the MCP tools.

use vstd::prelude::*;
use crate::json::{as_str, json_member as member, json_text as text, uint_json, JsonNumber, JsonValue};

verus! {

/// The keys of an object's members, in order.
pub open spec fn keys_of(es: Seq<(String, JsonValue)>) -> Seq<Seq<char>> {
    es.map_values(|e: (String, JsonValue)| e.0@)
}

/// The strings of an array, element by element.
pub open spec fn str_items(items: Seq<JsonValue>) -> Seq<Option<Seq<char>>> {
    items.map_values(|v: JsonValue| as_str(v))
}

pub open spec fn some_all(names: Seq<Seq<char>>) -> Seq<Option<Seq<char>>> {
    names.map_values(|n: Seq<char>| Some(n))
}

/// The names of the tools, in the order they are listed.
pub open spec fn tool_names() -> Seq<Seq<char>> {
    seq![
        "list_items"@,
        "list_boards"@,
        "create_task"@,
        "create_note"@,
        "set_task_state"@,
        "edit_item"@,
        "delete_items"@,
        "restore_items"@,
    ]
}

/// The argument names of the tool at position `i`.
pub open spec fn tool_properties(i: int) -> Seq<Seq<char>> {
    if i == 0 {
        seq!["archived"@, "filter"@, "board"@, "tag"@, "query"@]
    } else if i == 1 {
        seq![]
    } else if i == 2 {
        seq!["description"@, "boards"@, "priority"@, "tags"@, "due_date"@]
    } else if i == 3 {
        seq!["description"@, "boards"@, "tags"@]
    } else if i == 4 {
        seq!["id"@, "state"@]
    } else if i == 5 {
        seq!["id"@, "description"@, "priority"@, "due_date"@, "boards"@, "tags"@, "starred"@]
    } else {
        seq!["ids"@]
    }
}

/// The required argument names of the tool at position `i`.
pub open spec fn tool_required(i: int) -> Seq<Seq<char>> {
    if i == 0 || i == 1 {
        seq![]
    } else if i == 2 || i == 3 {
        seq!["description"@]
    } else if i == 4 {
        seq!["id"@, "state"@]
    } else if i == 5 {
        seq!["id"@]
    } else {
        seq!["ids"@]
    }
}

/// `schema` is an object schema with these argument names and required arguments.
pub open spec fn object_schema(schema: JsonValue, props: Seq<Seq<char>>, required: Seq<Seq<char>>) -> bool {
    &&& schema matches JsonValue::Object(es)
    &&& es@.len() == if required.len() == 0 { 2int } else { 3int }
    &&& es@[0].0@ == "type"@
    &&& as_str(es@[0].1) == Some("object"@)
    &&& es@[1].0@ == "properties"@
    &&& es@[1].1 matches JsonValue::Object(ps)
    &&& keys_of(ps@) == props
    &&& required.len() > 0 ==> {
        &&& es@[2].0@ == "required"@
        &&& es@[2].1 matches JsonValue::Array(rs)
        &&& str_items(rs@) == some_all(required)
    }
}

/// The schema of one argument of a tool.
pub enum PropShape {
    /// `{"type": ty, "description": desc}`.
    Plain(Seq<char>, Seq<char>),
    /// `{"type": "array", "items": {"type": item_ty}, "description": desc}`.
    List(Seq<char>, Seq<char>),
    /// `{"type": "integer", "minimum": 1, "maximum": 3, "description": desc}`.
    Priority(Seq<char>),
    /// `{"type": "string", "enum": values}`, with a description if one is given.
    Choice(Seq<Seq<char>>, Option<Seq<char>>),
}

/// The member at position `i` of the object `v` is `key` with the string `text`.
pub open spec fn text_member(v: JsonValue, i: int, key: Seq<char>, text: Seq<char>) -> bool {
    v matches JsonValue::Object(es) && 0 <= i < es@.len() && es@[i].0@ == key && as_str(es@[i].1) == Some(text)
}

/// The `items` member of the array schema `p` is `{"type": item_ty}`.
pub open spec fn list_items_typed(p: JsonValue, item_ty: Seq<char>) -> bool {
    &&& p matches JsonValue::Object(es)
    &&& es@.len() > 1
    &&& es@[1].1 matches JsonValue::Object(is)
    &&& is@.len() == 1
    &&& text_member(es@[1].1, 0, "type"@, item_ty)
}

/// `p` is the schema that `s` describes.
pub open spec fn has_shape(p: JsonValue, s: PropShape) -> bool {
    match s {
        PropShape::Plain(ty, desc) => {
            &&& p matches JsonValue::Object(es) && es@.len() == 2
            &&& text_member(p, 0, "type"@, ty)
            &&& text_member(p, 1, "description"@, desc)
        },
        PropShape::List(item_ty, desc) => {
            &&& p matches JsonValue::Object(es) && es@.len() == 3 && es@[1].0@ == "items"@
            &&& list_items_typed(p, item_ty)
            &&& text_member(p, 0, "type"@, "array"@)
            &&& text_member(p, 2, "description"@, desc)
        },
        PropShape::Priority(desc) => priority_schema(p) && text_member(p, 3, "description"@, desc),
        PropShape::Choice(values, desc) => {
            &&& enum_schema(p, values)
            &&& p matches JsonValue::Object(es) && match desc {
                None => es@.len() == 2,
                Some(d) => es@.len() == 3 && text_member(p, 2, "description"@, d),
            }
        },
    }
}

/// The description of the tool at position `i`.
pub open spec fn tool_description(i: int) -> Seq<char> {
    if i == 0 {
        "List taskbook items (tasks and notes). Optionally filter by state/type, board, tag, or a text query, or list archived items instead."@
    } else if i == 1 {
        "List all board names."@
    } else if i == 2 {
        "Create a new task."@
    } else if i == 3 {
        "Create a new note."@
    } else if i == 4 {
        "Set a task's state to pending, in_progress, or done."@
    } else if i == 5 {
        "Update fields of an existing item. Only the provided fields change. Tags replace the existing set."@
    } else if i == 6 {
        "Delete items (moves them to the archive)."@
    } else {
        "Restore archived items back to the active list."@
    }
}

/// The schemas of the arguments of the tool at position `i`, in order.
pub open spec fn tool_shapes(i: int) -> Seq<PropShape> {
    if i == 0 {
        seq![
            PropShape::Plain("boolean"@, "List archived (deleted) items instead of active ones"@),
            PropShape::Choice(filter_values(), Some("Only return items matching this state or type"@)),
            PropShape::Plain("string"@, "Only return items on this board"@),
            PropShape::Plain("string"@, "Only return items with this tag"@),
            PropShape::Plain("string"@, "Case-insensitive search in descriptions and note bodies"@),
        ]
    } else if i == 1 {
        seq![]
    } else if i == 2 {
        seq![
            PropShape::Plain("string"@, "Task description"@),
            PropShape::List("string"@, "Boards to place the task on (defaults to My Board)"@),
            PropShape::Priority("1 = normal, 2 = medium, 3 = high (default 1)"@),
            PropShape::List("string"@, "Tags for the task"@),
            PropShape::Plain(
                "string"@,
                "Due date: YYYY-MM-DD, 'YYYY-MM-DD HH:MM', today, tomorrow, now, or today+HHMM / tomorrow+HHMM / now+HHMM"@,
            ),
        ]
    } else if i == 3 {
        seq![
            PropShape::Plain("string"@, "Note text"@),
            PropShape::List("string"@, "Boards to place the note on (defaults to My Board)"@),
            PropShape::List("string"@, "Tags for the note"@),
        ]
    } else if i == 4 {
        seq![PropShape::Plain("integer"@, "Task id"@), PropShape::Choice(state_values(), None)]
    } else if i == 5 {
        seq![
            PropShape::Plain("integer"@, "Item id"@),
            PropShape::Plain("string"@, "New description"@),
            PropShape::Priority("New priority (tasks only)"@),
            PropShape::Plain(
                "string"@,
                "New due date (YYYY-MM-DD, 'YYYY-MM-DD HH:MM', today, tomorrow, now, today+HHMM / tomorrow+HHMM / now+HHMM) or 'none' to clear (tasks only)"@,
            ),
            PropShape::List("string"@, "Replace the item's boards"@),
            PropShape::List("string"@, "Replace the item's tags"@),
            PropShape::Plain("boolean"@, "Star or unstar the item"@),
        ]
    } else if i == 6 {
        seq![PropShape::List("integer"@, "Item ids to delete"@)]
    } else {
        seq![PropShape::List("integer"@, "Archive ids to restore"@)]
    }
}

/// The properties of the object schema `schema` are those that `shapes` describes, in order.
pub open spec fn props_shaped(schema: JsonValue, shapes: Seq<PropShape>) -> bool {
    &&& schema matches JsonValue::Object(es)
    &&& es@.len() >= 2
    &&& es@[1].1 matches JsonValue::Object(ps)
    &&& ps@.len() == shapes.len()
    &&& forall|k: int| 0 <= k < ps@.len() ==> has_shape(#[trigger] ps@[k].1, shapes[k])
}

/// `t` describes the tool at position `i`: its name, a description and its input schema.
pub open spec fn tool_entry(t: JsonValue, i: int) -> bool {
    &&& t matches JsonValue::Object(es)
    &&& es@.len() == 3
    &&& es@[0].0@ == "name"@
    &&& as_str(es@[0].1) == Some(tool_names()[i])
    &&& es@[1].0@ == "description"@
    &&& as_str(es@[1].1) == Some(tool_description(i))
    &&& es@[2].0@ == "inputSchema"@
    &&& object_schema(es@[2].1, tool_properties(i), tool_required(i))
    &&& props_shaped(es@[2].1, tool_shapes(i))
}

/// `p` is a string property limited to these values, in order.
pub open spec fn enum_schema(p: JsonValue, values: Seq<Seq<char>>) -> bool {
    &&& p matches JsonValue::Object(es)
    &&& es@.len() >= 2
    &&& es@[0].0@ == "type"@ && as_str(es@[0].1) == Some("string"@)
    &&& es@[1].0@ == "enum"@
    &&& es@[1].1 matches JsonValue::Array(vs)
    &&& str_items(vs@) == some_all(values)
}

/// `p` is an integer property from 1 to 3.
pub open spec fn priority_schema(p: JsonValue) -> bool {
    &&& p matches JsonValue::Object(es)
    &&& es@.len() == 4
    &&& es@[0].0@ == "type"@ && as_str(es@[0].1) == Some("integer"@)
    &&& es@[1].0@ == "minimum"@ && es@[1].1 == uint_json(1)
    &&& es@[2].0@ == "maximum"@ && es@[2].1 == uint_json(3)
}

/// The schema of argument `k` of the tool described by `t`.
pub open spec fn input_property(t: JsonValue, k: int) -> JsonValue {
    match t {
        JsonValue::Object(es) => match es@[2].1 {
            JsonValue::Object(schema) => match schema@[1].1 {
                JsonValue::Object(ps) => ps@[k].1,
                _ => JsonValue::Null,
            },
            _ => JsonValue::Null,
        },
        _ => JsonValue::Null,
    }
}

/// The filters of a listing, in the order the schema lists them.
pub open spec fn filter_values() -> Seq<Seq<char>> {
    seq!["pending"@, "in_progress"@, "done"@, "task"@, "note"@, "starred"@]
}

/// The states a task can be set to, in the order the schema lists them.
pub open spec fn state_values() -> Seq<Seq<char>> {
    seq!["pending"@, "in_progress"@, "done"@]
}

/// The schema lists exactly the filters that `list_items` accepts.
pub proof fn lemma_filter_values_accepted(name: Seq<char>)
    ensures
        filter_values().contains(name) <==> crate::listing::filter_named(name) is Some,
{
    if crate::listing::filter_named(name) is Some {
        assert(filter_values()[0] == "pending"@);
        assert(filter_values()[1] == "in_progress"@);
        assert(filter_values()[2] == "done"@);
        assert(filter_values()[3] == "task"@);
        assert(filter_values()[4] == "note"@);
        assert(filter_values()[5] == "starred"@);
    }
}

/// The schema lists exactly the states that `set_task_state` accepts.
pub proof fn lemma_state_values_accepted(name: Seq<char>)
    ensures
        state_values().contains(name) <==> crate::task::state_named(name) is Some,
{
    if crate::task::state_named(name) is Some {
        assert(state_values()[0] == "pending"@);
        assert(state_values()[1] == "in_progress"@);
        assert(state_values()[2] == "done"@);
    }
}

fn integer(n: u64) -> (r: JsonValue)
    ensures
        r == uint_json(n),
{
    JsonValue::Number(JsonNumber::PosInt(n))
}

/// `{"type": ty, "description": desc}`.
fn typed(ty: &str, desc: &str) -> (r: JsonValue)
    ensures
        r matches JsonValue::Object(es) && es@.len() == 2 && es@[0].0@ == "type"@ && as_str(es@[0].1)
            == Some(ty@) && es@[1].0@ == "description"@ && as_str(es@[1].1) == Some(desc@),
{
    JsonValue::Object(vec![member("type", text(ty)), member("description", text(desc))])
}

fn prop(name: &str, ty: &str, desc: &str) -> (r: (String, JsonValue))
    ensures
        r.0@ == name@,
        has_shape(r.1, PropShape::Plain(ty@, desc@)),
{
    member(name, typed(ty, desc))
}

/// `{"type": "array", "items": {"type": item_ty}, "description": desc}`.
fn array_prop(name: &str, item_ty: &str, desc: &str) -> (r: (String, JsonValue))
    ensures
        r.0@ == name@,
        has_shape(r.1, PropShape::List(item_ty@, desc@)),
{
    member(
        name,
        JsonValue::Object(
            vec![
                member("type", text("array")),
                member("items", JsonValue::Object(vec![member("type", text(item_ty))])),
                member("description", text(desc)),
            ],
        ),
    )
}

/// `{"type": "integer", "minimum": 1, "maximum": 3, "description": desc}`.
fn priority_prop(desc: &str) -> (r: (String, JsonValue))
    ensures
        r.0@ == "priority"@,
        has_shape(r.1, PropShape::Priority(desc@)),
{
    proof {
        reveal_strlit("integer");
    }
    member(
        "priority",
        JsonValue::Object(
            vec![
                member("type", text("integer")),
                member("minimum", integer(1)),
                member("maximum", integer(3)),
                member("description", text(desc)),
            ],
        ),
    )
}

fn names_array(names: Vec<&str>) -> (r: JsonValue)
    ensures
        r matches JsonValue::Array(items) && str_items(items@) == some_all(names@.map_values(|s: &str| s@)),
{
    let mut items: Vec<JsonValue> = Vec::new();
    let mut i: usize = 0;
    while i < names.len()
        invariant
            i <= names.len(),
            items.len() == i,
            forall|j: int| 0 <= j < i ==> as_str(#[trigger] items@[j]) == Some(names@[j]@),
        decreases names.len() - i,
    {
        items.push(text(names[i]));
        i = i + 1;
    }
    assert(str_items(items@) =~= some_all(names@.map_values(|s: &str| s@)));
    JsonValue::Array(items)
}

fn object_schema_of(props: Vec<(String, JsonValue)>, required: Vec<&str>) -> (r: JsonValue)
    ensures
        object_schema(r, keys_of(props@), required@.map_values(|s: &str| s@)),
        r matches JsonValue::Object(es) && es@[1].1 == JsonValue::Object(props),
{
    let n = required.len();
    let mut es = vec![member("type", text("object")), member("properties", JsonValue::Object(props))];
    if n > 0 {
        es.push(member("required", names_array(required)));
    }
    proof {
        reveal_strlit("object");
    }
    JsonValue::Object(es)
}

fn tool(name: &str, desc: &str, schema: JsonValue) -> (r: JsonValue)
    ensures
        r matches JsonValue::Object(es) && es@.len() == 3 && es@[0].0@ == "name"@ && as_str(es@[0].1)
            == Some(name@) && es@[1].0@ == "description"@ && as_str(es@[1].1) == Some(desc@) && es@[2].0@
            == "inputSchema"@ && es@[2].1 == schema,
{
    JsonValue::Object(vec![member("name", text(name)), member("description", text(desc)), member("inputSchema", schema)])
}

/// `{"type": "string", "enum": values}`, with a description if one is given.
fn enum_prop(name: &str, values: Vec<&str>, desc: Option<&str>) -> (r: (String, JsonValue))
    ensures
        r.0@ == name@,
        has_shape(
            r.1,
            PropShape::Choice(
                values@.map_values(|s: &str| s@),
                match desc {
                    Some(d) => Some(d@),
                    None => None,
                },
            ),
        ),
{
    proof {
        reveal_strlit("string");
    }
    let mut es = vec![member("type", text("string")), member("enum", names_array(values))];
    if let Some(d) = desc {
        es.push(member("description", text(d)));
    }
    member(name, JsonValue::Object(es))
}

fn list_items_tool() -> (r: JsonValue)
    ensures
        tool_entry(r, 0),
        enum_schema(input_property(r, 1), filter_values()),
{
    let props = vec![
        prop("archived", "boolean", "List archived (deleted) items instead of active ones"),
        enum_prop(
            "filter",
            vec!["pending", "in_progress", "done", "task", "note", "starred"],
            Some("Only return items matching this state or type"),
        ),
        prop("board", "string", "Only return items on this board"),
        prop("tag", "string", "Only return items with this tag"),
        prop("query", "string", "Case-insensitive search in descriptions and note bodies"),
    ];
    let ghost keys = keys_of(props@);
    let schema = object_schema_of(props, vec![]);
    assert(keys =~= tool_properties(0));
    assert(seq!["pending", "in_progress", "done", "task", "note", "starred"].map_values(|s: &str| s@) =~= filter_values());
    assert(Seq::<&str>::empty().map_values(|s: &str| s@) =~= tool_required(0));
    tool(
        "list_items",
        "List taskbook items (tasks and notes). Optionally filter by state/type, board, tag, or a text query, or list archived items instead.",
        schema,
    )
}

fn list_boards_tool() -> (r: JsonValue)
    ensures
        tool_entry(r, 1),
{
    let props: Vec<(String, JsonValue)> = vec![];
    let ghost keys = keys_of(props@);
    let schema = object_schema_of(props, vec![]);
    assert(keys =~= tool_properties(1));
    assert(Seq::<&str>::empty().map_values(|s: &str| s@) =~= tool_required(1));
    tool("list_boards", "List all board names.", schema)
}

fn create_task_tool() -> (r: JsonValue)
    ensures
        tool_entry(r, 2),
        priority_schema(input_property(r, 2)),
{
    let props = vec![
        prop("description", "string", "Task description"),
        array_prop("boards", "string", "Boards to place the task on (defaults to My Board)"),
        priority_prop("1 = normal, 2 = medium, 3 = high (default 1)"),
        array_prop("tags", "string", "Tags for the task"),
        prop(
            "due_date",
            "string",
            "Due date: YYYY-MM-DD, 'YYYY-MM-DD HH:MM', today, tomorrow, now, or today+HHMM / tomorrow+HHMM / now+HHMM",
        ),
    ];
    let ghost keys = keys_of(props@);
    let required = vec!["description"];
    let ghost req = required@.map_values(|s: &str| s@);
    let schema = object_schema_of(props, required);
    assert(keys =~= tool_properties(2));
    assert(req =~= tool_required(2));
    tool("create_task", "Create a new task.", schema)
}

fn create_note_tool() -> (r: JsonValue)
    ensures
        tool_entry(r, 3),
{
    let props = vec![
        prop("description", "string", "Note text"),
        array_prop("boards", "string", "Boards to place the note on (defaults to My Board)"),
        array_prop("tags", "string", "Tags for the note"),
    ];
    let ghost keys = keys_of(props@);
    let required = vec!["description"];
    let ghost req = required@.map_values(|s: &str| s@);
    let schema = object_schema_of(props, required);
    assert(keys =~= tool_properties(3));
    assert(req =~= tool_required(3));
    tool("create_note", "Create a new note.", schema)
}

fn set_task_state_tool() -> (r: JsonValue)
    ensures
        tool_entry(r, 4),
        enum_schema(input_property(r, 1), state_values()),
{
    let props = vec![
        prop("id", "integer", "Task id"),
        enum_prop("state", vec!["pending", "in_progress", "done"], None),
    ];
    let ghost keys = keys_of(props@);
    let required = vec!["id", "state"];
    let ghost req = required@.map_values(|s: &str| s@);
    let schema = object_schema_of(props, required);
    assert(keys =~= tool_properties(4));
    assert(seq!["pending", "in_progress", "done"].map_values(|s: &str| s@) =~= state_values());
    assert(req =~= tool_required(4));
    tool("set_task_state", "Set a task's state to pending, in_progress, or done.", schema)
}

fn edit_item_tool() -> (r: JsonValue)
    ensures
        tool_entry(r, 5),
        priority_schema(input_property(r, 2)),
{
    let props = vec![
        prop("id", "integer", "Item id"),
        prop("description", "string", "New description"),
        priority_prop("New priority (tasks only)"),
        prop(
            "due_date",
            "string",
            "New due date (YYYY-MM-DD, 'YYYY-MM-DD HH:MM', today, tomorrow, now, today+HHMM / tomorrow+HHMM / now+HHMM) or 'none' to clear (tasks only)",
        ),
        array_prop("boards", "string", "Replace the item's boards"),
        array_prop("tags", "string", "Replace the item's tags"),
        prop("starred", "boolean", "Star or unstar the item"),
    ];
    let ghost keys = keys_of(props@);
    let required = vec!["id"];
    let ghost req = required@.map_values(|s: &str| s@);
    let schema = object_schema_of(props, required);
    assert(keys =~= tool_properties(5));
    assert(req =~= tool_required(5));
    tool(
        "edit_item",
        "Update fields of an existing item. Only the provided fields change. Tags replace the existing set.",
        schema,
    )
}

/// `delete_items` (`delete`) or `restore_items`.
fn ids_tool(delete: bool) -> (r: JsonValue)
    ensures
        tool_entry(r, if delete { 6 } else { 7 }),
{
    let ids_desc = if delete { "Item ids to delete" } else { "Archive ids to restore" };
    let props = vec![array_prop("ids", "integer", ids_desc)];
    let ghost keys = keys_of(props@);
    let required = vec!["ids"];
    let ghost req = required@.map_values(|s: &str| s@);
    let schema = object_schema_of(props, required);
    assert(keys =~= tool_properties(if delete { 6 } else { 7 }));
    assert(req =~= tool_required(if delete { 6 } else { 7 }));
    if delete {
        tool("delete_items", "Delete items (moves them to the archive).", schema)
    } else {
        tool("restore_items", "Restore archived items back to the active list.", schema)
    }
}

/// `r` holds the schemas of all exposed tools, in order. The `filter` of
/// `list_items` and the `state` of `set_task_state` list the values those
/// tools accept (`filter_values`, `state_values`), and the `priority` of
/// `create_task` and `edit_item` runs from 1 to 3.
pub open spec fn is_tool_definitions(r: JsonValue) -> bool {
    &&& r matches JsonValue::Array(ts)
    &&& ts@.len() == tool_names().len()
    &&& forall|i: int| 0 <= i < ts@.len() ==> tool_entry(#[trigger] ts@[i], i)
    &&& enum_schema(input_property(ts@[0], 1), filter_values())
    &&& enum_schema(input_property(ts@[4], 1), state_values())
    &&& priority_schema(input_property(ts@[2], 2))
    &&& priority_schema(input_property(ts@[5], 2))
}

/// The JSON Schema definitions of all exposed tools.
pub fn definitions() -> (r: JsonValue)
    ensures
        is_tool_definitions(r),
{
    let tools = vec![
        list_items_tool(),
        list_boards_tool(),
        create_task_tool(),
        create_note_tool(),
        set_task_state_tool(),
        edit_item_tool(),
        ids_tool(true),
        ids_tool(false),
    ];
    JsonValue::Array(tools)
}

} // verus!
