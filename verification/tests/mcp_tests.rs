use taskbook::edit::{edit_item_plan, edit_result, EditStep};
use taskbook::json::{json_as_array, json_as_str, json_get, JsonNumber, JsonValue};
use taskbook::listing::{
    check_filter, item_to_json, items_json, list_args, list_items, listing_showable, select_items, ItemFilter,
    ListedItem, TaskFields,
};
use taskbook::rpc::{handle_line, handle_message, response_text, tool_call_response, Reply, LATEST_PROTOCOL_VERSION};
use taskbook::schema::definitions;
use taskbook::tools::{
    arg_ids, arg_str, arg_u64, create_note_request, create_task_request, ids_result,
    opt_string_vec, parse_due_arg, parse_priority_arg, prepare_tool_call, set_task_state_request,
    tool_outcome, tool_result, ToolName,
};

fn s(x: &str) -> JsonValue {
    JsonValue::Str(x.to_string())
}

fn n(x: u64) -> JsonValue {
    JsonValue::Number(JsonNumber::PosInt(x))
}

fn obj(members: Vec<(&str, JsonValue)>) -> JsonValue {
    JsonValue::Object(members.into_iter().map(|(k, v)| (k.to_string(), v)).collect())
}

fn at<'a>(v: &'a JsonValue, path: &[&str]) -> &'a JsonValue {
    let mut cur = v;
    for key in path {
        cur = json_get(cur, key).unwrap_or_else(|| panic!("missing {key}"));
    }
    cur
}

fn text_at(v: &JsonValue, path: &[&str]) -> String {
    json_as_str(at(v, path)).expect("a string").to_string()
}

fn respond(reply: Reply) -> JsonValue {
    match reply {
        Reply::Respond(v) => v,
        other => panic!("expected a response, got {other:?}"),
    }
}

fn request(id: u64, method: &str, params: Option<JsonValue>) -> JsonValue {
    let mut members = vec![("jsonrpc", s("2.0")), ("id", n(id)), ("method", s(method))];
    if let Some(p) = params {
        members.push(("params", p));
    }
    obj(members)
}

fn code_of(resp: &JsonValue) -> i64 {
    match at(resp, &["error", "code"]) {
        JsonValue::Number(JsonNumber::NegInt(c)) => *c,
        JsonValue::Number(JsonNumber::PosInt(c)) => *c as i64,
        other => panic!("not a code: {other:?}"),
    }
}

#[test]
fn initialize_negotiates_protocol_version() {
    let resp = respond(handle_message(
        Ok(request(1, "initialize", Some(obj(vec![("protocolVersion", s("2024-11-05"))])))),
        "1.0.0",
    ));
    assert_eq!(text_at(&resp, &["result", "protocolVersion"]), "2024-11-05");
    assert_eq!(text_at(&resp, &["result", "serverInfo", "name"]), "taskbook");
    assert!(matches!(at(&resp, &["result", "capabilities", "tools"]), JsonValue::Object(_)));

    let resp = respond(handle_message(
        Ok(request(2, "initialize", Some(obj(vec![("protocolVersion", s("1999-01-01"))])))),
        "1.0.0",
    ));
    assert_eq!(text_at(&resp, &["result", "protocolVersion"]), LATEST_PROTOCOL_VERSION);
}

#[test]
fn initialize_without_params_uses_latest_version() {
    let resp = respond(handle_message(Ok(request(3, "initialize", None)), "2.3.4"));
    assert_eq!(text_at(&resp, &["result", "protocolVersion"]), "2025-06-18");
    assert_eq!(text_at(&resp, &["result", "serverInfo", "version"]), "2.3.4");
    assert_eq!(text_at(&resp, &["jsonrpc"]), "2.0");
    assert!(matches!(at(&resp, &["id"]), JsonValue::Number(JsonNumber::PosInt(3))));
    let resp = respond(handle_message(
        Ok(request(4, "initialize", Some(obj(vec![("protocolVersion", s("2025-03-26"))])))),
        "2.3.4",
    ));
    assert_eq!(text_at(&resp, &["result", "protocolVersion"]), "2025-03-26");
}

#[test]
fn tools_list_returns_all_tools() {
    let resp = respond(handle_message(Ok(request(1, "tools/list", None)), "1.0.0"));
    let tools = json_as_array(at(&resp, &["result", "tools"])).unwrap();
    let names: Vec<String> = tools.iter().map(|t| text_at(t, &["name"])).collect();
    assert_eq!(
        names,
        vec![
            "list_items",
            "list_boards",
            "create_task",
            "create_note",
            "set_task_state",
            "edit_item",
            "delete_items",
            "restore_items",
        ]
    );
    for tool in tools {
        assert!(matches!(at(tool, &["description"]), JsonValue::Str(_)));
        assert_eq!(text_at(tool, &["inputSchema", "type"]), "object");
    }
}

#[test]
fn schemas_name_required_arguments() {
    let defs = definitions();
    let tools = json_as_array(&defs).unwrap();
    let required = |i: usize| -> Vec<String> {
        match json_get(at(&tools[i], &["inputSchema"]), "required") {
            Some(JsonValue::Array(items)) => items.iter().map(|v| json_as_str(v).unwrap().to_string()).collect(),
            _ => Vec::new(),
        }
    };
    assert!(required(0).is_empty());
    assert_eq!(required(2), vec!["description"]);
    assert_eq!(required(4), vec!["id", "state"]);
    assert_eq!(required(5), vec!["id"]);
    assert_eq!(required(7), vec!["ids"]);
}

#[test]
fn notification_gets_no_response() {
    let msg = obj(vec![("jsonrpc", s("2.0")), ("method", s("notifications/initialized"))]);
    assert!(matches!(handle_message(Ok(msg), "1.0.0"), Reply::Silent));
    let null_id = obj(vec![("jsonrpc", s("2.0")), ("id", JsonValue::Null), ("method", s("ping"))]);
    assert!(matches!(handle_message(Ok(null_id), "1.0.0"), Reply::Silent));
}

#[test]
fn unknown_method_returns_error() {
    let resp = respond(handle_message(Ok(request(1, "bogus/method", None)), "1.0.0"));
    assert_eq!(code_of(&resp), -32601);
    assert_eq!(text_at(&resp, &["error", "message"]), "method not found: bogus/method");
}

#[test]
fn parse_error_returns_jsonrpc_error() {
    let err = serde_json::from_str::<serde_json::Value>("not json at all").unwrap_err();
    let resp = respond(handle_message(Err(err.to_string()), "1.0.0"));
    assert_eq!(code_of(&resp), -32700);
    assert!(matches!(at(&resp, &["id"]), JsonValue::Null));
    assert!(text_at(&resp, &["error", "message"]).starts_with("parse error: "));
}

#[test]
fn ping_answers_empty_object() {
    let resp = respond(handle_message(Ok(request(9, "ping", None)), "1.0.0"));
    match at(&resp, &["result"]) {
        JsonValue::Object(members) => assert!(members.is_empty()),
        other => panic!("unexpected {other:?}"),
    }
}

#[test]
fn unknown_tool_returns_invalid_params() {
    let params = obj(vec![("name", s("bogus_tool")), ("arguments", obj(vec![]))]);
    let (id, params) = match handle_message(Ok(request(1, "tools/call", Some(params))), "1.0.0") {
        Reply::CallTool { id, params } => (id, params),
        other => panic!("expected a tool call, got {other:?}"),
    };
    let resp = tool_call_response(id, prepare_tool_call(params).map(|_| JsonValue::Null));
    assert_eq!(code_of(&resp), -32602);
    assert_eq!(text_at(&resp, &["error", "message"]), "unknown tool: bogus_tool");
}

#[test]
fn tool_calls_name_a_tool_and_carry_arguments() {
    match prepare_tool_call(obj(vec![("name", s("list_items"))])) {
        Ok((ToolName::ListItems, JsonValue::Object(args))) => assert!(args.is_empty()),
        other => panic!("unexpected {other:?}"),
    }
    match prepare_tool_call(obj(vec![("name", s("delete_items")), ("arguments", obj(vec![("ids", n(1))]))])) {
        Ok((ToolName::DeleteItems, args)) => assert!(json_get(&args, "ids").is_some()),
        other => panic!("unexpected {other:?}"),
    }
    match prepare_tool_call(obj(vec![("arguments", obj(vec![]))])) {
        Err((code, message)) => {
            assert_eq!(code, -32602);
            assert_eq!(message, "missing tool name");
        },
        other => panic!("unexpected {other:?}"),
    }
}

#[test]
fn tool_results_wrap_text_and_error_flag() {
    let ok = tool_result(Ok("{\"id\":1}".to_string()));
    assert!(matches!(at(&ok, &["isError"]), JsonValue::Bool(false)));
    let content = json_as_array(at(&ok, &["content"])).unwrap();
    assert_eq!(content.len(), 1);
    assert_eq!(text_at(&content[0], &["type"]), "text");
    assert_eq!(text_at(&content[0], &["text"]), "{\"id\":1}");
    let failed = tool_result(Err("boom".to_string()));
    assert!(matches!(at(&failed, &["isError"]), JsonValue::Bool(true)));
    assert_eq!(text_at(&json_as_array(at(&failed, &["content"])).unwrap()[0], &["text"]), "boom");
}

#[test]
fn arguments_are_read_by_type() {
    let args = obj(vec![
        ("id", n(5)),
        ("neg", JsonValue::Number(JsonNumber::NegInt(-1))),
        ("name", s("x")),
        ("list", JsonValue::Array(vec![s("a"), n(2), s("b")])),
        ("ids", JsonValue::Array(vec![n(3), s("4"), n(5)])),
    ]);
    assert_eq!(arg_u64(&args, "id"), Ok(5));
    assert_eq!(arg_u64(&args, "neg"), Err("missing or invalid 'neg'".to_string()));
    assert_eq!(arg_u64(&args, "name"), Err("missing or invalid 'name'".to_string()));
    assert_eq!(arg_str(&args, "name"), Ok("x"));
    assert_eq!(arg_str(&args, "absent"), Err("missing or invalid 'absent'".to_string()));
    assert_eq!(opt_string_vec(&args, "list"), vec!["a".to_string(), "b".to_string()]);
    assert!(opt_string_vec(&args, "name").is_empty());
    assert_eq!(arg_ids(&args, "ids"), Ok(vec![3, 5]));
    assert_eq!(arg_ids(&args, "list"), Ok(vec![2]));
    assert_eq!(arg_ids(&args, "name"), Err("'name' must be a non-empty array of item ids".to_string()));
    assert_eq!(arg_ids(&args, "absent"), Err("'absent' must be a non-empty array of item ids".to_string()));
}

#[test]
fn priority_argument_must_be_one_to_three() {
    assert_eq!(parse_priority_arg(&obj(vec![])), Ok(None));
    assert_eq!(parse_priority_arg(&obj(vec![("priority", n(2))])), Ok(Some(2)));
    let msg = Err("'priority' must be 1, 2 or 3".to_string());
    assert_eq!(parse_priority_arg(&obj(vec![("priority", n(0))])), msg);
    assert_eq!(parse_priority_arg(&obj(vec![("priority", n(4))])), msg);
    assert_eq!(parse_priority_arg(&obj(vec![("priority", s("2"))])), msg);
}

#[test]
fn due_argument_none_clears_and_junk_is_refused() {
    assert_eq!(parse_due_arg("none"), Ok(None));
    assert_eq!(parse_due_arg("NoNe"), Ok(None));
    assert!(matches!(parse_due_arg("2026-07-01"), Ok(Some(_))));
    assert_eq!(
        parse_due_arg("soon"),
        Err("invalid due date 'soon' (use YYYY-MM-DD, today, tomorrow or none)".to_string())
    );
}

#[test]
fn create_task_arguments_are_checked_in_order() {
    assert_eq!(
        create_task_request(&obj(vec![])).unwrap_err(),
        "missing or invalid 'description'"
    );
    assert_eq!(
        create_task_request(&obj(vec![("description", s("   "))])).unwrap_err(),
        "'description' must not be empty"
    );
    assert_eq!(
        create_task_request(&obj(vec![("description", s("x")), ("priority", n(7)), ("due_date", s("soon"))]))
            .unwrap_err(),
        "'priority' must be 1, 2 or 3"
    );
    assert_eq!(
        create_task_request(&obj(vec![("description", s("x")), ("due_date", s("soon"))])).unwrap_err(),
        "invalid due date 'soon' (use YYYY-MM-DD, today, tomorrow or none)"
    );
    let t = create_task_request(&obj(vec![
        ("description", s("  Pay rent ")),
        ("boards", JsonValue::Array(vec![s("finance")])),
        ("priority", n(2)),
        ("tags", JsonValue::Array(vec![s("money")])),
        ("due_date", s("2026-07-01")),
    ]))
    .unwrap();
    assert_eq!(t.description, "Pay rent");
    assert_eq!(t.boards, vec!["finance".to_string()]);
    assert_eq!(t.priority, 2);
    assert_eq!(t.tags, vec!["money".to_string()]);
    assert!(t.due_date.is_some());
    let plain = create_task_request(&obj(vec![("description", s("Work on it"))])).unwrap();
    assert_eq!(plain.priority, 1);
    assert_eq!(plain.boards, vec!["My Board".to_string()]);
    assert!(plain.tags.is_empty() && plain.due_date.is_none());
}

#[test]
fn create_note_and_state_arguments() {
    let note = create_note_request(&obj(vec![("description", s("Note text"))])).unwrap();
    assert_eq!(note.description, "Note text");
    assert!(create_note_request(&obj(vec![("description", n(1))])).is_err());
    let args = obj(vec![("id", n(1)), ("state", s("in_progress"))]);
    assert_eq!(set_task_state_request(&args), Ok((1, "in_progress")));
    assert_eq!(
        set_task_state_request(&obj(vec![("state", s("done"))])),
        Err("missing or invalid 'id'".to_string())
    );
    assert_eq!(
        set_task_state_request(&obj(vec![("id", n(1))])),
        Err("missing or invalid 'state'".to_string())
    );
}

fn step_names(steps: &[EditStep]) -> Vec<&'static str> {
    steps
        .iter()
        .map(|s| match s {
            EditStep::Description(_) => "description",
            EditStep::Priority(_) => "priority",
            EditStep::DueDate(_) => "due_date",
            EditStep::Boards(_) => "boards",
            EditStep::Tags(_) => "tags",
            EditStep::Starred(_) => "starred",
        })
        .collect()
}

#[test]
fn edit_plans_apply_changes_in_order() {
    let plan = edit_item_plan(&obj(vec![
        ("id", n(1)),
        ("description", s("Updated")),
        ("priority", n(3)),
        ("due_date", s("tomorrow")),
        ("starred", JsonValue::Bool(true)),
        ("tags", JsonValue::Array(vec![s("urgent")])),
    ]))
    .unwrap();
    assert_eq!(plan.id, 1);
    assert!(plan.failure.is_none());
    assert_eq!(step_names(&plan.steps), vec!["description", "priority", "due_date", "tags", "starred"]);
    let shown = edit_result(plan.id, &plan.steps);
    let names: Vec<String> = json_as_array(at(&shown, &["updated"])).unwrap().iter().map(|v| json_as_str(v).unwrap().to_string()).collect();
    assert_eq!(names, vec!["description", "priority", "due_date", "tags", "starred"]);
}

#[test]
fn edit_plans_stop_at_the_first_bad_argument() {
    assert_eq!(edit_item_plan(&obj(vec![])).unwrap_err(), "missing or invalid 'id'");
    let plan = edit_item_plan(&obj(vec![("id", n(1)), ("description", s("ok")), ("priority", n(9)), ("starred", JsonValue::Bool(true))])).unwrap();
    assert_eq!(step_names(&plan.steps), vec!["description"]);
    assert_eq!(plan.failure.as_deref(), Some("'priority' must be 1, 2 or 3"));
    let plan = edit_item_plan(&obj(vec![("id", n(1)), ("boards", JsonValue::Array(vec![])), ("starred", JsonValue::Bool(false))])).unwrap();
    assert!(plan.steps.is_empty());
    assert_eq!(plan.failure.as_deref(), Some("'boards' must be a non-empty array of board names"));
    let plan = edit_item_plan(&obj(vec![("id", n(1)), ("description", s("  "))])).unwrap();
    assert_eq!(plan.failure.as_deref(), Some("'description' must not be empty"));
    let plan = edit_item_plan(&obj(vec![("id", n(1))])).unwrap();
    assert!(plan.steps.is_empty());
    assert_eq!(
        plan.failure.as_deref(),
        Some("no editable fields provided (description, priority, due_date, boards, tags, starred)")
    );
    let plan = edit_item_plan(&obj(vec![("id", n(2)), ("due_date", s("someday"))])).unwrap();
    assert_eq!(
        plan.failure.as_deref(),
        Some("invalid due date 'someday' (use YYYY-MM-DD, today, tomorrow or none)")
    );
    let plan = edit_item_plan(&obj(vec![("id", n(2)), ("due_date", s("none"))])).unwrap();
    assert!(matches!(plan.steps.as_slice(), [EditStep::DueDate(None)]));
}

#[test]
fn filters_are_checked_by_name() {
    assert_eq!(check_filter(None), Ok(None));
    assert_eq!(check_filter(Some("in_progress")), Ok(Some(ItemFilter::InProgress)));
    assert_eq!(check_filter(Some("starred")), Ok(Some(ItemFilter::Starred)));
    assert_eq!(
        check_filter(Some("finished")),
        Err("invalid filter 'finished' (use one of [\"pending\", \"in_progress\", \"done\", \"task\", \"note\", \"starred\"])".to_string())
    );
    let args = list_args(&obj(vec![("archived", JsonValue::Bool(true)), ("filter", s("done")), ("query", s("Rent"))]));
    assert!(args.archived);
    assert_eq!(args.filter.as_deref(), Some("done"));
    assert_eq!(args.query.as_deref(), Some("Rent"));
    assert!(args.board.is_none() && args.tag.is_none());
    assert!(!list_args(&obj(vec![("archived", s("yes"))])).archived);
}

fn task_item(id: u64, description: &str, complete: bool, in_progress: bool) -> ListedItem {
    ListedItem {
        id,
        is_task: true,
        description: description.to_string(),
        boards: vec!["My Board".to_string()],
        tags: vec![],
        starred: false,
        created: "Fri Jun 12 2026".to_string(),
        task: Some(TaskFields { is_complete: complete, in_progress, priority: 1, due_date: None }),
        note_body: None,
        on_board: true,
        has_tag: true,
    }
}

fn note_item(id: u64, description: &str, body: Option<&str>) -> ListedItem {
    ListedItem {
        id,
        is_task: false,
        description: description.to_string(),
        boards: vec!["My Board".to_string()],
        tags: vec!["t".to_string()],
        starred: true,
        created: "Fri Jun 12 2026".to_string(),
        task: None,
        note_body: body.map(|b| b.to_string()),
        on_board: false,
        has_tag: true,
    }
}

fn ids(items: &[ListedItem]) -> Vec<u64> {
    items.iter().map(|i| i.id).collect()
}

#[test]
fn listings_keep_matching_items_sorted_by_id() {
    let items = || {
        vec![
            task_item(3, "Pay RENT", false, false),
            note_item(1, "Ideas", Some("the rent is due")),
            task_item(2, "Work on it", false, true),
            task_item(5, "Done thing", true, false),
        ]
    };
    assert_eq!(ids(&select_items(items(), None, false, false, None)), vec![1, 2, 3, 5]);
    assert_eq!(ids(&select_items(items(), Some(ItemFilter::Pending), false, false, None)), vec![3]);
    assert_eq!(ids(&select_items(items(), Some(ItemFilter::InProgress), false, false, None)), vec![2]);
    assert_eq!(ids(&select_items(items(), Some(ItemFilter::Done), false, false, None)), vec![5]);
    assert_eq!(ids(&select_items(items(), Some(ItemFilter::Task), false, false, None)), vec![2, 3, 5]);
    assert_eq!(ids(&select_items(items(), Some(ItemFilter::Note), false, false, None)), vec![1]);
    assert_eq!(ids(&select_items(items(), Some(ItemFilter::Starred), false, false, None)), vec![1]);
    assert_eq!(ids(&select_items(items(), None, false, false, Some("rent"))), vec![1, 3]);
    assert_eq!(ids(&select_items(items(), None, false, false, Some("RENT IS"))), vec![1]);
    assert_eq!(ids(&select_items(items(), None, true, false, None)), vec![2, 3, 5]);
    assert!(select_items(items(), Some(ItemFilter::Note), true, false, None).is_empty());
}

#[test]
fn listed_items_show_their_fields() {
    let mut t = task_item(7, "Pay rent", false, false);
    if let Some(f) = t.task.as_mut() {
        f.priority = 2;
    }
    let shown = item_to_json(&t);
    assert_eq!(text_at(&shown, &["type"]), "task");
    assert_eq!(text_at(&shown, &["state"]), "pending");
    assert!(matches!(at(&shown, &["priority"]), JsonValue::Number(JsonNumber::PosInt(2))));
    assert!(json_get(&shown, "due_date").is_none());
    let note = item_to_json(&note_item(8, "Ideas", None));
    assert_eq!(text_at(&note, &["type"]), "note");
    assert!(json_get(&note, "state").is_none());
    assert!(matches!(at(&note, &["starred"]), JsonValue::Bool(true)));
    let all = items_json(&vec![t, note_item(9, "x", None)]);
    assert_eq!(json_as_array(&all).unwrap().len(), 2);
}

#[test]
fn deletion_results_list_the_ids() {
    let r = ids_result(true, &vec![1, 2]);
    let items = json_as_array(at(&r, &["deleted"])).unwrap();
    assert_eq!(items.len(), 2);
    assert!(json_get(&ids_result(false, &vec![3]), "restored").is_some());
}

#[test]
fn listing_reports_store_errors_then_bad_filters() {
    let bad = list_args(&obj(vec![("filter", s("finished"))]));
    assert_eq!(list_items(&bad, Err("store down".to_string())).unwrap_err(), "store down");
    assert!(list_items(&bad, Ok(vec![])).unwrap_err().starts_with("invalid filter 'finished'"));
    let good = list_args(&obj(vec![("filter", s("in_progress"))]));
    let shown = list_items(&good, Ok(vec![task_item(2, "a", false, true), task_item(1, "b", false, true), task_item(3, "c", false, false)])).unwrap();
    let ids: Vec<u64> = json_as_array(&shown)
        .unwrap()
        .iter()
        .map(|v| match json_get(v, "id") {
            Some(JsonValue::Number(JsonNumber::PosInt(i))) => *i,
            _ => panic!("no id"),
        })
        .collect();
    assert_eq!(ids, vec![1, 2]);
}

fn strings_at(v: &JsonValue, path: &[&str]) -> Vec<String> {
    json_as_array(at(v, path)).unwrap().iter().map(|x| json_as_str(x).unwrap().to_string()).collect()
}

#[test]
fn schemas_list_the_accepted_values() {
    let defs = definitions();
    let tools = json_as_array(&defs).unwrap();
    assert_eq!(
        strings_at(&tools[0], &["inputSchema", "properties", "filter", "enum"]),
        vec!["pending", "in_progress", "done", "task", "note", "starred"]
    );
    assert_eq!(strings_at(&tools[4], &["inputSchema", "properties", "state", "enum"]), vec!["pending", "in_progress", "done"]);
    for i in [2, 5] {
        assert!(matches!(at(&tools[i], &["inputSchema", "properties", "priority", "minimum"]), JsonValue::Number(JsonNumber::PosInt(1))));
        assert!(matches!(at(&tools[i], &["inputSchema", "properties", "priority", "maximum"]), JsonValue::Number(JsonNumber::PosInt(3))));
    }
    for name in ["pending", "in_progress", "done", "task", "note", "starred"] {
        assert!(check_filter(Some(name)).is_ok());
    }
}

#[test]
fn only_shown_items_need_showable_due_dates() {
    let items = || {
        let mut edge = task_item(5, "far away", false, false);
        if let Some(f) = edge.task.as_mut() {
            f.due_date = Some(taskbook::calendar::MAX_MILLIS - 10);
        }
        vec![task_item(1, "a", false, true), edge]
    };
    let shown_all = list_args(&obj(vec![]));
    assert!(!listing_showable(&shown_all, &items()));
    let only_started = list_args(&obj(vec![("filter", s("in_progress"))]));
    assert!(listing_showable(&only_started, &items()));
    let bad = list_args(&obj(vec![("filter", s("finished"))]));
    assert!(listing_showable(&bad, &items()));
    assert!(list_items(&bad, Ok(items())).is_err());
    assert!(list_items(&only_started, Ok(items())).is_ok());
}

#[test]
fn due_arguments_carry_the_parsed_instant() {
    assert_eq!(parse_due_arg("NONE"), Ok(None));
    assert_eq!(parse_due_arg("2026-07-01"), Ok(taskbook::due::parse_due_date("2026-07-01")));
    assert!(matches!(parse_due_arg("now+0100"), Ok(Some(_))));
    assert_eq!(
        parse_due_arg("someday"),
        Err("invalid due date 'someday' (use YYYY-MM-DD, today, tomorrow or none)".to_string())
    );
}

#[test]
fn lines_are_parsed_before_they_are_handled() {
    let resp = respond(handle_line("not json at all", "1.0.0"));
    assert_eq!(code_of(&resp), -32700);
    assert!(matches!(at(&resp, &["id"]), JsonValue::Null));
    let expected = serde_json::from_str::<serde_json::Value>("not json at all").unwrap_err().to_string();
    assert_eq!(text_at(&resp, &["error", "message"]), format!("parse error: {expected}"));
    let pong = respond(handle_line(r#"{"jsonrpc":"2.0","id":4,"method":"ping"}"#, "1.0.0"));
    assert_eq!(response_text(&pong), r#"{"id":4,"jsonrpc":"2.0","result":{}}"#);
    assert!(matches!(handle_line(r#"{"jsonrpc":"2.0","method":"notifications/initialized"}"#, "1.0.0"), Reply::Silent));
    match handle_line(r#"{"jsonrpc":"2.0","id":"a","method":"tools/call","params":{"name":"list_boards"}}"#, "1.0.0") {
        Reply::CallTool { id, params } => {
            assert!(matches!(id, JsonValue::Str(ref t) if t == "a"));
            assert_eq!(text_at(&params, &["name"]), "list_boards");
        }
        _ => panic!("expected a tool call"),
    }
}

#[test]
fn tool_results_carry_the_json_text_of_the_value() {
    let value = obj(vec![("type", s("task")), ("id", n(3)), ("neg", JsonValue::Number(JsonNumber::NegInt(-2)))]);
    let r = tool_outcome(Ok(value));
    let content = json_as_array(at(&r, &["content"])).unwrap();
    assert_eq!(text_at(&content[0], &["text"]), r#"{"id":3,"neg":-2,"type":"task"}"#);
    assert!(matches!(at(&r, &["isError"]), JsonValue::Bool(false)));
    let failed = tool_outcome(Err("boom".to_string()));
    let content = json_as_array(at(&failed, &["content"])).unwrap();
    assert_eq!(text_at(&content[0], &["text"]), "boom");
    assert!(matches!(at(&failed, &["isError"]), JsonValue::Bool(true)));
    assert_eq!(response_text(&JsonValue::Array(vec![s("a\"b"), JsonValue::Null])), r#"["a\"b",null]"#);
}

#[test]
fn tools_list_carries_the_definitions() {
    let resp = respond(handle_line(r#"{"jsonrpc":"2.0","id":1,"method":"tools/list"}"#, "1.0.0"));
    assert_eq!(response_text(at(&resp, &["result", "tools"])), response_text(&definitions()));
}

#[test]
fn items_go_on_the_default_board_when_none_is_given() {
    let note = create_note_request(&obj(vec![("description", s("Idea"))])).unwrap();
    assert_eq!(note.boards, vec!["My Board".to_string()]);
    let given = create_note_request(&obj(vec![("description", s("Idea")), ("boards", JsonValue::Array(vec![s("ideas")]))])).unwrap();
    assert_eq!(given.boards, vec!["ideas".to_string()]);
}
