use feishu_tools::calendar::{CalendarOp, FeishuCalendarTool};
use feishu_tools::client::FeishuClient;
use feishu_tools::json::Json;
use feishu_tools::tool::{ApiCall, HttpReply, ResultKind, ToolError};

fn from_value(v: &serde_json::Value) -> Json {
    match v {
        serde_json::Value::Null => Json::Null,
        serde_json::Value::Bool(b) => Json::Bool(*b),
        serde_json::Value::Number(n) => match n.as_i64() {
            Some(i) => Json::Int(i),
            None => Json::Number(n.to_string()),
        },
        serde_json::Value::String(s) => Json::Str(s.clone()),
        serde_json::Value::Array(items) => Json::Array(items.iter().map(from_value).collect()),
        serde_json::Value::Object(map) => Json::Object(
            map.iter().map(|(k, v)| (k.clone(), from_value(v))).collect(),
        ),
    }
}

fn to_value(j: &Json) -> serde_json::Value {
    match j {
        Json::Null => serde_json::Value::Null,
        Json::Bool(b) => serde_json::Value::Bool(*b),
        Json::Int(i) => serde_json::Value::from(*i),
        Json::Number(s) => serde_json::from_str(s).unwrap(),
        Json::Str(s) => serde_json::Value::String(s.clone()),
        Json::Array(items) => serde_json::Value::Array(items.iter().map(to_value).collect()),
        Json::Object(entries) => {
            let mut map = serde_json::Map::new();
            for (k, v) in entries {
                map.insert(k.clone(), to_value(v));
            }
            serde_json::Value::Object(map)
        }
    }
}

fn parse(text: &str) -> Json {
    from_value(&serde_json::from_str(text).unwrap())
}

fn value(text: &str) -> serde_json::Value {
    serde_json::from_str(text).unwrap()
}

fn message(e: &ToolError) -> String {
    let rendered = match e {
        ToolError::ApiFailed { code, .. } => to_value(code).to_string(),
        ToolError::AuthFailed(body) => format!("{:?}", to_value(body)),
        _ => String::new(),
    };
    e.describe(&rendered)
}

fn tool() -> FeishuCalendarTool {
    FeishuCalendarTool::new(Some(FeishuClient::new("a".to_string(), "b".to_string(), true)))
}

fn get_path(call: &ApiCall) -> String {
    match call {
        ApiCall::Get { path } => path.clone(),
        ApiCall::Post { .. } => panic!("expected a GET"),
    }
}

fn reply(body: &str) -> HttpReply {
    HttpReply { status: 200, body: parse(body) }
}

#[test]
fn calendar_name_and_description() {
    let t = tool();
    assert_eq!(t.name(), "feishu_calendar");
    assert_eq!(
        t.description(),
        "Query Feishu/Lark calendar events, list calendars, and create events."
    );
}

#[test]
fn calendar_schema() {
    let expected = value(
        r#"{
            "type": "object",
            "properties": {
                "action": {
                    "type": "string",
                    "enum": ["list_calendars", "list_events", "create_event"],
                    "description": "Action to perform"
                },
                "calendar_id": {"type": "string", "description": "Calendar ID (required for list_events and create_event)"},
                "start_time": {"type": "string", "description": "Start time in Unix timestamp seconds (for list_events)"},
                "end_time": {"type": "string", "description": "End time in Unix timestamp seconds (for list_events)"},
                "summary": {"type": "string", "description": "Event title (for create_event)"},
                "description": {"type": "string", "description": "Event description (for create_event)"},
                "start_time_human": {"type": "string", "description": "Event start time in ISO 8601 format, e.g. 2026-05-21T10:00:00 (for create_event)"},
                "end_time_human": {"type": "string", "description": "Event end time in ISO 8601 format (for create_event)"},
                "page_size": {"type": "integer", "description": "Max results (default 20)"}
            },
            "required": ["action"]
        }"#,
    );
    assert_eq!(to_value(&tool().parameters_schema()), expected);
}

#[test]
fn calendar_without_client_is_not_configured() {
    let t = FeishuCalendarTool::new(None);
    let err = t.execute(&parse(r#"{"action": "list_calendars"}"#)).err().unwrap();
    assert_eq!(message(&err), "Feishu client not configured");
    let err = t.execute(&parse(r#"{}"#)).err().unwrap();
    assert!(matches!(err, ToolError::NotConfigured));
}

#[test]
fn calendar_missing_and_unsupported_action() {
    let t = tool();
    assert_eq!(message(&t.execute(&parse("{}")).err().unwrap()), "missing action");
    assert_eq!(
        message(&t.execute(&parse(r#"{"action": 3}"#)).err().unwrap()),
        "missing action"
    );
    assert_eq!(
        message(&t.execute(&parse(r#"{"action": "delete"}"#)).err().unwrap()),
        "unsupported action: delete"
    );
}

#[test]
fn list_calendars_plan() {
    let plan = tool().execute(&parse(r#"{"action": "list_calendars"}"#)).ok().unwrap();
    assert!(plan.op == CalendarOp::ListCalendars);
    assert_eq!(get_path(&plan.call), "/calendar/v4/calendars?page_size=50");
}

#[test]
fn list_events_plan_defaults_and_clamps_page_size() {
    let t = tool();
    let plan = t.execute(&parse(r#"{"action": "list_events", "calendar_id": "cal1"}"#)).ok().unwrap();
    assert!(plan.op == CalendarOp::ListEvents);
    assert_eq!(get_path(&plan.call), "/calendar/v4/calendars/cal1/events?page_size=20");
    let plan = t
        .execute(&parse(r#"{"action": "list_events", "calendar_id": "c", "page_size": 500}"#))
        .ok()
        .unwrap();
    assert_eq!(get_path(&plan.call), "/calendar/v4/calendars/c/events?page_size=100");
    let plan = t
        .execute(&parse(r#"{"action": "list_events", "calendar_id": "c", "page_size": -4}"#))
        .ok()
        .unwrap();
    assert_eq!(get_path(&plan.call), "/calendar/v4/calendars/c/events?page_size=1");
    let plan = t
        .execute(&parse(r#"{"action": "list_events", "calendar_id": "c", "page_size": "7"}"#))
        .ok()
        .unwrap();
    assert_eq!(get_path(&plan.call), "/calendar/v4/calendars/c/events?page_size=20");
}

#[test]
fn list_events_plan_with_anchor_time() {
    let plan = tool()
        .execute(&parse(
            r#"{"action": "list_events", "calendar_id": "c", "page_size": 37, "start_time": "1700000000", "end_time": "1800000000"}"#,
        ))
        .ok()
        .unwrap();
    assert_eq!(
        get_path(&plan.call),
        "/calendar/v4/calendars/c/events?page_size=37&anchor_time=1700000000&end_time=1800000000"
    );
}

#[test]
fn list_events_plan_carries_time_window() {
    let t = tool();
    let plan = t
        .execute(&parse(
            r#"{"action": "list_events", "calendar_id": "cal1", "start_time": "1700000000", "end_time": "1700086400"}"#,
        ))
        .ok()
        .unwrap();
    assert_eq!(
        get_path(&plan.call),
        "/calendar/v4/calendars/cal1/events?page_size=20&anchor_time=1700000000&end_time=1700086400"
    );
    let plan = t
        .execute(&parse(
            r#"{"action": "list_events", "calendar_id": "cal1", "end_time": "1700086400"}"#,
        ))
        .ok()
        .unwrap();
    assert_eq!(
        get_path(&plan.call),
        "/calendar/v4/calendars/cal1/events?page_size=20&end_time=1700086400"
    );
    let plan = t
        .execute(&parse(
            r#"{"action": "list_events", "calendar_id": "cal1", "end_time": 1700086400}"#,
        ))
        .ok()
        .unwrap();
    assert_eq!(get_path(&plan.call), "/calendar/v4/calendars/cal1/events?page_size=20");
}

#[test]
fn list_events_plan_needs_calendar_id() {
    let err = tool().execute(&parse(r#"{"action": "list_events"}"#)).err().unwrap();
    assert_eq!(message(&err), "missing calendar_id");
}

#[test]
fn create_event_plan() {
    let plan = tool()
        .execute(&parse(
            r#"{"action": "create_event", "calendar_id": "c1", "summary": "Standup",
                "start_time_human": "2026-05-21T10:00:00", "end_time_human": "2026-05-21T10:30:00",
                "description": "daily"}"#,
        ))
        .ok()
        .unwrap();
    assert!(plan.op == CalendarOp::CreateEvent);
    match &plan.call {
        ApiCall::Post { path, body } => {
            assert_eq!(path, "/calendar/v4/calendars/c1/events");
            assert_eq!(
                to_value(body),
                value(
                    r#"{"summary": "Standup", "description": "daily",
                        "start_time": {"timestamp": "1779328800", "timezone": "Asia/Shanghai"},
                        "end_time": {"timestamp": "1779330600", "timezone": "Asia/Shanghai"}}"#
                )
            );
        }
        ApiCall::Get { .. } => panic!("expected a POST"),
    }
}

#[test]
fn create_event_plan_defaults_description_and_checks_fields_in_order() {
    let t = tool();
    let plan = t
        .execute(&parse(
            r#"{"action": "create_event", "calendar_id": "c1", "summary": "S",
                "start_time_human": "2026-05-21T10:00:00", "end_time_human": "2026-05-21T11:00:00"}"#,
        ))
        .ok()
        .unwrap();
    match &plan.call {
        ApiCall::Post { body, .. } => {
            assert_eq!(to_value(body)["description"], value(r#""""#))
        }
        ApiCall::Get { .. } => panic!("expected a POST"),
    }
    let cases = [
        (r#"{"action": "create_event"}"#, "missing calendar_id"),
        (r#"{"action": "create_event", "calendar_id": "c"}"#, "missing summary"),
        (
            r#"{"action": "create_event", "calendar_id": "c", "summary": "s"}"#,
            "missing start_time_human",
        ),
        (
            r#"{"action": "create_event", "calendar_id": "c", "summary": "s", "start_time_human": "x"}"#,
            "missing end_time_human",
        ),
    ];
    for (args, msg) in cases {
        assert_eq!(message(&t.execute(&parse(args)).err().unwrap()), msg);
    }
}

#[test]
fn list_calendars_reply_lists_each_calendar() {
    let r = tool()
        .finish(
            CalendarOp::ListCalendars,
            &reply(
                r#"{"code": 0, "data": {"calendar_list": [
                    {"title": "Work", "calendar_id": "cal_1", "role": "owner"},
                    {"calendar_id": "cal_2"}
                ]}}"#,
            ),
        )
        .ok()
        .unwrap();
    assert!(r.kind == ResultKind::Success);
    assert_eq!(
        r.output,
        "Found 2 calendars:\n- Work (id: cal_1, role: owner)\n- untitled (id: cal_2, role: )"
    );
}

#[test]
fn list_calendars_reply_empty_and_failed() {
    let t = tool();
    let r = t.list_calendars(&parse(r#"{"code": 0, "data": {}}"#)).ok().unwrap();
    assert_eq!(r.output, "No calendars found.");
    let r = t.list_calendars(&parse(r#"{"code": 0, "data": {"calendar_list": []}}"#)).ok().unwrap();
    assert_eq!(r.output, "No calendars found.");
    let err = t.list_calendars(&parse(r#"{"code": 99991663, "msg": "token invalid"}"#)).err().unwrap();
    assert_eq!(message(&err), "list calendars failed: code=99991663, msg=token invalid");
    let err = t.list_calendars(&parse(r#"{"msg": 5}"#)).err().unwrap();
    assert_eq!(message(&err), "list calendars failed: code=null, msg=unknown");
    let err = t.list_calendars(&parse(r#"{"code": 0.0}"#)).err().unwrap();
    assert_eq!(message(&err), "list calendars failed: code=0.0, msg=unknown");
}

#[test]
fn list_events_reply() {
    let t = tool();
    let r = t
        .list_events(&parse(
            r#"{"code": 0, "data": {"items": [
                {"summary": "Standup", "start_time": {"timestamp": "100"}, "end_time": {"timestamp": "200"}},
                {}
            ]}}"#,
        ))
        .ok()
        .unwrap();
    assert!(r.kind == ResultKind::Success);
    assert_eq!(
        r.output,
        "Found 2 events:\n- Standup (100 -> 200)\n- (no title) (unknown -> )"
    );
    let r = t.list_events(&parse(r#"{"code": 0, "data": {"items": []}}"#)).ok().unwrap();
    assert_eq!(r.output, "No events found.");
    let err = t.list_events(&parse(r#"{"code": 190002, "msg": "no permission"}"#)).err().unwrap();
    assert_eq!(message(&err), "list events failed: code=190002, msg=no permission");
}

#[test]
fn list_events_reply_counts_many_items() {
    let mut items = Vec::new();
    for i in 0..12 {
        items.push(format!(r#"{{"summary": "e{}"}}"#, i));
    }
    let body = format!(r#"{{"code": 0, "data": {{"items": [{}]}}}}"#, items.join(","));
    let r = tool().list_events(&parse(&body)).ok().unwrap();
    assert!(r.output.starts_with("Found 12 events:\n- e0 (unknown -> )\n"));
    assert_eq!(r.output.lines().count(), 13);
}

#[test]
fn create_event_reply() {
    let t = tool();
    let r = t
        .finish(CalendarOp::CreateEvent, &reply(r#"{"code": 0, "data": {"event_id": "ev_9"}}"#))
        .ok()
        .unwrap();
    assert_eq!(r.output, "Event created successfully. event_id: ev_9");
    let r = t.create_event(&parse(r#"{"code": 0}"#)).ok().unwrap();
    assert_eq!(r.output, "Event created successfully. event_id: unknown");
    let err = t.create_event(&parse(r#"{"code": 1000, "msg": "bad time"}"#)).err().unwrap();
    assert_eq!(message(&err), "create event failed: code=1000, msg=bad time");
}

fn create_with_times(start: &str, end: &str) -> Result<serde_json::Value, String> {
    let mut map = serde_json::Map::new();
    for (k, v) in [
        ("action", "create_event"),
        ("calendar_id", "cal1"),
        ("summary", "Sync"),
        ("start_time_human", start),
        ("end_time_human", end),
    ] {
        map.insert(k.to_string(), serde_json::Value::String(v.to_string()));
    }
    match tool().execute(&from_value(&serde_json::Value::Object(map))) {
        Ok(plan) => match plan.call {
            ApiCall::Post { body, .. } => Ok(to_value(&body)),
            ApiCall::Get { .. } => panic!("expected a POST"),
        },
        Err(e) => Err(message(&e)),
    }
}

#[test]
fn create_event_sends_unix_seconds_of_shanghai_time() {
    let body = create_with_times("2026-05-21T10:00:00", "2026-05-21T11:00:00").unwrap();
    assert_eq!(body["start_time"]["timestamp"], value(r#""1779328800""#));
    assert_eq!(body["end_time"]["timestamp"], value(r#""1779332400""#));
    assert_eq!(body["start_time"]["timezone"], value(r#""Asia/Shanghai""#));
}

#[test]
fn event_times_across_the_calendar() {
    let cases = [
        ("2024-02-29T23:59:59", "1709222399"),
        ("2000-02-29T00:00:00", "951753600"),
        ("1970-01-01T08:00:00", "0"),
        ("1970-01-01T00:00:00", "-28800"),
        ("0001-01-01T00:00:00", "-62135625600"),
        ("9999-12-31T23:59:59", "253402271999"),
        ("1900-03-01T12:30:15", "-2203874985"),
    ];
    for (iso, secs) in cases {
        let body = create_with_times(iso, "2026-05-21T11:00:00").unwrap();
        assert_eq!(body["start_time"]["timestamp"], serde_json::Value::String(secs.to_string()), "{}", iso);
    }
}

#[test]
fn invalid_event_times_are_refused() {
    let bad = [
        "2026-05-21 10:00:00",
        "2026-5-21T10:00:00",
        "2026-05-21T10:00",
        "2026-05-21T10:00:00Z",
        "2026-05-21T24:00:00",
        "2026-05-21T10:60:00",
        "2026-05-21T10:00:60",
        "2026-13-01T10:00:00",
        "2026-00-01T10:00:00",
        "2026-04-31T10:00:00",
        "2023-02-29T10:00:00",
        "1900-02-29T10:00:00",
        "２026-05-21T10:00:00",
        "tomorrow",
    ];
    for text in bad {
        assert_eq!(
            create_with_times(text, "2026-05-21T11:00:00").unwrap_err(),
            format!("invalid start_time_human (expected YYYY-MM-DDTHH:MM:SS): {}", text)
        );
    }
    assert_eq!(
        create_with_times("2026-05-21T10:00:00", "soon").unwrap_err(),
        "invalid end_time_human (expected YYYY-MM-DDTHH:MM:SS): soon"
    );
    assert_eq!(
        create_with_times("later", "soon").unwrap_err(),
        "invalid start_time_human (expected YYYY-MM-DDTHH:MM:SS): later"
    );
}
