use std::sync::Arc;
use vstd::prelude::*;

use crate::client::{FeishuClient, FeishuClientV};
use crate::json::{Json, JsonV, entries_view, push_entry};
use crate::text::{decimal, join, join_strings, push_decimal, push_signed_decimal, signed_decimal};
use crate::time::{parse_shanghai_time, shanghai_unix_seconds};
use crate::tool::{
    ApiCall, ApiCallV, HttpReply, Plan, ToolError, ToolErrorV, ToolResult, ToolResultV,
    api_error, api_failure, lines_of, code_is_zero, nested_items, object_schema, object_schema_json,
    outcome, page_size, page_size_of, reply_ok, required_str, schema_enum_prop,
    schema_enum_prop_json, schema_prop, schema_prop_json, str_field, str_field_or, str_views,
    success_v,
};

verus! {

/// The operations of the calendar tool.
#[derive(PartialEq, Eq, Structural, Clone, Copy, Debug)]
pub enum CalendarOp {
    ListCalendars,
    ListEvents,
    CreateEvent,
}

impl View for CalendarOp {
    type V = CalendarOp;

    open spec fn view(&self) -> CalendarOp {
        *self
    }
}

/// Lists calendars and their events, and creates events.
pub struct FeishuCalendarTool {
    client: Option<Arc<FeishuClient>>,
}

/// The time zone of the events that the tool creates.
pub open spec fn event_time_zone() -> Seq<char> {
    "Asia/Shanghai"@
}

/// The schema of the calendar tool's arguments.
pub open spec fn calendar_schema() -> JsonV {
    object_schema(
        Seq::empty().push(
            (
                "action"@,
                schema_enum_prop(
                    Seq::empty().push("list_calendars"@).push("list_events"@).push(
                        "create_event"@,
                    ),
                    "Action to perform"@,
                ),
            ),
        ).push(
            (
                "calendar_id"@,
                schema_prop(
                    "string"@,
                    "Calendar ID (required for list_events and create_event)"@,
                ),
            ),
        ).push(
            (
                "start_time"@,
                schema_prop("string"@, "Start time in Unix timestamp seconds (for list_events)"@),
            ),
        ).push(
            (
                "end_time"@,
                schema_prop("string"@, "End time in Unix timestamp seconds (for list_events)"@),
            ),
        ).push(("summary"@, schema_prop("string"@, "Event title (for create_event)"@))).push(
            ("description"@, schema_prop("string"@, "Event description (for create_event)"@)),
        ).push(
            (
                "start_time_human"@,
                schema_prop(
                    "string"@,
                    "Event start time in ISO 8601 format, e.g. 2026-05-21T10:00:00 (for create_event)"@,
                ),
            ),
        ).push(
            (
                "end_time_human"@,
                schema_prop("string"@, "Event end time in ISO 8601 format (for create_event)"@),
            ),
        ).push(("page_size"@, schema_prop("integer"@, "Max results (default 20)"@))),
        Seq::empty().push("action"@),
    )
}

/// The path that lists the events of a calendar: the page size, then the
/// start of the time window where `start_time` is given, then its end where
/// `end_time` is given.
pub open spec fn list_events_path(args: JsonV, calendar_id: Seq<char>) -> Seq<char> {
    let base = "/calendar/v4/calendars/"@ + calendar_id + "/events?page_size="@ + decimal(
        page_size_of(args, 20, 100) as nat,
    );
    let with_start = match args.index("start_time"@).as_str() {
        Some(st) => base + "&anchor_time="@ + st,
        None => base,
    };
    match args.index("end_time"@).as_str() {
        Some(et) => with_start + "&end_time="@ + et,
        None => with_start,
    }
}

/// The call that lists the events of the calendar that `args` names.
pub open spec fn list_events_call(args: JsonV) -> Result<ApiCallV, ToolErrorV> {
    match args.index("calendar_id"@).as_str() {
        None => Err(ToolErrorV::Missing("calendar_id"@)),
        Some(id) => Ok(ApiCallV::Get { path: list_events_path(args, id) }),
    }
}

/// The start or end of an event: a timestamp in the tool's time zone.
pub open spec fn event_time(timestamp: Seq<char>) -> JsonV {
    JsonV::Object(
        Seq::empty().push(("timestamp"@, JsonV::Str(timestamp))).push(
            ("timezone"@, JsonV::Str(event_time_zone())),
        ),
    )
}

/// The body of the request that creates an event.
pub open spec fn event_body(
    summary: Seq<char>,
    description: Seq<char>,
    start: Seq<char>,
    end: Seq<char>,
) -> JsonV {
    JsonV::Object(
        Seq::empty().push(("summary"@, JsonV::Str(summary))).push(
            ("description"@, JsonV::Str(description)),
        ).push(("start_time"@, event_time(start))).push(("end_time"@, event_time(end))),
    )
}

/// The start or end of an event as the API takes it: the Unix seconds of
/// the ISO 8601 time in `text`, read in Asia/Shanghai; the error names the
/// argument where `text` is no such time.
pub open spec fn event_timestamp(field: Seq<char>, text: Seq<char>) -> Result<Seq<char>, ToolErrorV> {
    match shanghai_unix_seconds(text) {
        Some(secs) => Ok(signed_decimal(secs)),
        None => Err(ToolErrorV::InvalidTime { field, text }),
    }
}

/// The call that creates the event that `args` describes.
pub open spec fn create_event_call(args: JsonV) -> Result<ApiCallV, ToolErrorV> {
    match args.index("calendar_id"@).as_str() {
        None => Err(ToolErrorV::Missing("calendar_id"@)),
        Some(id) => match args.index("summary"@).as_str() {
            None => Err(ToolErrorV::Missing("summary"@)),
            Some(summary) => match args.index("start_time_human"@).as_str() {
                None => Err(ToolErrorV::Missing("start_time_human"@)),
                Some(start) => match args.index("end_time_human"@).as_str() {
                    None => Err(ToolErrorV::Missing("end_time_human"@)),
                    Some(end) => match event_timestamp("start_time_human"@, start) {
                        Err(e) => Err(e),
                        Ok(start_ts) => match event_timestamp("end_time_human"@, end) {
                            Err(e) => Err(e),
                            Ok(end_ts) => Ok(
                                ApiCallV::Post {
                                    path: "/calendar/v4/calendars/"@ + id + "/events"@,
                                    body: event_body(
                                        summary,
                                        args.index("description"@).str_or(""@),
                                        start_ts,
                                        end_ts,
                                    ),
                                },
                            ),
                        },
                    },
                },
            },
        },
    }
}

pub open spec fn with_op(
    op: CalendarOp,
    call: Result<ApiCallV, ToolErrorV>,
) -> Result<(CalendarOp, ApiCallV), ToolErrorV> {
    match call {
        Ok(c) => Ok((op, c)),
        Err(e) => Err(e),
    }
}

/// What `execute` plans for `args`, where the tool has a client.
pub open spec fn calendar_plan(args: JsonV) -> Result<(CalendarOp, ApiCallV), ToolErrorV> {
    match args.index("action"@).as_str() {
        None => Err(ToolErrorV::Missing("action"@)),
        Some(action) => if action == "list_calendars"@ {
            Ok(
                (
                    CalendarOp::ListCalendars,
                    ApiCallV::Get { path: "/calendar/v4/calendars?page_size=50"@ },
                ),
            )
        } else if action == "list_events"@ {
            with_op(CalendarOp::ListEvents, list_events_call(args))
        } else if action == "create_event"@ {
            with_op(CalendarOp::CreateEvent, create_event_call(args))
        } else {
            Err(ToolErrorV::Unsupported(action))
        },
    }
}

/// The line that lists one calendar.
pub open spec fn calendar_line(cal: JsonV) -> Seq<char> {
    "- "@ + cal.index("title"@).str_or("untitled"@) + " (id: "@ + cal.index(
        "calendar_id"@,
    ).str_or(""@) + ", role: "@ + cal.index("role"@).str_or(""@) + ")"@
}

/// What the tool makes of the reply to a calendar listing.
pub open spec fn list_calendars_reply(body: JsonV) -> Result<ToolResultV, ToolErrorV> {
    if !code_is_zero(body) {
        Err(api_failure("list calendars failed: code="@, body))
    } else {
        let items = body.index("data"@).index("calendar_list"@).items_or_empty();
        if items.len() == 0 {
            Ok(success_v("No calendars found."@))
        } else {
            Ok(
                success_v(
                    "Found "@ + decimal(items.len()) + " calendars:\n"@ + join(
                        items.map_values(|c: JsonV| calendar_line(c)),
                        "\n"@,
                    ),
                ),
            )
        }
    }
}

/// The line that lists one event.
pub open spec fn event_line(ev: JsonV) -> Seq<char> {
    "- "@ + ev.index("summary"@).str_or("(no title)"@) + " ("@ + ev.index("start_time"@).index(
        "timestamp"@,
    ).str_or("unknown"@) + " -> "@ + ev.index("end_time"@).index("timestamp"@).str_or(""@)
        + ")"@
}

/// What the tool makes of the reply to an event listing.
pub open spec fn list_events_reply(body: JsonV) -> Result<ToolResultV, ToolErrorV> {
    if !code_is_zero(body) {
        Err(api_failure("list events failed: code="@, body))
    } else {
        let items = body.index("data"@).index("items"@).items_or_empty();
        if items.len() == 0 {
            Ok(success_v("No events found."@))
        } else {
            Ok(
                success_v(
                    "Found "@ + decimal(items.len()) + " events:\n"@ + join(
                        items.map_values(|e: JsonV| event_line(e)),
                        "\n"@,
                    ),
                ),
            )
        }
    }
}

/// What the tool makes of the reply to an event creation.
pub open spec fn create_event_reply(body: JsonV) -> Result<ToolResultV, ToolErrorV> {
    if code_is_zero(body) {
        Ok(
            success_v(
                "Event created successfully. event_id: "@ + body.index("data"@).index(
                    "event_id"@,
                ).str_or("unknown"@),
            ),
        )
    } else {
        Err(api_failure("create event failed: code="@, body))
    }
}

/// What the tool makes of the reply to the operation `op`.
pub open spec fn calendar_reply(op: CalendarOp, body: JsonV) -> Result<ToolResultV, ToolErrorV> {
    match op {
        CalendarOp::ListCalendars => list_calendars_reply(body),
        CalendarOp::ListEvents => list_events_reply(body),
        CalendarOp::CreateEvent => create_event_reply(body),
    }
}

/// Every reply to the calendar tool is a failure exactly when its code is not
/// the integer 0, and the failure then carries the reply's code and message.
pub proof fn law_calendar_reply_fails_iff_code_nonzero(op: CalendarOp, body: JsonV)
    ensures
        calendar_reply(op, body) is Err <==> !code_is_zero(body),
        calendar_reply(op, body) matches Err(e) ==> e matches ToolErrorV::ApiFailed {
            prefix,
            code,
            msg,
        } && code == body.index("code"@) && msg == body.index("msg"@).str_or("unknown"@),
{
}

/// The page size that a listing asks for: an integer `page_size` in
/// `1..=max` as it is, a smaller one as 1, a larger one as `max`, and
/// `default` where there is no integer `page_size`.
pub open spec fn asked_page_size(args: JsonV, default: int, max: int) -> int {
    match args.index("page_size"@).as_i64() {
        Some(p) => if p < 1 {
            1
        } else if p > max {
            max
        } else {
            p
        },
        None => default,
    }
}

/// An event listing asks for the named calendar's events with the page size
/// the arguments ask for (default 20, at most 100), then `&anchor_time=` and
/// the start time where `start_time` is a string, then `&end_time=` and the
/// end time where `end_time` is a string; each part is there whether or not
/// the other is.
pub proof fn law_list_events_path_parts(args: JsonV)
    requires
        args.index("calendar_id"@).as_str() is Some,
    ensures
        ({
            let id = args.index("calendar_id"@).as_str()->0;
            let anchor = match args.index("start_time"@).as_str() {
                Some(st) => "&anchor_time="@ + st,
                None => Seq::<char>::empty(),
            };
            let window_end = match args.index("end_time"@).as_str() {
                Some(et) => "&end_time="@ + et,
                None => Seq::<char>::empty(),
            };
            list_events_call(args) == Ok::<ApiCallV, ToolErrorV>(
                ApiCallV::Get {
                    path: "/calendar/v4/calendars/"@ + id + "/events?page_size="@ + decimal(
                        asked_page_size(args, 20, 100) as nat,
                    ) + anchor + window_end,
                },
            )
        }),
{
    let id = args.index("calendar_id"@).as_str()->0;
    let base = "/calendar/v4/calendars/"@ + id + "/events?page_size="@ + decimal(
        asked_page_size(args, 20, 100) as nat,
    );
    assert(page_size_of(args, 20, 100) == asked_page_size(args, 20, 100));
    let e = Seq::<char>::empty();
    let path = list_events_path(args, id);
    match args.index("start_time"@).as_str() {
        Some(st) => match args.index("end_time"@).as_str() {
            Some(et) => {
                assert(path == base + "&anchor_time="@ + st + "&end_time="@ + et);
                assert(path =~= base + ("&anchor_time="@ + st) + ("&end_time="@ + et));
            },
            None => {
                assert(path == base + "&anchor_time="@ + st);
                assert(path =~= base + ("&anchor_time="@ + st) + e);
            },
        },
        None => match args.index("end_time"@).as_str() {
            Some(et) => {
                assert(path == base + "&end_time="@ + et);
                assert(path =~= base + e + ("&end_time="@ + et));
            },
            None => {
                assert(path == base);
                assert(path =~= base + e + e);
            },
        },
    }
}

/// The listing of calendars has one line per calendar, in the reply's
/// order: `- <title> (id: <id>, role: <role>)`, with `untitled` and empty
/// texts where a field is no string, under `Found <n> calendars:`; with no
/// calendars it says so, and a code other than 0 is an error.
pub proof fn law_list_calendars_lists_every_calendar(body: JsonV)
    ensures
        ({
            let items = body.index("data"@).index("calendar_list"@).items_or_empty();
            let lines = Seq::new(
                items.len(),
                |i: int|
                    "- "@ + items[i].index("title"@).str_or("untitled"@) + " (id: "@
                        + items[i].index("calendar_id"@).str_or(""@) + ", role: "@
                        + items[i].index("role"@).str_or(""@) + ")"@,
            );
            list_calendars_reply(body) == if !code_is_zero(body) {
                Err(api_failure("list calendars failed: code="@, body))
            } else if items.len() == 0 {
                Ok(success_v("No calendars found."@))
            } else {
                Ok(
                    success_v(
                        "Found "@ + decimal(items.len()) + " calendars:\n"@ + join(lines, "\n"@),
                    ),
                )
            }
        }),
{
    let items = body.index("data"@).index("calendar_list"@).items_or_empty();
    let lines = Seq::new(
        items.len(),
        |i: int|
            "- "@ + items[i].index("title"@).str_or("untitled"@) + " (id: "@ + items[i].index(
                "calendar_id"@,
            ).str_or(""@) + ", role: "@ + items[i].index("role"@).str_or(""@) + ")"@,
    );
    assert(items.map_values(|c: JsonV| calendar_line(c)) =~= lines);
}

/// The listing of events has one line per event, in the reply's order:
/// `- <summary> (<start> -> <end>)` with the start and end timestamps, and
/// `(no title)`, `unknown` and the empty text where a field is no string,
/// under `Found <n> events:`; with no events it says so, and a code other
/// than 0 is an error.
pub proof fn law_list_events_lists_every_event(body: JsonV)
    ensures
        ({
            let items = body.index("data"@).index("items"@).items_or_empty();
            let lines = Seq::new(
                items.len(),
                |i: int|
                    "- "@ + items[i].index("summary"@).str_or("(no title)"@) + " ("@
                        + items[i].index("start_time"@).index("timestamp"@).str_or("unknown"@)
                        + " -> "@ + items[i].index("end_time"@).index("timestamp"@).str_or(""@)
                        + ")"@,
            );
            list_events_reply(body) == if !code_is_zero(body) {
                Err(api_failure("list events failed: code="@, body))
            } else if items.len() == 0 {
                Ok(success_v("No events found."@))
            } else {
                Ok(
                    success_v(
                        "Found "@ + decimal(items.len()) + " events:\n"@ + join(lines, "\n"@),
                    ),
                )
            }
        }),
{
    let items = body.index("data"@).index("items"@).items_or_empty();
    let lines = Seq::new(
        items.len(),
        |i: int|
            "- "@ + items[i].index("summary"@).str_or("(no title)"@) + " ("@ + items[i].index(
                "start_time"@,
            ).index("timestamp"@).str_or("unknown"@) + " -> "@ + items[i].index(
                "end_time"@,
            ).index("timestamp"@).str_or(""@) + ")"@,
    );
    assert(items.map_values(|e: JsonV| event_line(e)) =~= lines);
}

/// A JSON object with the given members, in order.
pub open spec fn object2(k1: Seq<char>, v1: JsonV, k2: Seq<char>, v2: JsonV) -> JsonV {
    JsonV::Object(seq![(k1, v1), (k2, v2)])
}

/// An event is created with its times as the decimal Unix seconds of the
/// ISO 8601 wall-clock times read in Asia/Shanghai, each marked with that
/// zone; a start or end that is no such time is refused (the start first).
pub proof fn law_create_event_sends_unix_seconds(args: JsonV)
    requires
        args.index("calendar_id"@).as_str() is Some,
        args.index("summary"@).as_str() is Some,
        args.index("start_time_human"@).as_str() is Some,
        args.index("end_time_human"@).as_str() is Some,
    ensures
        ({
            let id = args.index("calendar_id"@).as_str()->0;
            let summary = args.index("summary"@).as_str()->0;
            let start = args.index("start_time_human"@).as_str()->0;
            let end = args.index("end_time_human"@).as_str()->0;
            let zone = JsonV::Str("Asia/Shanghai"@);
            create_event_call(args) == match shanghai_unix_seconds(start) {
                None => Err(
                    ToolErrorV::InvalidTime { field: "start_time_human"@, text: start },
                ),
                Some(a) => match shanghai_unix_seconds(end) {
                    None => Err(ToolErrorV::InvalidTime { field: "end_time_human"@, text: end }),
                    Some(b) => Ok(
                        ApiCallV::Post {
                            path: "/calendar/v4/calendars/"@ + id + "/events"@,
                            body: JsonV::Object(
                                seq![
                                    ("summary"@, JsonV::Str(summary)),
                                    (
                                        "description"@,
                                        JsonV::Str(args.index("description"@).str_or(""@)),
                                    ),
                                    (
                                        "start_time"@,
                                        object2(
                                            "timestamp"@,
                                            JsonV::Str(signed_decimal(a)),
                                            "timezone"@,
                                            zone,
                                        ),
                                    ),
                                    (
                                        "end_time"@,
                                        object2(
                                            "timestamp"@,
                                            JsonV::Str(signed_decimal(b)),
                                            "timezone"@,
                                            zone,
                                        ),
                                    ),
                                ],
                            ),
                        },
                    ),
                },
            }
        }),
{
    let start = args.index("start_time_human"@).as_str()->0;
    let end = args.index("end_time_human"@).as_str()->0;
    match shanghai_unix_seconds(start) {
        Some(a) => match shanghai_unix_seconds(end) {
            Some(b) => {
                let zone = JsonV::Str("Asia/Shanghai"@);
                assert(event_time(signed_decimal(a)) == object2(
                    "timestamp"@,
                    JsonV::Str(signed_decimal(a)),
                    "timezone"@,
                    zone,
                )) by {
                    assert(event_time(signed_decimal(a))->Object_0 =~= seq![
                        ("timestamp"@, JsonV::Str(signed_decimal(a))),
                        ("timezone"@, zone),
                    ]);
                }
                assert(event_time(signed_decimal(b)) == object2(
                    "timestamp"@,
                    JsonV::Str(signed_decimal(b)),
                    "timezone"@,
                    zone,
                )) by {
                    assert(event_time(signed_decimal(b))->Object_0 =~= seq![
                        ("timestamp"@, JsonV::Str(signed_decimal(b))),
                        ("timezone"@, zone),
                    ]);
                }
                let body = event_body(
                    args.index("summary"@).as_str()->0,
                    args.index("description"@).str_or(""@),
                    signed_decimal(a),
                    signed_decimal(b),
                );
                assert(body->Object_0 =~= seq![
                    ("summary"@, JsonV::Str(args.index("summary"@).as_str()->0)),
                    ("description"@, JsonV::Str(args.index("description"@).str_or(""@))),
                    ("start_time"@, event_time(signed_decimal(a))),
                    ("end_time"@, event_time(signed_decimal(b))),
                ]);
            },
            None => {},
        },
        None => {},
    }
}

fn calendar_line_text(cal: &Json) -> (r: String)
    ensures
        r@ == calendar_line(cal@),
{
    let mut s = "- ".to_owned();
    s.append(str_field_or(cal, "title", "untitled").as_str());
    s.append(" (id: ");
    s.append(str_field_or(cal, "calendar_id", "").as_str());
    s.append(", role: ");
    s.append(str_field_or(cal, "role", "").as_str());
    s.append(")");
    s
}

fn event_line_text(ev: &Json) -> (r: String)
    ensures
        r@ == event_line(ev@),
{
    let start = match ev.get("start_time") {
        Some(t) => str_field_or(t, "timestamp", "unknown"),
        None => "unknown".to_owned(),
    };
    let end = match ev.get("end_time") {
        Some(t) => str_field_or(t, "timestamp", ""),
        None => "".to_owned(),
    };
    let mut s = "- ".to_owned();
    s.append(str_field_or(ev, "summary", "(no title)").as_str());
    s.append(" (");
    s.append(start.as_str());
    s.append(" -> ");
    s.append(end.as_str());
    s.append(")");
    s
}



impl FeishuCalendarTool {
    /// The client that the tool calls the API with, where it has one.
    pub closed spec fn client_view(&self) -> Option<FeishuClientV> {
        match self.client {
            Some(c) => Some(c@),
            None => None,
        }
    }

    pub fn new(client: Option<Arc<FeishuClient>>) -> (r: Self)
        ensures
            r.client_view() == match client {
                Some(c) => Some(c@),
                None => None::<FeishuClientV>,
            },
    {
        FeishuCalendarTool { client }
    }

    pub fn name(&self) -> (r: &'static str)
        ensures
            r@ == "feishu_calendar"@,
    {
        "feishu_calendar"
    }

    pub fn description(&self) -> (r: &'static str)
        ensures
            r@ == "Query Feishu/Lark calendar events, list calendars, and create events."@,
    {
        "Query Feishu/Lark calendar events, list calendars, and create events."
    }

    /// The JSON schema of the tool's arguments.
    pub fn parameters_schema(&self) -> (r: Json)
        ensures
            r@ == calendar_schema(),
    {
        let mut actions: Vec<&str> = Vec::new();
        actions.push("list_calendars");
        actions.push("list_events");
        actions.push("create_event");
        let mut props: Vec<(String, Json)> = Vec::new();
        assert(entries_view(props@) =~= Seq::empty());
        push_entry(&mut props, "action", schema_enum_prop_json(&actions, "Action to perform"));
        push_entry(
            &mut props,
            "calendar_id",
            schema_prop_json("string", "Calendar ID (required for list_events and create_event)"),
        );
        push_entry(
            &mut props,
            "start_time",
            schema_prop_json("string", "Start time in Unix timestamp seconds (for list_events)"),
        );
        push_entry(
            &mut props,
            "end_time",
            schema_prop_json("string", "End time in Unix timestamp seconds (for list_events)"),
        );
        push_entry(
            &mut props,
            "summary",
            schema_prop_json("string", "Event title (for create_event)"),
        );
        push_entry(
            &mut props,
            "description",
            schema_prop_json("string", "Event description (for create_event)"),
        );
        push_entry(
            &mut props,
            "start_time_human",
            schema_prop_json(
                "string",
                "Event start time in ISO 8601 format, e.g. 2026-05-21T10:00:00 (for create_event)",
            ),
        );
        push_entry(
            &mut props,
            "end_time_human",
            schema_prop_json("string", "Event end time in ISO 8601 format (for create_event)"),
        );
        push_entry(
            &mut props,
            "page_size",
            schema_prop_json("integer", "Max results (default 20)"),
        );
        let mut required: Vec<&str> = Vec::new();
        required.push("action");
        proof {
            assert(str_views(actions@) =~= Seq::empty().push("list_calendars"@).push(
                "list_events"@,
            ).push("create_event"@));
            assert(str_views(required@) =~= Seq::empty().push("action"@));
        }
        object_schema_json(props, &required)
    }

    /// Plans a run for `args`: which operation runs and the API call it makes.
    pub fn execute(&self, args: &Json) -> (r: Result<Plan<CalendarOp>, ToolError>)
        ensures
            outcome(r) == if self.client_view() is None {
                Err(ToolErrorV::NotConfigured)
            } else {
                calendar_plan(args@)
            },
    {
        if self.client.is_none() {
            return Err(ToolError::NotConfigured);
        }
        let action = required_str(args, "action", "action")?;
        if action == "list_calendars".to_owned() {
            Ok(
                Plan {
                    op: CalendarOp::ListCalendars,
                    call: ApiCall::Get { path: "/calendar/v4/calendars?page_size=50".to_owned() },
                },
            )
        } else if action == "list_events".to_owned() {
            let call = self.list_events_request(args)?;
            Ok(Plan { op: CalendarOp::ListEvents, call })
        } else if action == "create_event".to_owned() {
            let call = self.create_event_request(args)?;
            Ok(Plan { op: CalendarOp::CreateEvent, call })
        } else {
            Err(ToolError::Unsupported(action))
        }
    }

    /// The call that lists the events of the calendar that `args` names.
    pub fn list_events_request(&self, args: &Json) -> (r: Result<ApiCall, ToolError>)
        ensures
            outcome(r) == list_events_call(args@),
    {
        let calendar_id = required_str(args, "calendar_id", "calendar_id")?;
        let size = page_size(args, 20, 100);
        let mut path = "/calendar/v4/calendars/".to_owned();
        path.append(calendar_id.as_str());
        path.append("/events?page_size=");
        push_decimal(&mut path, size as u64);
        match str_field(args, "start_time") {
            Some(st) => {
                path.append("&anchor_time=");
                path.append(st.as_str());
            },
            None => {},
        }
        match str_field(args, "end_time") {
            Some(et) => {
                path.append("&end_time=");
                path.append(et.as_str());
            },
            None => {},
        }
        Ok(ApiCall::Get { path })
    }

    /// The call that creates the event that `args` describes.
    pub fn create_event_request(&self, args: &Json) -> (r: Result<ApiCall, ToolError>)
        ensures
            outcome(r) == create_event_call(args@),
    {
        let calendar_id = required_str(args, "calendar_id", "calendar_id")?;
        let summary = required_str(args, "summary", "summary")?;
        let start = required_str(args, "start_time_human", "start_time_human")?;
        let end = required_str(args, "end_time_human", "end_time_human")?;
        let start_ts = event_timestamp_text("start_time_human", start)?;
        let end_ts = event_timestamp_text("end_time_human", end)?;
        let description = str_field_or(args, "description", "");
        let mut body: Vec<(String, Json)> = Vec::new();
        assert(entries_view(body@) =~= Seq::empty());
        push_entry(&mut body, "summary", Json::Str(summary));
        push_entry(&mut body, "description", Json::Str(description));
        push_entry(&mut body, "start_time", event_time_json(start_ts));
        push_entry(&mut body, "end_time", event_time_json(end_ts));
        let mut path = "/calendar/v4/calendars/".to_owned();
        path.append(calendar_id.as_str());
        path.append("/events");
        Ok(ApiCall::Post { path, body: Json::object(body) })
    }

    /// What the tool makes of the reply to a calendar listing.
    pub fn list_calendars(&self, body: &Json) -> (r: Result<ToolResult, ToolError>)
        ensures
            outcome(r) == list_calendars_reply(body@),
    {
        if !reply_ok(body) {
            return Err(api_error("list calendars failed: code=", body));
        }
        match nested_items(body, "data", "calendar_list") {
            Some(items) => {
                if items.len() == 0 {
                    return Ok(ToolResult::success("No calendars found.".to_owned()));
                }
                let lines = lines_of(items, calendar_line_text, Ghost(|c: JsonV| calendar_line(c)));
                let mut out = "Found ".to_owned();
                push_decimal(&mut out, items.len() as u64);
                out.append(" calendars:\n");
                out.append(join_strings(&lines, "\n").as_str());
                Ok(ToolResult::success(out))
            },
            None => Ok(ToolResult::success("No calendars found.".to_owned())),
        }
    }

    /// What the tool makes of the reply to an event listing.
    pub fn list_events(&self, body: &Json) -> (r: Result<ToolResult, ToolError>)
        ensures
            outcome(r) == list_events_reply(body@),
    {
        if !reply_ok(body) {
            return Err(api_error("list events failed: code=", body));
        }
        match nested_items(body, "data", "items") {
            Some(items) => {
                if items.len() == 0 {
                    return Ok(ToolResult::success("No events found.".to_owned()));
                }
                let lines = lines_of(items, event_line_text, Ghost(|e: JsonV| event_line(e)));
                let mut out = "Found ".to_owned();
                push_decimal(&mut out, items.len() as u64);
                out.append(" events:\n");
                out.append(join_strings(&lines, "\n").as_str());
                Ok(ToolResult::success(out))
            },
            None => Ok(ToolResult::success("No events found.".to_owned())),
        }
    }

    /// What the tool makes of the reply to an event creation.
    pub fn create_event(&self, body: &Json) -> (r: Result<ToolResult, ToolError>)
        ensures
            outcome(r) == create_event_reply(body@),
    {
        if reply_ok(body) {
            let event_id = match body.get("data") {
                Some(data) => str_field_or(data, "event_id", "unknown"),
                None => "unknown".to_owned(),
            };
            let mut out = "Event created successfully. event_id: ".to_owned();
            out.append(event_id.as_str());
            Ok(ToolResult::success(out))
        } else {
            Err(api_error("create event failed: code=", body))
        }
    }

    /// What the tool makes of the reply to the operation `op`.
    pub fn finish(&self, op: CalendarOp, reply: &HttpReply) -> (r: Result<ToolResult, ToolError>)
        ensures
            outcome(r) == calendar_reply(op, reply.body@),
    {
        match op {
            CalendarOp::ListCalendars => self.list_calendars(&reply.body),
            CalendarOp::ListEvents => self.list_events(&reply.body),
            CalendarOp::CreateEvent => self.create_event(&reply.body),
        }
    }
}

/// The Unix seconds of the ISO 8601 time `text` read in Asia/Shanghai, in
/// decimal, or the error that names the argument `field`.
fn event_timestamp_text(field: &str, text: String) -> (r: Result<String, ToolError>)
    ensures
        outcome(r) == event_timestamp(field@, text@),
{
    match parse_shanghai_time(text.as_str()) {
        Some(secs) => {
            let mut out = String::new();
            push_signed_decimal(&mut out, secs);
            Ok(out)
        },
        None => Err(ToolError::InvalidTime { field: field.to_owned(), text }),
    }
}

/// The start or end of an event.
fn event_time_json(timestamp: String) -> (r: Json)
    ensures
        r@ == event_time(timestamp@),
{
    let mut e: Vec<(String, Json)> = Vec::new();
    assert(entries_view(e@) =~= Seq::empty());
    push_entry(&mut e, "timestamp", Json::Str(timestamp));
    push_entry(&mut e, "timezone", Json::string("Asia/Shanghai"));
    Json::object(e)
}

} // verus!
