use std::sync::Arc;
use vstd::prelude::*;

use crate::client::{FeishuClient, FeishuClientV};
use crate::json::{Json, JsonV, entries_view, json_quote, json_quoted, push_entry};
use crate::tool::{
    ApiCall, ApiCallV, HttpReply, ToolError, ToolErrorV, ToolResult, ToolResultV, api_error,
    api_failure, code_is_zero, object_schema, object_schema_json, outcome, reply_ok,
    required_str, schema_enum_prop, schema_enum_prop_json, schema_prop, schema_prop_json,
    str_field_or, str_views, success_v,
};

verus! {

/// Sends text, rich-text and card messages to a chat or a user.
pub struct FeishuSendMessageTool {
    client: Option<Arc<FeishuClient>>,
}

/// The schema of the message tool's arguments.
pub open spec fn send_message_schema() -> JsonV {
    object_schema(
        Seq::empty().push(
            ("receive_id"@, schema_prop("string"@, "chat ID, user ID, or open ID"@)),
        ).push(
            (
                "receive_id_type"@,
                schema_enum_prop(
                    Seq::empty().push("chat_id"@).push("user_id"@).push("open_id"@),
                    "Type of receive_id"@,
                ),
            ),
        ).push(
            (
                "msg_type"@,
                schema_enum_prop(
                    Seq::empty().push("text"@).push("post"@).push("interactive"@),
                    "Message type"@,
                ),
            ),
        ).push(
            (
                "content"@,
                schema_prop(
                    "string"@,
                    "Message content. For text: plain text. For post: JSON string. For interactive: card JSON string."@,
                ),
            ),
        ),
        Seq::empty().push("receive_id"@).push("msg_type"@).push("content"@),
    )
}

/// The content that the API receives: a text message's plain text goes as
/// the JSON text `{"text":"..."}`, a post's or card's JSON string as it is.
pub open spec fn message_content(msg_type: Seq<char>, content: Seq<char>) -> Seq<char> {
    if msg_type == "text"@ {
        "{\"text\":"@ + json_quoted(content) + "}"@
    } else {
        content
    }
}

/// The call that sends the message that `args` describes, where the tool has a client.
pub open spec fn send_message_call(args: JsonV) -> Result<ApiCallV, ToolErrorV> {
    match args.index("receive_id"@).as_str() {
        None => Err(ToolErrorV::Missing("receive_id"@)),
        Some(receive_id) => match args.index("msg_type"@).as_str() {
            None => Err(ToolErrorV::Missing("msg_type"@)),
            Some(msg_type) => match args.index("content"@).as_str() {
                None => Err(ToolErrorV::Missing("content"@)),
                Some(content) => Ok(
                    ApiCallV::Post {
                        path: "/im/v1/messages?receive_id_type="@ + args.index(
                            "receive_id_type"@,
                        ).str_or("chat_id"@),
                        body: JsonV::Object(
                            Seq::empty().push(("receive_id"@, JsonV::Str(receive_id))).push(
                                ("msg_type"@, JsonV::Str(msg_type)),
                            ).push(("content"@, JsonV::Str(message_content(msg_type, content)))),
                        ),
                    },
                ),
            },
        },
    }
}

/// An HTTP status in `200..=299`.
pub open spec fn is_success_status(status: u16) -> bool {
    200 <= status <= 299
}

/// What the tool makes of the server's reply to a message.
pub open spec fn send_message_reply(status: u16, body: JsonV) -> Result<ToolResultV, ToolErrorV> {
    if is_success_status(status) && code_is_zero(body) {
        Ok(
            success_v(
                "Message sent successfully. message_id: "@ + body.index("data"@).index(
                    "message_id"@,
                ).str_or("unknown"@),
            ),
        )
    } else {
        Err(api_failure("Failed to send message: code="@, body))
    }
}

/// A message counts as sent exactly when the HTTP status is in `200..=299`
/// and the reply's code is the integer 0; any other reply is a failure that
/// carries the reply's code and message.
pub proof fn law_message_sent_iff_status_and_code(status: u16, body: JsonV)
    ensures
        send_message_reply(status, body) is Ok <==> (is_success_status(status) && code_is_zero(
            body,
        )),
        send_message_reply(status, body) matches Err(e) ==> e == api_failure(
            "Failed to send message: code="@,
            body,
        ),
{
}

impl FeishuSendMessageTool {
    /// The client that the tool calls the API with, where it has one.
    pub closed spec fn client_view(&self) -> Option<FeishuClientV> {
        match self.client {
            Some(c) => Some(c@),
            None => None,
        }
    }

    pub fn new(client: Option<Arc<FeishuClient>>) -> (r: Self)
        ensures
            r.client_view() == match client {
                Some(c) => Some(c@),
                None => None::<FeishuClientV>,
            },
    {
        FeishuSendMessageTool { client }
    }

    pub fn name(&self) -> (r: &'static str)
        ensures
            r@ == "feishu_send_message"@,
    {
        "feishu_send_message"
    }

    pub fn description(&self) -> (r: &'static str)
        ensures
            r@
                == "Send a message to a Feishu/Lark chat. Supports text, post (rich text), and interactive card messages."@,
    {
        "Send a message to a Feishu/Lark chat. Supports text, post (rich text), and interactive card messages."
    }

    /// The JSON schema of the tool's arguments.
    pub fn parameters_schema(&self) -> (r: Json)
        ensures
            r@ == send_message_schema(),
    {
        let mut id_types: Vec<&str> = Vec::new();
        id_types.push("chat_id");
        id_types.push("user_id");
        id_types.push("open_id");
        let mut msg_types: Vec<&str> = Vec::new();
        msg_types.push("text");
        msg_types.push("post");
        msg_types.push("interactive");
        let mut props: Vec<(String, Json)> = Vec::new();
        assert(entries_view(props@) =~= Seq::empty());
        push_entry(
            &mut props,
            "receive_id",
            schema_prop_json("string", "chat ID, user ID, or open ID"),
        );
        push_entry(
            &mut props,
            "receive_id_type",
            schema_enum_prop_json(&id_types, "Type of receive_id"),
        );
        push_entry(&mut props, "msg_type", schema_enum_prop_json(&msg_types, "Message type"));
        push_entry(
            &mut props,
            "content",
            schema_prop_json(
                "string",
                "Message content. For text: plain text. For post: JSON string. For interactive: card JSON string.",
            ),
        );
        let mut required: Vec<&str> = Vec::new();
        required.push("receive_id");
        required.push("msg_type");
        required.push("content");
        proof {
            assert(str_views(id_types@) =~= Seq::empty().push("chat_id"@).push("user_id"@).push(
                "open_id"@,
            ));
            assert(str_views(msg_types@) =~= Seq::empty().push("text"@).push("post"@).push(
                "interactive"@,
            ));
            assert(str_views(required@) =~= Seq::empty().push("receive_id"@).push(
                "msg_type"@,
            ).push("content"@));
        }
        object_schema_json(props, &required)
    }

    /// Plans the sending of the message that `args` describes.
    pub fn execute(&self, args: &Json) -> (r: Result<ApiCall, ToolError>)
        ensures
            outcome(r) == if self.client_view() is None {
                Err(ToolErrorV::NotConfigured)
            } else {
                send_message_call(args@)
            },
    {
        if self.client.is_none() {
            return Err(ToolError::NotConfigured);
        }
        let receive_id = required_str(args, "receive_id", "receive_id")?;
        let receive_id_type = str_field_or(args, "receive_id_type", "chat_id");
        let msg_type = required_str(args, "msg_type", "msg_type")?;
        let content = required_str(args, "content", "content")?;
        let content = if msg_type == "text".to_owned() {
            let mut wrapped = "{\"text\":".to_owned();
            wrapped.append(json_quote(content.as_str()).as_str());
            wrapped.append("}");
            wrapped
        } else {
            content
        };
        let mut body: Vec<(String, Json)> = Vec::new();
        assert(entries_view(body@) =~= Seq::empty());
        push_entry(&mut body, "receive_id", Json::Str(receive_id));
        push_entry(&mut body, "msg_type", Json::Str(msg_type));
        push_entry(&mut body, "content", Json::Str(content));
        let mut path = "/im/v1/messages?receive_id_type=".to_owned();
        path.append(receive_id_type.as_str());
        Ok(ApiCall::Post { path, body: Json::object(body) })
    }

    /// What the tool makes of the server's reply to a message.
    pub fn finish(&self, reply: &HttpReply) -> (r: Result<ToolResult, ToolError>)
        ensures
            outcome(r) == send_message_reply(reply.status, reply.body@),
    {
        if 200 <= reply.status && reply.status <= 299 && reply_ok(&reply.body) {
            let message_id = match reply.body.get("data") {
                Some(data) => str_field_or(data, "message_id", "unknown"),
                None => "unknown".to_owned(),
            };
            let mut out = "Message sent successfully. message_id: ".to_owned();
            out.append(message_id.as_str());
            Ok(ToolResult::success(out))
        } else {
            Err(api_error("Failed to send message: code=", &reply.body))
        }
    }
}

} // verus!
