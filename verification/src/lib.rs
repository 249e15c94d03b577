//! Planning and interpretation logic of the Feishu / Lark tools: the client's
//! token cache, the requests each tool sends, and what each tool makes of the
//! server's reply.

pub mod json;
pub mod text;
pub mod tool;
pub mod client;
pub mod calendar;
pub mod url;
pub mod time;
pub mod search_doc;
pub mod send_message;
