# feishu_tools

Verified core of three Feishu / Lark agent tools (calendar, document search,
message sending) and of the client they share.

- `src/` (Verus): the JSON model the tools read and build, with JSON string
  quoting through serde_json (`json`), decimal text
  and joining (`text`), percent-encoding through the `urlencoding` crate (`url`), reading
  ISO 8601 wall-clock times in Asia/Shanghai as Unix seconds (`time`),
  shared request/reply/error types and argument helpers (`tool`), the client's
  base URL, request building and tenant-token cache as a step function of the
  clock (`client`), and each tool's plan and reply interpretation (`calendar`,
  `search_doc`, `send_message`).
- `app/`: HTTP through reqwest, the async lock around the token cache, the
  clock, conversion between `serde_json::Value` and the library's `Json`, and
  the async `Tool` interface.
- `tests/`: concrete scenarios for every public function and law.
