//! What the streaming-HTTP transport answers on its diagnostic routes, and the
//! steps by which it is started.
//!
//! The transport mounts the streaming service at [`MCP_ENDPOINT`], a
//! diagnostic route at [`DEBUG_ENDPOINT`], and answers every other path with
//! a "route not found" document. Neither diagnostic answer can fail, and
//! both are JSON documents whatever the request holds: what is echoed from
//! the request is written as the content of a JSON string, with the
//! characters that would end or break the string escaped.

use crate::config::{McpHttpConfig, SessionStorage, SocketAddress};
use crate::error::TransportError;
use vstd::prelude::*;
use vstd::string::*;

verus! {

/// The path at which the streaming service is mounted.
pub const MCP_ENDPOINT: &'static str = "/mcp";

/// The path of the diagnostic route.
pub const DEBUG_ENDPOINT: &'static str = "/debug";

/// The media type of both diagnostic answers.
pub const JSON_CONTENT_TYPE: &'static str = "application/json";

/// An HTTP answer as plain values.
#[derive(Debug, Clone, PartialEq, Eq)]
pub struct HttpReply {
    pub status: u16,
    pub content_type: String,
    pub body: String,
}

/// The body of the diagnostic route: who the server is, which protocol it
/// speaks, and how to use it.
pub open spec fn debug_body() -> Seq<char> {
    "{\n  \"server\": \"hub-transport\",\n  \"mcp_endpoint\": \"/mcp\",\n  \"mcp_protocol\": \"MCP Streamable HTTP (2025-03-26)\",\n  \"notes\": [\n    \"MCP requires 'initialize' request before 'tools/list'\",\n    \"Accept header must include 'application/json, text/event-stream'\",\n    \"Tool names use format: namespace.method (e.g., 'echo.echo')\"\n  ]\n}"@
}

/// The lower-case hexadecimal digit that stands for `n`, for `n` below 16.
pub open spec fn hex_digit(n: u8) -> char {
    if n < 10 {
        (n + 48) as u8 as char
    } else {
        (n + 87) as u8 as char
    }
}

/// What stands for `c` inside a JSON string: a backslash before a quote or a
/// backslash, the six characters `\u00XY` for a control character with the
/// hexadecimal code `XY`, and the character itself otherwise.
pub open spec fn json_escaped_char(c: char) -> Seq<char> {
    let code = c as u32;
    if c == '"' {
        seq!['\\', '"']
    } else if c == '\\' {
        seq!['\\', '\\']
    } else if code < 0x20 {
        seq!['\\', 'u', '0', '0', hex_digit((code / 16) as u8), hex_digit((code % 16) as u8)]
    } else {
        seq![c]
    }
}

/// `text` as the content of a JSON string: each character escaped where JSON
/// asks for it.
pub open spec fn json_escaped(text: Seq<char>) -> Seq<char>
    decreases text.len(),
{
    if text.len() == 0 {
        Seq::empty()
    } else {
        json_escaped_char(text.first()) + json_escaped(text.drop_first())
    }
}

/// The body that answers a request no route matches: a JSON object that
/// echoes the request's method, URI and path, each as a JSON string.
pub open spec fn fallback_body(method: Seq<char>, uri: Seq<char>, path: Seq<char>) -> Seq<char> {
    "{\n  \"error\": \"Route not found\",\n  \"received\": {\n    \"method\": \""@ + json_escaped(
        method,
    ) + "\",\n    \"uri\": \""@ + json_escaped(uri) + "\",\n    \"path\": \""@ + json_escaped(
        path,
    )
        + "\"\n  },\n  \"hint\": \"MCP endpoint is at /mcp. Send 'initialize' request first.\",\n  \"available_endpoints\": [\"/mcp\", \"/debug\"]\n}"@
}

/// `String::push`. Taken on trust: the character is appended to the end of
/// the string.
#[verifier::external_body]
fn push_char(text: &mut String, c: char)
    ensures
        final(text)@ == old(text)@.push(c),
{
    text.push(c)
}

/// The lower-case hexadecimal digit that stands for `n`.
fn hex_digit_of(n: u8) -> (digit: char)
    requires
        n < 16,
    ensures
        digit == hex_digit(n),
{
    if n < 10 {
        (n + 48) as char
    } else {
        (n + 87) as char
    }
}

/// Appends to `out` what stands for `c` inside a JSON string.
fn push_escaped(out: &mut String, c: char)
    ensures
        final(out)@ == old(out)@ + json_escaped_char(c),
{
    let code = c as u32;
    if c == '"' {
        push_char(out, '\\');
        push_char(out, '"');
    } else if c == '\\' {
        push_char(out, '\\');
        push_char(out, '\\');
    } else if code < 0x20 {
        push_char(out, '\\');
        push_char(out, 'u');
        push_char(out, '0');
        push_char(out, '0');
        push_char(out, hex_digit_of((code / 16) as u8));
        push_char(out, hex_digit_of((code % 16) as u8));
    } else {
        push_char(out, c);
    }
    assert(out@ =~= old(out)@ + json_escaped_char(c));
}

/// `text` as the content of a JSON string.
pub fn json_escape(text: &str) -> (escaped: String)
    ensures
        escaped@ == json_escaped(text@),
{
    broadcast use group_string_axioms;

    let total = text.unicode_len();
    let mut out = String::new();
    let mut at: usize = 0;
    proof {
        assert(text@.skip(0) =~= text@);
    }
    for c in it: text.chars()
        invariant
            it.seq() == text@,
            at == it.index(),
            total == text@.len(),
            json_escaped(text@) == out@ + json_escaped(text@.skip(at as int)),
    {
        proof {
            let rest = text@.skip(at as int);
            assert(rest.first() == c);
            assert(rest.drop_first() =~= text@.skip(at + 1));
        }
        let ghost before = out@;
        push_escaped(&mut out, c);
        proof {
            let later = json_escaped(text@.skip(at + 1));
            assert(before + (json_escaped_char(c) + later) =~= out@ + later);
        }
        at += 1;
    }
    proof {
        assert(text@.skip(total as int) =~= Seq::<char>::empty());
        assert(out@ + Seq::<char>::empty() =~= out@);
    }
    out
}

/// Answers the diagnostic route: status 200 and the fixed document
/// [`debug_body`].
pub fn debug_handler() -> (reply: HttpReply)
    ensures
        reply.status == 200,
        reply.content_type@ == JSON_CONTENT_TYPE@,
        reply.body@ == debug_body(),
{
    HttpReply {
        status: 200,
        content_type: String::from_str(JSON_CONTENT_TYPE),
        body: String::from_str(
            "{\n  \"server\": \"hub-transport\",\n  \"mcp_endpoint\": \"/mcp\",\n  \"mcp_protocol\": \"MCP Streamable HTTP (2025-03-26)\",\n  \"notes\": [\n    \"MCP requires 'initialize' request before 'tools/list'\",\n    \"Accept header must include 'application/json, text/event-stream'\",\n    \"Tool names use format: namespace.method (e.g., 'echo.echo')\"\n  ]\n}",
        ),
    }
}

/// Answers a request that no route matches: status 404 and the document
/// [`fallback_body`] of the request's method, URI and path, whatever they
/// hold.
pub fn fallback_handler(method: &str, uri: &str, path: &str) -> (reply: HttpReply)
    ensures
        reply.status == 404,
        reply.content_type@ == JSON_CONTENT_TYPE@,
        reply.body@ == fallback_body(method@, uri@, path@),
{
    let body = String::from_str(
        "{\n  \"error\": \"Route not found\",\n  \"received\": {\n    \"method\": \"",
    ).concat(json_escape(method).as_str()).concat("\",\n    \"uri\": \"").concat(
        json_escape(uri).as_str(),
    ).concat("\",\n    \"path\": \"").concat(json_escape(path).as_str()).concat(
        "\"\n  },\n  \"hint\": \"MCP endpoint is at /mcp. Send 'initialize' request first.\",\n  \"available_endpoints\": [\"/mcp\", \"/debug\"]\n}",
    );
    HttpReply { status: 404, content_type: String::from_str(JSON_CONTENT_TYPE), body }
}

/// Whether `needle` occurs in `haystack` as a run of consecutive characters.
pub open spec fn contains_text(haystack: Seq<char>, needle: Seq<char>) -> bool {
    exists|at: int|
        0 <= at && at + needle.len() <= haystack.len() && #[trigger] haystack.subrange(
            at,
            at + needle.len(),
        ) == needle
}

/// The diagnostic document names the server: it holds the key `"server"`.
pub proof fn law_debug_names_server()
    ensures
        contains_text(debug_body(), "\"server\""@),
{
    reveal_strlit(
        "{\n  \"server\": \"hub-transport\",\n  \"mcp_endpoint\": \"/mcp\",\n  \"mcp_protocol\": \"MCP Streamable HTTP (2025-03-26)\",\n  \"notes\": [\n    \"MCP requires 'initialize' request before 'tools/list'\",\n    \"Accept header must include 'application/json, text/event-stream'\",\n    \"Tool names use format: namespace.method (e.g., 'echo.echo')\"\n  ]\n}",
    );
    reveal_strlit("\"server\"");
    let key = "\"server\""@;
    assert(debug_body().subrange(4, 4int + key.len()) =~= key);
}

/// The "route not found" document echoes the path of the request: it holds
/// the member `"path": "<path>"`, the path written as a JSON string, whatever
/// the method, URI and path are.
pub proof fn law_fallback_echoes_path(method: Seq<char>, uri: Seq<char>, path: Seq<char>)
    ensures
        contains_text(
            fallback_body(method, uri, path),
            "\"path\": \""@ + json_escaped(path) + "\""@,
        ),
{
    let head = "{\n  \"error\": \"Route not found\",\n  \"received\": {\n    \"method\": \""@
        + json_escaped(method) + "\",\n    \"uri\": \""@ + json_escaped(uri);
    let open = "\",\n    \"path\": \""@;
    let close = "\"\n  },\n  \"hint\": \"MCP endpoint is at /mcp. Send 'initialize' request first.\",\n  \"available_endpoints\": [\"/mcp\", \"/debug\"]\n}"@;
    reveal_strlit("\",\n    \"path\": \"");
    reveal_strlit(
        "\"\n  },\n  \"hint\": \"MCP endpoint is at /mcp. Send 'initialize' request first.\",\n  \"available_endpoints\": [\"/mcp\", \"/debug\"]\n}",
    );
    reveal_strlit("\"path\": \"");
    reveal_strlit("\"");
    let body = fallback_body(method, uri, path);
    let member = "\"path\": \""@ + json_escaped(path) + "\""@;
    let at = (head.len() + 7) as int;
    assert(body == head + open + json_escaped(path) + close);
    assert(body.subrange(at, at + member.len()) =~= member);
}

/// Whether `c` is a hexadecimal digit, in either case.
pub open spec fn is_hex_digit(c: char) -> bool {
    let code = c as u32;
    48 <= code <= 57 || 65 <= code <= 70 || 97 <= code <= 102
}

/// The number that the hexadecimal digit `c` stands for.
pub open spec fn hex_value(c: char) -> int {
    let code = c as u32;
    if code <= 57 {
        code - 48
    } else if code <= 70 {
        code - 55
    } else {
        code - 87
    }
}

/// The character that a backslash followed by `c` stands for in a JSON
/// string, where `c` is not `u`.
pub open spec fn short_escape(c: char) -> char {
    if c == 'b' {
        '\u{8}'
    } else if c == 'f' {
        '\u{c}'
    } else if c == 'n' {
        '\n'
    } else if c == 'r' {
        '\r'
    } else if c == 't' {
        '\t'
    } else {
        c
    }
}

/// Whether `text` can stand between the quotes of a JSON string: it holds no
/// bare quote and no control character, and each backslash in it begins an
/// escape that JSON knows.
pub open spec fn is_json_string_content(text: Seq<char>) -> bool
    decreases text.len(),
{
    if text.len() == 0 {
        true
    } else if text[0] == '\\' {
        ||| {
            &&& text.len() >= 2
            &&& (text[1] == '"' || text[1] == '\\' || text[1] == '/' || text[1] == 'b' || text[1]
                == 'f' || text[1] == 'n' || text[1] == 'r' || text[1] == 't')
            &&& is_json_string_content(text.skip(2))
        }
        ||| {
            &&& text.len() >= 6
            &&& text[1] == 'u'
            &&& is_hex_digit(text[2])
            &&& is_hex_digit(text[3])
            &&& is_hex_digit(text[4])
            &&& is_hex_digit(text[5])
            &&& is_json_string_content(text.skip(6))
        }
    } else {
        text[0] != '"' && text[0] as u32 >= 0x20 && is_json_string_content(text.drop_first())
    }
}

/// What the content of a JSON string stands for: each escape replaced by
/// the character it names, every other character kept.
pub open spec fn json_unescaped(text: Seq<char>) -> Seq<char>
    decreases text.len(),
{
    if text.len() == 0 {
        Seq::empty()
    } else if text[0] == '\\' && text.len() >= 6 && text[1] == 'u' {
        seq![
            (hex_value(text[2]) * 4096 + hex_value(text[3]) * 256 + hex_value(text[4]) * 16
                + hex_value(text[5])) as u32 as char,
        ] + json_unescaped(text.skip(6))
    } else if text[0] == '\\' && text.len() >= 2 {
        seq![short_escape(text[1])] + json_unescaped(text.skip(2))
    } else {
        seq![text[0]] + json_unescaped(text.drop_first())
    }
}

proof fn lemma_hex_digit(n: u8)
    requires
        n < 16,
    ensures
        is_hex_digit(hex_digit(n)),
        hex_value(hex_digit(n)) == n,
        hex_digit(n) != '"',
        hex_digit(n) != '\\',
{
}

proof fn lemma_escaped_char_then(c: char, rest: Seq<char>)
    ensures
        is_json_string_content(rest) ==> is_json_string_content(json_escaped_char(c) + rest),
        json_unescaped(json_escaped_char(c) + rest) == seq![c] + json_unescaped(rest),
{
    let code = c as u32;
    let text = json_escaped_char(c) + rest;
    if c == '"' || c == '\\' {
        assert(text.skip(2) =~= rest);
    } else if code < 0x20 {
        let high = (code / 16) as u8;
        let low = (code % 16) as u8;
        lemma_hex_digit(high);
        lemma_hex_digit(low);
        assert(text.skip(6) =~= rest);
        assert(text[2] == '0' && text[3] == '0');
        assert(text[4] == hex_digit(high) && text[5] == hex_digit(low));
        assert(hex_value('0') == 0);
        assert(high * 16 + low == code);
        assert(code as char == c);
    } else {
        assert(text.drop_first() =~= rest);
    }
}

/// Escaped text is the content of a JSON string: put between quotes, it is
/// one JSON string, whatever the text was.
pub proof fn law_escaped_is_json_string_content(text: Seq<char>)
    ensures
        is_json_string_content(json_escaped(text)),
    decreases text.len(),
{
    if text.len() > 0 {
        law_escaped_is_json_string_content(text.drop_first());
        lemma_escaped_char_then(text.first(), json_escaped(text.drop_first()));
    }
}

/// Escaped text reads back as the text: what the document echoes is, once
/// read as JSON, the request's own method, URI and path, character for
/// character.
pub proof fn law_escaped_reads_back(text: Seq<char>)
    ensures
        json_unescaped(json_escaped(text)) == text,
    decreases text.len(),
{
    if text.len() > 0 {
        law_escaped_reads_back(text.drop_first());
        lemma_escaped_char_then(text.first(), json_escaped(text.drop_first()));
        assert(seq![text.first()] + text.drop_first() =~= text);
    }
}

/// What the start of the streaming-HTTP transport is waiting for.
#[derive(Debug, Clone, Copy, PartialEq, Eq, Structural)]
pub enum HttpStartPhase {
    /// The session store is being opened.
    OpeningSessions,
    /// The listener is being bound.
    Binding,
    /// The listener is bound and the server is to run on it.
    Serving,
    /// The start has failed.
    Failed,
}

/// The state of one start of the streaming-HTTP transport.
#[derive(Debug)]
pub struct McpHttpStartup {
    pub phase: HttpStartPhase,
    /// The address to bind.
    pub addr: SocketAddress,
}

/// What the driver reports back.
#[derive(Debug)]
pub enum HttpStartEvent {
    /// The session store was opened, or the text of why it could not be.
    SessionsOpened(Result<(), String>),
    /// The listener was bound, or the text of why it could not be.
    Bound(Result<(), String>),
}

/// What the driver is to do next.
#[derive(Debug)]
pub enum HttpStartAction {
    /// Open the session store of this kind.
    OpenSessions(SessionStorage),
    /// Build the router and bind a listener to this address.
    Bind(SocketAddress),
    /// Run the server on the listener as a background task, and hand the
    /// task back.
    Serve,
    /// Give up with this error.
    Fail(TransportError),
    /// The event did not answer the outstanding action; nothing has changed.
    Unexpected,
}

impl McpHttpStartup {
    /// The state and action that follow `event`: after the session store the
    /// listener, after the listener the server. A failure of either ends the
    /// start, with the driver's text in the error of that kind.
    pub open spec fn spec_step(self, event: HttpStartEvent) -> (McpHttpStartup, HttpStartAction) {
        match (self.phase, event) {
            (HttpStartPhase::OpeningSessions, HttpStartEvent::SessionsOpened(Ok(_))) => (
                McpHttpStartup { phase: HttpStartPhase::Binding, ..self },
                HttpStartAction::Bind(self.addr),
            ),
            (HttpStartPhase::OpeningSessions, HttpStartEvent::SessionsOpened(Err(text))) => (
                McpHttpStartup { phase: HttpStartPhase::Failed, ..self },
                HttpStartAction::Fail(TransportError::SessionStore(text)),
            ),
            (HttpStartPhase::Binding, HttpStartEvent::Bound(Ok(_))) => (
                McpHttpStartup { phase: HttpStartPhase::Serving, ..self },
                HttpStartAction::Serve,
            ),
            (HttpStartPhase::Binding, HttpStartEvent::Bound(Err(text))) => (
                McpHttpStartup { phase: HttpStartPhase::Failed, ..self },
                HttpStartAction::Fail(TransportError::Bind(text)),
            ),
            _ => (self, HttpStartAction::Unexpected),
        }
    }

    /// Takes the driver's answer to the outstanding action and names the
    /// next one.
    pub fn step(self, event: HttpStartEvent) -> (next: (McpHttpStartup, HttpStartAction))
        ensures
            next == self.spec_step(event),
    {
        match (self.phase, event) {
            (HttpStartPhase::OpeningSessions, HttpStartEvent::SessionsOpened(Ok(_))) => {
                let addr = self.addr;
                (McpHttpStartup { phase: HttpStartPhase::Binding, ..self }, HttpStartAction::Bind(addr))
            },
            (HttpStartPhase::OpeningSessions, HttpStartEvent::SessionsOpened(Err(text))) => (
                McpHttpStartup { phase: HttpStartPhase::Failed, ..self },
                HttpStartAction::Fail(TransportError::SessionStore(text)),
            ),
            (HttpStartPhase::Binding, HttpStartEvent::Bound(Ok(_))) => (
                McpHttpStartup { phase: HttpStartPhase::Serving, ..self },
                HttpStartAction::Serve,
            ),
            (HttpStartPhase::Binding, HttpStartEvent::Bound(Err(text))) => (
                McpHttpStartup { phase: HttpStartPhase::Failed, ..self },
                HttpStartAction::Fail(TransportError::Bind(text)),
            ),
            _ => (self, HttpStartAction::Unexpected),
        }
    }
}

/// Begins the start of the streaming-HTTP transport: the session store that
/// the configuration selects is opened first, and the listener is bound to
/// the configured address after it.
pub fn serve_mcp_http(config: McpHttpConfig) -> (next: (McpHttpStartup, HttpStartAction))
    ensures
        next.0 == (McpHttpStartup { phase: HttpStartPhase::OpeningSessions, addr: config.addr }),
        next.1 == HttpStartAction::OpenSessions(config.session_storage),
{
    let McpHttpConfig { addr, session_storage } = config;
    (
        McpHttpStartup { phase: HttpStartPhase::OpeningSessions, addr },
        HttpStartAction::OpenSessions(session_storage),
    )
}

} // verus!
