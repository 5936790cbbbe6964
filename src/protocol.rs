use vstd::prelude::*;

verus! {

#[verifier::external_type_specification]
#[verifier::external_body]
pub struct ExJsonValue(serde_json::Value);

#[verifier::external_type_specification]
#[verifier::external_body]
pub struct ExJsonError(serde_json::Error);

/// A lower-case hexadecimal digit.
pub open spec fn hex_digit(n: int) -> char {
    seq!['0', '1', '2', '3', '4', '5', '6', '7', '8', '9', 'a', 'b', 'c', 'd', 'e', 'f'][n]
}

/// How serde_json writes one character inside a JSON string: quote and
/// backslash escaped, the usual short escapes, other control characters as
/// `\u00XX`, everything else unchanged.
pub open spec fn escaped_char(c: char) -> Seq<char> {
    if c == '"' {
        seq!['\\', '"']
    } else if c == '\\' {
        seq!['\\', '\\']
    } else if c == '\u{8}' {
        seq!['\\', 'b']
    } else if c == '\t' {
        seq!['\\', 't']
    } else if c == '\n' {
        seq!['\\', 'n']
    } else if c == '\u{c}' {
        seq!['\\', 'f']
    } else if c == '\r' {
        seq!['\\', 'r']
    } else if (c as u32) < 0x20 {
        seq!['\\', 'u', '0', '0', hex_digit((c as u32 / 16) as int), hex_digit((c as u32 % 16) as int)]
    } else {
        seq![c]
    }
}

/// The characters of a text, each escaped.
pub open spec fn escaped(s: Seq<char>) -> Seq<char>
    decreases s.len(),
{
    if s.len() == 0 {
        Seq::empty()
    } else {
        escaped(s.drop_last()) + escaped_char(s.last())
    }
}

/// The JSON string literal that serde_json writes for a text.
pub open spec fn json_string_of(s: Seq<char>) -> Seq<char> {
    seq!['"'] + escaped(s) + seq!['"']
}

proof fn lemma_escaped_char_single_line(c: char)
    ensures
        is_single_line(escaped_char(c)),
{
    if (c as u32) < 0x20 && c != '"' && c != '\\' && c != '\u{8}' && c != '\t' && c != '\n'
        && c != '\u{c}' && c != '\r' {
        let digits = seq!['0', '1', '2', '3', '4', '5', '6', '7', '8', '9', 'a', 'b', 'c', 'd', 'e', 'f'];
        assert forall|i: int| 0 <= i < 16 implies digits[i] != '\n' && digits[i] != '\r' by {}
        assert(0 <= c as u32 / 16 < 16);
        assert(0 <= c as u32 % 16 < 16);
    }
}

/// An escaped text never holds a raw line feed or carriage return.
pub proof fn lemma_json_string_single_line(s: Seq<char>)
    ensures
        is_single_line(json_string_of(s)),
{
    lemma_escaped_single_line(s);
    lemma_single_line_concat(seq!['"'], escaped(s));
    lemma_single_line_concat(seq!['"'] + escaped(s), seq!['"']);
}

proof fn lemma_escaped_single_line(s: Seq<char>)
    ensures
        is_single_line(escaped(s)),
    decreases s.len(),
{
    if s.len() > 0 {
        lemma_escaped_single_line(s.drop_last());
        lemma_escaped_char_single_line(s.last());
        lemma_single_line_concat(escaped(s.drop_last()), escaped_char(s.last()));
    }
}

/// A text holds no line terminator, so it can travel as one line.
pub open spec fn is_single_line(s: Seq<char>) -> bool {
    forall|i: int| 0 <= i < s.len() ==> s[i] != '\n' && s[i] != '\r'
}

/// The command object as it is written on the wire, before its terminator.
pub open spec fn request_text(action_json: Seq<char>, params_json: Seq<char>) -> Seq<char> {
    "{\"action\":"@ + action_json + ",\"params\":"@ + params_json + "}"@
}

/// One framed line: the command object followed by a single line feed.
pub open spec fn request_line(action_json: Seq<char>, params_json: Seq<char>) -> Seq<char> {
    request_text(action_json, params_json) + "\n"@
}

pub proof fn lemma_single_line_concat(a: Seq<char>, b: Seq<char>)
    requires
        is_single_line(a),
        is_single_line(b),
    ensures
        is_single_line(a + b),
{
    assert forall|i: int| 0 <= i < (a + b).len() implies (a + b)[i] != '\n' && (a + b)[i]
        != '\r' by {
        if i < a.len() {
            assert((a + b)[i] == a[i]);
        } else {
            assert((a + b)[i] == b[i - a.len()]);
        }
    }
}

/// Relies on serde_json::to_string for a str: it writes into a Vec and a
/// string always serializes, so it succeeds, with the text in quotes and each
/// character escaped by serde_json's table of escapes.
#[verifier::external_body]
fn quote_json_string(s: &str) -> (r: Result<String, serde_json::Error>)
    ensures
        r is Ok,
        r matches Ok(t) ==> t@ == json_string_of(s@),
{
    serde_json::to_string(s)
}

/// The compact JSON text that serde_json writes for a value.
pub uninterp spec fn value_json_of(v: serde_json::Value) -> Seq<char>;

/// How optional parameters are written: their JSON text, or `null`.
pub open spec fn params_text(params: Option<serde_json::Value>) -> Seq<char> {
    match params {
        None => "null"@,
        Some(v) => value_json_of(v),
    }
}

/// Relies on serde_json::to_string for a Value: it writes into a Vec and a
/// Value's object keys are strings, so it succeeds, with compact output (no
/// whitespace between tokens) and every control character inside strings
/// escaped.
#[verifier::external_body]
fn value_to_json(v: &serde_json::Value) -> (r: Result<String, serde_json::Error>)
    ensures
        r is Ok,
        r matches Ok(t) ==> t@ == value_json_of(*v) && is_single_line(t@),
{
    serde_json::to_string(v)
}

/// Relies on serde_json::Error's Display: the text of the error.
#[verifier::external_body]
fn json_error_text(e: &serde_json::Error) -> String {
    e.to_string()
}

/// Why a command could not be turned into a line.
#[derive(Debug)]
pub enum EncodeError {
    /// serde_json refused to serialize the command; carries its message.
    Serialize(String),
}

/// A command sent to the child: an action name and optional structured
/// parameters.
#[derive(Debug)]
pub struct CommandRequest {
    pub action: String,
    pub params: Option<serde_json::Value>,
}

/// Builds the framed command line from the already serialized action string
/// and parameters.
pub fn frame_request(action_json: &str, params_json: &str) -> (r: String)
    requires
        is_single_line(action_json@),
        is_single_line(params_json@),
    ensures
        r@ == request_line(action_json@, params_json@),
        is_single_line(request_text(action_json@, params_json@)),
{
    let mut line = String::from_str("{\"action\":");
    line.append(action_json);
    line.append(",\"params\":");
    line.append(params_json);
    line.append("}");
    line.append("\n");
    proof {
        reveal_strlit("{\"action\":");
        reveal_strlit(",\"params\":");
        reveal_strlit("}");
        let p1 = "{\"action\":"@;
        let p2 = ",\"params\":"@;
        let p3 = "}"@;
        assert(is_single_line(p1));
        assert(is_single_line(p2));
        assert(is_single_line(p3));
        lemma_single_line_concat(p1, action_json@);
        lemma_single_line_concat(p1 + action_json@, p2);
        lemma_single_line_concat(p1 + action_json@ + p2, params_json@);
        lemma_single_line_concat(p1 + action_json@ + p2 + params_json@, p3);
    }
    line
}

impl CommandRequest {
    /// Serializes the command as one compact JSON object and frames it as a
    /// single line ending in a line feed. Absent parameters are written as
    /// `null`.
    pub fn encode_line(&self) -> (r: Result<String, EncodeError>)
        ensures
            r matches Ok(line) ==> line@ == request_line(
                json_string_of(self.action@),
                params_text(self.params),
            ),
            r matches Ok(line) ==> is_single_line(line@.drop_last()) && line@.last() == '\n',
            r is Ok,
    {
        let action_json = match quote_json_string(self.action.as_str()) {
            Ok(t) => {
                proof {
                    lemma_json_string_single_line(self.action@);
                }
                t
            },
            Err(e) => {
                return Err(EncodeError::Serialize(json_error_text(&e)));
            },
        };
        let params_json = match &self.params {
            None => String::from_str("null"),
            Some(v) => match value_to_json(v) {
                Ok(t) => t,
                Err(e) => {
                    return Err(EncodeError::Serialize(json_error_text(&e)));
                },
            },
        };
        proof {
            reveal_strlit("null");
        }
        assert(is_single_line(params_json@));
        let line = frame_request(action_json.as_str(), params_json.as_str());
        proof {
            reveal_strlit("\n");
            let body = request_text(action_json@, params_json@);
            assert(line@.drop_last() =~= body);
        }
        Ok(line)
    }
}

/// The outcome of dispatching a command: a status word, an optional
/// human-readable detail and an optional payload.
#[derive(Debug)]
pub struct CommandResponse {
    pub status: String,
    pub message: Option<String>,
    pub data: Option<serde_json::Value>,
}

/// The acknowledgement that a command's bytes reached the child.
pub open spec fn is_sent_ack(r: CommandResponse) -> bool {
    &&& r.status@ == "ok"@
    &&& r.message matches Some(m) && m@ == "Command sent"@
    &&& r.data.is_none()
}

impl CommandResponse {
    /// The synthetic acknowledgement returned once a command line has been
    /// written and flushed.
    pub fn command_sent() -> (r: CommandResponse)
        ensures
            is_sent_ack(r),
    {
        CommandResponse {
            status: String::from_str("ok"),
            message: Some(String::from_str("Command sent")),
            data: None,
        }
    }
}

/// Whether serde_json reads a text as one JSON value.
pub uninterp spec fn accepted_as_json(s: Seq<char>) -> bool;

/// The value that serde_json reads from a text it accepts.
pub uninterp spec fn parsed_json(s: Seq<char>) -> serde_json::Value;

/// Relies on serde_json::from_str for a Value: parses one JSON document, and
/// whether it succeeds, and what it yields, depends on the text alone.
#[verifier::external_body]
fn parse_json(line: &str) -> (r: Result<serde_json::Value, serde_json::Error>)
    ensures
        r is Ok <==> accepted_as_json(line@),
        r matches Ok(v) ==> v == parsed_json(line@),
{
    serde_json::from_str(line)
}

/// The text of the member `key` of the JSON object that serde_json reads from
/// a line, when that member is a string.
pub uninterp spec fn string_member(s: Seq<char>, key: Seq<char>) -> Option<Seq<char>>;

/// Relies on serde_json::from_str for a Value, then Value::get and
/// Value::as_str: the member's text when the line is a JSON object whose
/// member `key` is a string, else nothing.
#[verifier::external_body]
fn string_member_of_line(line: &str, key: &str) -> (r: Option<String>)
    ensures
        r matches Some(t) ==> string_member(line@, key@) == Some(t@),
        r is None ==> string_member(line@, key@) is None,
        r is Some ==> accepted_as_json(line@),
{
    let v: serde_json::Value = serde_json::from_str(line).ok()?;
    v.get(key)?.as_str().map(String::from)
}

/// The member `key` of a JSON value: its value, or null when it is absent or
/// the value is no object.
pub uninterp spec fn json_member(v: serde_json::Value, key: Seq<char>) -> serde_json::Value;

/// Whether a JSON value is null.
pub uninterp spec fn json_is_null(v: serde_json::Value) -> bool;

/// The parameters that a command object carries: its `params` member, absent
/// when that member is null or missing.
pub open spec fn params_member(v: serde_json::Value) -> Option<serde_json::Value> {
    if json_is_null(json_member(v, "params"@)) {
        None
    } else {
        Some(json_member(v, "params"@))
    }
}

/// Relies on indexing a serde_json::Value by a key: the member's value, or
/// null when it is absent or the value is no object.
#[verifier::external_body]
fn member(v: &serde_json::Value, key: &str) -> (r: serde_json::Value)
    ensures
        r == json_member(*v, key@),
{
    v[key].clone()
}

/// Relies on serde_json::Value::is_null.
#[verifier::external_body]
fn is_null(v: &serde_json::Value) -> (r: bool)
    ensures
        r == json_is_null(*v),
{
    v.is_null()
}

impl CommandRequest {
    /// Reads a command back from one JSON line: `action` must be a string;
    /// `params` is absent when the member is missing or null.
    pub fn decode_line(line: &str) -> (r: Option<CommandRequest>)
        ensures
            r is Some <==> accepted_as_json(line@) && string_member(line@, "action"@) is Some,
            r matches Some(d) ==> string_member(line@, "action"@) == Some(d.action@)
                && d.params == params_member(parsed_json(line@)),
    {
        let object = match parse_json(line) {
            Ok(v) => v,
            Err(_) => {
                return None;
            },
        };
        let action = match string_member_of_line(line, "action") {
            Some(a) => a,
            None => {
                return None;
            },
        };
        let params = member(&object, "params");
        if is_null(&params) {
            Some(CommandRequest { action, params: None })
        } else {
            Some(CommandRequest { action, params: Some(params) })
        }
    }
}

/// What the event reader does with one decoded output envelope.
#[derive(Debug, Clone, Copy, PartialEq, Eq)]
pub enum OutputRoute {
    /// An event: its payload goes to the host's event sink.
    Forward,
    /// A response or an unknown kind: reserved, dropped for now.
    Discard,
}

/// Routes an envelope by its `type` member: only the string `event` is
/// forwarded.
pub fn route_for_tag(tag: &Option<String>) -> (r: OutputRoute)
    ensures
        (r == OutputRoute::Forward) <==> (tag matches Some(t) && t@ == "event"@),
{
    match tag {
        Some(t) => {
            if t.eq(&String::from_str("event")) {
                OutputRoute::Forward
            } else {
                OutputRoute::Discard
            }
        },
        None => OutputRoute::Discard,
    }
}

/// Decodes one output line of the child. A line that is no JSON, or whose
/// `type` is not `event`, yields nothing; an event yields the payload under
/// its `event` member (null when that member is missing).
pub fn event_of_line(line: &str) -> (r: Option<serde_json::Value>)
    ensures
        r is Some <==> accepted_as_json(line@) && string_member(line@, "type"@) == Some(
            "event"@,
        ),
        r matches Some(v) ==> v == json_member(parsed_json(line@), "event"@),
{
    let envelope = match parse_json(line) {
        Ok(v) => v,
        Err(_) => {
            return None;
        },
    };
    let tag = string_member_of_line(line, "type");
    match route_for_tag(&tag) {
        OutputRoute::Forward => Some(member(&envelope, "event")),
        OutputRoute::Discard => None,
    }
}

} // verus!
