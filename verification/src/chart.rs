//! The chart feed: what a chart request that fails answers, and how the
//! chart socket answers each message of its client.
use vstd::prelude::*;
use vstd::string::*;

verus! {

broadcast use vstd::string::group_string_axioms;

/// Why chart data could not be gathered, with the detail of the failure.
pub enum ChartError {
    TrackerIds(String),
    StoreConnection(String),
    History(String),
    Parse(String),
}

/// The message of a chart failure: which step failed, then the detail.
pub open spec fn chart_error_text(e: ChartError) -> Seq<char> {
    match e {
        ChartError::TrackerIds(d) => "Failed to fetch tracker IDs: "@ + d@,
        ChartError::StoreConnection(d) => "Failed to get Redis connection: "@ + d@,
        ChartError::History(d) => "Failed to get tracker history from Redis: "@ + d@,
        ChartError::Parse(d) => "Failed to parse tracker payload: "@ + d@,
    }
}

/// A prefix and a detail.
fn prefixed(prefix: &str, detail: &String) -> (s: String)
    ensures
        s@ == prefix@ + detail@,
{
    let mut s = String::from_str(prefix);
    s.append(detail.as_str());
    s
}

impl ChartError {
    /// The message of this failure.
    pub fn message(&self) -> (m: String)
        ensures
            m@ == chart_error_text(*self),
    {
        match self {
            ChartError::TrackerIds(d) => prefixed("Failed to fetch tracker IDs: ", d),
            ChartError::StoreConnection(d) => prefixed("Failed to get Redis connection: ", d),
            ChartError::History(d) => prefixed("Failed to get tracker history from Redis: ", d),
            ChartError::Parse(d) => prefixed("Failed to parse tracker payload: ", d),
        }
    }
}

/// A lowercase hexadecimal digit.
pub open spec fn hex_digit(d: int) -> char {
    if d < 10 {
        (d + 48) as char
    } else {
        (d + 87) as char
    }
}

/// How `serde_json` writes one character inside a string: a quote and a
/// backslash behind a backslash; backspace, tab, line feed, form feed and
/// carriage return as `\b`, `\t`, `\n`, `\f`, `\r`; any other control
/// character below U+0020 as `\u00` and two lowercase hexadecimal digits;
/// every other character as itself.
pub open spec fn json_char_text(c: char) -> Seq<char> {
    let u = c as u32;
    if c == '"' {
        seq!['\\', '"']
    } else if c == '\\' {
        seq!['\\', '\\']
    } else if u == 8 {
        seq!['\\', 'b']
    } else if u == 9 {
        seq!['\\', 't']
    } else if u == 10 {
        seq!['\\', 'n']
    } else if u == 12 {
        seq!['\\', 'f']
    } else if u == 13 {
        seq!['\\', 'r']
    } else if u < 32 {
        seq!['\\', 'u', '0', '0', hex_digit((u / 16) as int), hex_digit((u % 16) as int)]
    } else {
        seq![c]
    }
}

/// The characters of a text as `serde_json` writes them inside a string.
pub open spec fn json_escaped(text: Seq<char>) -> Seq<char>
    decreases text.len(),
{
    if text.len() == 0 {
        Seq::empty()
    } else {
        json_escaped(text.drop_last()) + json_char_text(text.last())
    }
}

/// The JSON string literal of a text, as `serde_json` writes it: the
/// escaped text between quotes.
pub open spec fn json_string_literal(text: Seq<char>) -> Seq<char> {
    seq!['"'] + json_escaped(text) + seq!['"']
}

/// A text with no quote, no backslash and no control character is written
/// inside a JSON string as it is, and escaping keeps the text's order: the
/// escape of a joined text is the escapes joined.
pub proof fn law_json_escape_plain_and_joined(text: Seq<char>, more: Seq<char>)
    ensures
        (forall|i: int|
            0 <= i < text.len() ==> #[trigger] text[i] != '"' && text[i] != '\\' && text[i] as u32
                >= 32) ==> json_escaped(text) == text,
        json_escaped(text + more) == json_escaped(text) + json_escaped(more),
    decreases text.len() + more.len(),
{
    if text.len() > 0 {
        law_json_escape_plain_and_joined(text.drop_last(), more);
        if forall|i: int|
            0 <= i < text.len() ==> #[trigger] text[i] != '"' && text[i] != '\\' && text[i] as u32 >= 32 {
            assert forall|i: int| 0 <= i < text.drop_last().len() implies #[trigger] text.drop_last()[i]
                != '"' && text.drop_last()[i] != '\\' && text.drop_last()[i] as u32 >= 32 by {
                assert(text.drop_last()[i] == text[i]);
            }
            assert(text[text.len() - 1] == text.last());
            assert(json_escaped(text.drop_last()) + seq![text.last()] =~= text);
        }
    }
    if more.len() > 0 {
        law_json_escape_plain_and_joined(text, more.drop_last());
        assert((text + more).drop_last() =~= text + more.drop_last());
        assert((text + more).last() == more.last());
        assert(json_escaped(text + more) =~= json_escaped(text) + json_escaped(more));
    } else {
        assert(text + more =~= text);
        assert(json_escaped(more) =~= Seq::<char>::empty());
        assert(json_escaped(text) + json_escaped(more) =~= json_escaped(text));
    }
}

/// `serde_json::to_string` on a text: the quoted, escaped JSON literal.
/// Serialising a `str` into memory does not fail; the empty result of the
/// failure arm is never produced.
#[verifier::external_body]
fn json_string(text: &str) -> (r: String)
    ensures
        r@ == json_string_literal(text@),
{
    match serde_json::to_string(text) {
        Ok(s) => s,
        Err(_) => String::new(),
    }
}

/// The message the chart socket sends when chart data could not be
/// gathered: a JSON object with the failure's message under `error`.
pub open spec fn chart_error_reply_text(message: Seq<char>) -> Seq<char> {
    "{\"error\":"@ + json_string_literal(message) + "}"@
}

/// The message the chart socket sends when chart data could not be gathered.
pub fn chart_error_reply(message: &str) -> (r: String)
    ensures
        r@ == chart_error_reply_text(message@),
{
    let mut r = String::from_str("{\"error\":");
    r.append(json_string(message).as_str());
    r.append("}");
    r
}

/// What the chart socket receives.
pub enum ChartEvent {
    /// A text message: a request for chart data.
    Text,
    /// The client's close frame.
    Close,
    /// A ping, with its data.
    Ping(Vec<u8>),
    /// Any other message.
    Other,
    /// A failure to receive.
    Failed,
    /// The end of the stream.
    Ended,
}

/// What the chart socket does next.
pub enum ChartAction {
    /// Gather chart data and answer with it.
    SendChartData,
    /// Answer with a pong carrying the ping's data; stop if it cannot be sent.
    Pong(Vec<u8>),
    /// Wait for the next message.
    Wait,
    /// Close the connection.
    Stop,
}

/// How the chart socket answers what it receives: a text asks for chart
/// data, a ping gets its pong, a close, a failure or the end of the stream
/// stops it, and anything else is ignored.
pub fn chart_step(event: ChartEvent) -> (a: ChartAction)
    ensures
        match event {
            ChartEvent::Text => a is SendChartData,
            ChartEvent::Ping(d) => a matches ChartAction::Pong(p) && p@ == d@,
            ChartEvent::Other => a is Wait,
            _ => a is Stop,
        },
{
    match event {
        ChartEvent::Text => ChartAction::SendChartData,
        ChartEvent::Ping(d) => ChartAction::Pong(d),
        ChartEvent::Other => ChartAction::Wait,
        ChartEvent::Close => ChartAction::Stop,
        ChartEvent::Failed => ChartAction::Stop,
        ChartEvent::Ended => ChartAction::Stop,
    }
}

/// The answer to a request for chart data: the text to send, if any, and
/// whether the socket closes when that text cannot be sent.
pub struct ChartReply {
    pub text: Option<String>,
    pub stop_if_unsent: bool,
}

/// The answer to a request for chart data, from what gathering it gave:
/// the data as JSON is sent, and the socket closes if it cannot be; data
/// that could not be written as JSON is not answered; a failure is
/// answered with its message, whether or not that can be sent.
pub fn chart_reply(gathered: Result<Option<String>, String>) -> (r: ChartReply)
    ensures
        match gathered {
            Ok(Some(json)) => r.text == Some(json) && r.stop_if_unsent,
            Ok(None) => r.text is None && !r.stop_if_unsent,
            Err(e) => (r.text matches Some(t) && t@ == chart_error_reply_text(e@))
                && !r.stop_if_unsent,
        },
{
    match gathered {
        Ok(Some(json)) => ChartReply { text: Some(json), stop_if_unsent: true },
        Ok(None) => ChartReply { text: None, stop_if_unsent: false },
        Err(e) => ChartReply { text: Some(chart_error_reply(e.as_str())), stop_if_unsent: false },
    }
}


/// The latest report of one tracker, as the chart socket sends it.
pub struct ChartPayload<P> {
    pub tracker_id: i32,
    pub payload: Option<P>,
}

/// The past reports of one tracker, as the chart history sends them.
pub struct ChartHistoryPayload<P> {
    pub tracker_id: i32,
    pub payload: Vec<P>,
}

/// What reading the last entry of a tracker's history gave.
pub enum LatestRead<P> {
    /// The store could not be read, with the failure's text.
    Failed(String),
    /// The history is empty.
    Empty,
    /// The last entry does not parse.
    Unparsable,
    /// The last entry, parsed.
    Parsed(P),
}

/// Takes one tracker's latest entry into the chart data: a parsed entry is
/// sent as the tracker's payload, an empty history or an entry that does
/// not parse as none, and a failed read stops the gathering with its error.
pub fn take_latest<P>(gathered: &mut Vec<ChartPayload<P>>, tracker_id: i32, read: LatestRead<P>) -> (r:
    Option<ChartError>)
    ensures
        match read {
            LatestRead::Failed(e) => final(gathered)@ == old(gathered)@ && (r matches Some(
                ChartError::History(d),
            ) && d == e),
            LatestRead::Parsed(p) => r is None && final(gathered)@.len() == old(gathered)@.len() + 1
                && final(gathered)@.subrange(0, old(gathered)@.len() as int) == old(gathered)@
                && final(gathered)@.last().tracker_id == tracker_id && final(gathered)@.last().payload
                == Some(p),
            _ => r is None && final(gathered)@ == old(gathered)@.push(
                ChartPayload { tracker_id, payload: None },
            ),
        },
{
    match read {
        LatestRead::Failed(e) => Some(ChartError::History(e)),
        LatestRead::Parsed(p) => {
            let ghost before = gathered@;
            gathered.push(ChartPayload { tracker_id, payload: Some(p) });
            assert(gathered@.subrange(0, before.len() as int) =~= before);
            None
        },
        _ => {
            gathered.push(ChartPayload { tracker_id, payload: None });
            None
        },
    }
}

/// The error of the first entry of a history that did not parse, if any.
pub open spec fn first_parse_error<P>(entries: Seq<Result<P, String>>) -> Option<String>
    decreases entries.len(),
{
    if entries.len() == 0 {
        None
    } else {
        match entries[0] {
            Err(e) => Some(e),
            Ok(_) => first_parse_error(entries.drop_first()),
        }
    }
}

/// A history has no parse error exactly when every entry parsed; otherwise
/// its error is that of an entry that did not parse, every entry before it
/// having parsed.
pub proof fn law_first_parse_error<P>(entries: Seq<Result<P, String>>)
    ensures
        first_parse_error(entries) is None <==> forall|i: int| 0 <= i < entries.len() ==> (
        #[trigger] entries[i]) is Ok,
        first_parse_error(entries) matches Some(e) ==> exists|i: int|
            0 <= i < entries.len() && #[trigger] entries[i] == Err::<P, String>(e) && forall|j: int|
                0 <= j < i ==> (#[trigger] entries[j]) is Ok,
    decreases entries.len(),
{
    if entries.len() > 0 {
        let rest = entries.drop_first();
        law_first_parse_error(rest);
        assert forall|i: int| 0 < i < entries.len() implies #[trigger] entries[i] == rest[i - 1] by {}
        if entries[0] is Ok {
            if first_parse_error(rest) is None {
                assert forall|i: int| 0 <= i < entries.len() implies (#[trigger] entries[i]) is Ok by {
                    if i > 0 {
                        assert(entries[i] == rest[i - 1]);
                    }
                }
            } else {
                let e = first_parse_error(rest)->0;
                let i = choose|i: int|
                    0 <= i < rest.len() && #[trigger] rest[i] == Err::<P, String>(e) && forall|j: int|
                        0 <= j < i ==> (#[trigger] rest[j]) is Ok;
                assert(entries[i + 1] == rest[i]);
                assert forall|j: int| 0 <= j < i + 1 implies (#[trigger] entries[j]) is Ok by {
                    if j > 0 {
                        assert(entries[j] == rest[j - 1]);
                    }
                }
                assert(!(entries[i + 1] is Ok));
            }
        } else {
            assert(entries[0] == Err::<P, String>(entries[0]->Err_0));
        }
    }
}

/// Takes one tracker's whole history into the chart history: its entries,
/// all parsed and in order; a failed read, or the first entry that does not
/// parse, stops the gathering with its error.
pub fn take_history<P>(
    gathered: &mut Vec<ChartHistoryPayload<P>>,
    tracker_id: i32,
    read: Result<Vec<Result<P, String>>, String>,
) -> (r: Option<ChartError>)
    ensures
        match read {
            Err(e) => final(gathered)@ == old(gathered)@ && r == Some(ChartError::History(e)),
            Ok(entries) => match first_parse_error(entries@) {
                Some(d) => final(gathered)@ == old(gathered)@ && r == Some(ChartError::Parse(d)),
                None => {
                    &&& r is None
                    &&& final(gathered)@.len() == old(gathered)@.len() + 1
                    &&& final(gathered)@.subrange(0, old(gathered)@.len() as int) == old(gathered)@
                    &&& final(gathered)@.last().tracker_id == tracker_id
                    &&& final(gathered)@.last().payload@.len() == entries@.len()
                    &&& forall|i: int|
                        0 <= i < entries@.len() ==> entries@[i] == Ok::<P, String>(
                            #[trigger] final(gathered)@.last().payload@[i],
                        )
                },
            },
        },
{
    let entries = match read {
        Err(e) => return Some(ChartError::History(e)),
        Ok(entries) => entries,
    };
    let ghost given = entries@;
    let mut entries = entries;
    let mut payload: Vec<P> = Vec::new();
    while entries.len() > 0
        invariant
            payload@.len() + entries@.len() == given.len(),
            entries@ == given.subrange(payload@.len() as int, given.len() as int),
            first_parse_error(given) == first_parse_error(entries@),
            read matches Ok(v) && v@ == given,
            forall|i: int| 0 <= i < payload@.len() ==> given[i] == Ok::<P, String>(#[trigger] payload@[i]),
        decreases entries@.len(),
    {
        let ghost k = payload@.len() as int;
        let ghost rest = entries@;
        let entry = entries.remove(0);
        assert(entry == given[k]);
        assert(entries@ =~= given.subrange(k + 1, given.len() as int));
        assert(rest.drop_first() =~= entries@);
        match entry {
            Ok(p) => payload.push(p),
            Err(e) => {
                return Some(ChartError::Parse(e));
            },
        }
    }
    let ghost before = gathered@;
    gathered.push(ChartHistoryPayload { tracker_id, payload });
    assert(gathered@.subrange(0, before.len() as int) =~= before);
    None
}

} // verus!
