//! The response side of the wire protocol: one JSON object carrying whether
//! the command succeeded, the data it produced (nothing, a bare string, or a
//! status snapshot), and a human-readable message. The daemon renders a
//! response with `render_response`; clients are free to read it with any
//! JSON reader, so no parser lives here.

use vstd::prelude::*;

use crate::numtext::{dec_str, u64_to_string};
use crate::statefile::bool_text;
use crate::status::StatusOutput;

verus! {

/// What a response carries in its `data` field.
#[derive(Clone, Debug, PartialEq, Eq)]
pub enum ResponseData {
    Null,
    Text(String),
    Status(StatusOutput),
}

/// One reply of the wire protocol.
#[derive(Clone, Debug, PartialEq, Eq)]
pub struct Response {
    pub success: bool,
    pub data: ResponseData,
    pub message: String,
}

/// A string with every quote and backslash escaped, fit to stand between
/// JSON quotes.
pub open spec fn spec_escape(s: Seq<char>) -> Seq<char>
    decreases s.len(),
{
    if s.len() == 0 {
        Seq::empty()
    } else {
        spec_escape(s.drop_last()) + (if s.last() == '"' || s.last() == '\\' {
            seq!['\\', s.last()]
        } else {
            seq![s.last()]
        })
    }
}

/// Relies on `alloc::string::String::push`: appends one character.
#[verifier::external_body]
fn push_char(s: &mut String, c: char)
    ensures
        final(s)@ == old(s)@.push(c),
{
    s.push(c);
}

/// Escapes quotes and backslashes so the text can stand between JSON quotes.
pub fn escape_text(s: &str) -> (r: String)
    ensures
        r@ == spec_escape(s@),
{
    let n = s.unicode_len();
    let mut out = String::new();
    let mut i: usize = 0;
    while i < n
        invariant
            0 <= i <= n,
            n == s@.len(),
            out@ == spec_escape(s@.take(i as int)),
        decreases n - i,
    {
        let c = s.get_char(i);
        if c == '"' || c == '\\' {
            push_char(&mut out, '\\');
            push_char(&mut out, c);
        } else {
            push_char(&mut out, c);
        }
        proof {
            assert(s@.take(i + 1).drop_last() =~= s@.take(i as int));
            assert(s@.take(i + 1).last() == s@[i as int]);
            assert(out@ =~= spec_escape(s@.take(i + 1)));
        }
        i += 1;
    }
    proof {
        assert(s@.take(n as int) =~= s@);
    }
    out
}

/// The JSON text of a string value: the escaped text between quotes.
pub open spec fn spec_json_string(s: Seq<char>) -> Seq<char> {
    "\""@ + spec_escape(s) + "\""@
}

/// Renders a string value as JSON.
pub fn json_string(s: &str) -> (r: String)
    ensures
        r@ == spec_json_string(s@),
{
    let mut out = String::from_str("\"");
    out.append(escape_text(s).as_str());
    out.append("\"");
    out
}

/// The JSON text of a status snapshot: an object for the status bars, a bare
/// string for plain output.
pub open spec fn spec_render_status(st: StatusOutput) -> Seq<char> {
    match st {
        StatusOutput::Waybar { text, tooltip, class, percentage } => "{\"text\":"@
            + spec_json_string(text@) + ",\"tooltip\":"@ + spec_json_string(tooltip@)
            + ",\"class\":"@ + spec_json_string(class@) + ",\"percentage\":"@ + dec_str(
            percentage as nat,
        ) + "}"@,
        StatusOutput::I3statusRs { text, short_text, icon, state } => "{\"text\":"@
            + spec_json_string(text@) + (match short_text {
            Some(t) => ",\"short_text\":"@ + spec_json_string(t@),
            None => Seq::empty(),
        }) + (match icon {
            Some(t) => ",\"icon\":"@ + spec_json_string(t@),
            None => Seq::empty(),
        }) + (match state {
            Some(t) => ",\"state\":"@ + spec_json_string(t@),
            None => Seq::empty(),
        }) + "}"@,
        StatusOutput::Plain(text) => spec_json_string(text@),
    }
}

/// Renders a status snapshot as JSON.
pub fn render_status(st: &StatusOutput) -> (r: String)
    ensures
        r@ == spec_render_status(*st),
{
    match st {
        StatusOutput::Waybar { text, tooltip, class, percentage } => {
            let mut out = String::from_str("{\"text\":");
            out.append(json_string(text.as_str()).as_str());
            out.append(",\"tooltip\":");
            out.append(json_string(tooltip.as_str()).as_str());
            out.append(",\"class\":");
            out.append(json_string(class.as_str()).as_str());
            out.append(",\"percentage\":");
            out.append(u64_to_string(*percentage).as_str());
            out.append("}");
            proof {
                assert(out@ =~= spec_render_status(*st));
            }
            out
        },
        StatusOutput::I3statusRs { text, short_text, icon, state } => {
            let mut out = String::from_str("{\"text\":");
            out.append(json_string(text.as_str()).as_str());
            match short_text {
                Some(t) => {
                    out.append(",\"short_text\":");
                    out.append(json_string(t.as_str()).as_str());
                },
                None => {},
            }
            match icon {
                Some(t) => {
                    out.append(",\"icon\":");
                    out.append(json_string(t.as_str()).as_str());
                },
                None => {},
            }
            match state {
                Some(t) => {
                    out.append(",\"state\":");
                    out.append(json_string(t.as_str()).as_str());
                },
                None => {},
            }
            out.append("}");
            proof {
                assert(out@ =~= spec_render_status(*st));
            }
            out
        },
        StatusOutput::Plain(text) => json_string(text.as_str()),
    }
}

/// The JSON text of a data field.
pub open spec fn spec_render_data(d: ResponseData) -> Seq<char> {
    match d {
        ResponseData::Null => "null"@,
        ResponseData::Text(t) => spec_json_string(t@),
        ResponseData::Status(st) => spec_render_status(st),
    }
}

/// The one line the daemon replies with, without the trailing newline.
pub open spec fn spec_render_response(r: Response) -> Seq<char> {
    "{\"success\":"@ + (if r.success {
        "true"@
    } else {
        "false"@
    }) + ",\"data\":"@ + spec_render_data(r.data) + ",\"message\":"@ + spec_json_string(
        r.message@,
    ) + "}"@
}

/// Renders a reply line, without the trailing newline.
pub fn render_response(r: &Response) -> (out: String)
    ensures
        out@ == spec_render_response(*r),
{
    let mut out = String::from_str("{\"success\":");
    out.append(bool_text(r.success));
    out.append(",\"data\":");
    match &r.data {
        ResponseData::Null => out.append("null"),
        ResponseData::Text(t) => out.append(json_string(t.as_str()).as_str()),
        ResponseData::Status(st) => out.append(render_status(st).as_str()),
    }
    out.append(",\"message\":");
    out.append(json_string(r.message.as_str()).as_str());
    out.append("}");
    proof {
        assert(out@ =~= spec_render_response(*r));
    }
    out
}

/// The reply to a command the daemon does not know.
pub fn unknown_command_response() -> (r: Response)
    ensures
        !r.success,
        r.data is Null,
        r.message@ == "Unknown command"@,
{
    Response {
        success: false,
        data: ResponseData::Null,
        message: String::from_str("Unknown command"),
    }
}

} // verus!
