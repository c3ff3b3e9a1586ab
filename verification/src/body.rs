//! Construction of the completion request and its JSON wire body.
//!
//! The body is built character by character by verified code; its exact
//! shape is pinned down by [`body_spec`].

use vstd::prelude::*;
use vstd::string::StringExecFns;
use vstd::string::StrSliceExecFns;

use crate::config::BridgeConfig;
use crate::config::LLMOptions;

verus! {

/// The lowercase hexadecimal digit for a value below 16.
pub open spec fn hex_digit(d: nat) -> char {
    if d == 0 { '0' } else if d == 1 { '1' } else if d == 2 { '2' } else if d == 3 { '3' }
    else if d == 4 { '4' } else if d == 5 { '5' } else if d == 6 { '6' } else if d == 7 { '7' }
    else if d == 8 { '8' } else if d == 9 { '9' } else if d == 10 { 'a' } else if d == 11 { 'b' }
    else if d == 12 { 'c' } else if d == 13 { 'd' } else if d == 14 { 'e' } else { 'f' }
}

/// How one character appears inside a JSON string literal: the two-character
/// short escapes of JSON, a `\u00XX` escape for the remaining control
/// characters, and every other character as itself.
pub open spec fn escape_char(c: char) -> Seq<char> {
    if c == '"' { seq!['\\', '"'] }
    else if c == '\\' { seq!['\\', '\\'] }
    else if c == '\n' { seq!['\\', 'n'] }
    else if c == '\r' { seq!['\\', 'r'] }
    else if c == '\t' { seq!['\\', 't'] }
    else if (c as u32) < 32 {
        seq!['\\', 'u', '0', '0', hex_digit((c as u32) as nat / 16), hex_digit((c as u32) as nat % 16)]
    }
    else { seq![c] }
}

/// A whole string as it appears between the quotes of a JSON string literal.
pub open spec fn escape_seq(s: Seq<char>) -> Seq<char>
    decreases s.len(),
{
    if s.len() == 0 {
        Seq::empty()
    } else {
        escape_seq(s.drop_last()) + escape_char(s.last())
    }
}

/// A JSON string literal, quotes included, holding exactly `s`.
pub open spec fn json_string(s: Seq<char>) -> Seq<char> {
    seq!['"'] + escape_seq(s) + seq!['"']
}

/// Relies on `String::push`: appends exactly the one character.
#[verifier::external_body]
fn push_char(out: &mut String, c: char)
    ensures
        final(out)@ == old(out)@ + seq![c],
{
    out.push(c);
}

fn push_hex_digit(out: &mut String, d: u32)
    requires
        d < 16,
    ensures
        final(out)@ == old(out)@ + seq![hex_digit(d as nat)],
{
    let c: char = if d == 0 { '0' } else if d == 1 { '1' } else if d == 2 { '2' }
        else if d == 3 { '3' } else if d == 4 { '4' } else if d == 5 { '5' }
        else if d == 6 { '6' } else if d == 7 { '7' } else if d == 8 { '8' }
        else if d == 9 { '9' } else if d == 10 { 'a' } else if d == 11 { 'b' }
        else if d == 12 { 'c' } else if d == 13 { 'd' } else if d == 14 { 'e' }
        else { 'f' };
    push_char(out, c);
}

fn push_escaped_char(out: &mut String, c: char)
    ensures
        final(out)@ == old(out)@ + escape_char(c),
{
    if c == '"' {
        push_char(out, '\\');
        push_char(out, '"');
    } else if c == '\\' {
        push_char(out, '\\');
        push_char(out, '\\');
    } else if c == '\n' {
        push_char(out, '\\');
        push_char(out, 'n');
    } else if c == '\r' {
        push_char(out, '\\');
        push_char(out, 'r');
    } else if c == '\t' {
        push_char(out, '\\');
        push_char(out, 't');
    } else if (c as u32) < 32 {
        push_char(out, '\\');
        push_char(out, 'u');
        push_char(out, '0');
        push_char(out, '0');
        push_hex_digit(out, (c as u32) / 16);
        push_hex_digit(out, (c as u32) % 16);
    } else {
        push_char(out, c);
    }
}

proof fn lemma_escape_seq_snoc(s: Seq<char>, i: int)
    requires
        0 <= i < s.len(),
    ensures
        escape_seq(s.take(i + 1)) == escape_seq(s.take(i)) + escape_char(s[i]),
{
    let t = s.take(i + 1);
    assert(t.len() == i + 1);
    assert(t.drop_last() =~= s.take(i));
    assert(t.last() == s[i]);
}

/// Appends `s` as it appears between the quotes of a JSON string literal.
fn append_escaped(out: &mut String, s: &str)
    ensures
        final(out)@ == old(out)@ + escape_seq(s@),
{
    let n = s.unicode_len();
    let mut i: usize = 0;
    while i < n
        invariant
            i <= n,
            n == s@.len(),
            out@ == old(out)@ + escape_seq(s@.take(i as int)),
        decreases n - i,
    {
        let c = s.get_char(i);
        push_escaped_char(out, c);
        proof {
            lemma_escape_seq_snoc(s@, i as int);
        }
        i = i + 1;
    }
    proof {
        assert(s@.take(n as int) =~= s@);
    }
}

/// Appends a JSON string literal, quotes included, holding exactly `s`.
fn append_json_string(out: &mut String, s: &str)
    ensures
        final(out)@ == old(out)@ + json_string(s@),
{
    push_char(out, '"');
    append_escaped(out, s);
    push_char(out, '"');
    proof {
        assert(final(out)@ =~= old(out)@ + json_string(s@));
    }
}

/// One completion request, assembled per call and never mutated afterwards.
#[derive(Clone, Debug)]
pub struct CompletionRequest {
    /// Identifier of the model asked for the completion.
    pub model: String,
    /// Optional fixed conversational turn preceding the user's turn.
    pub system_prompt: Option<String>,
    /// The user's text, copied verbatim from the triggering event.
    pub user_content: String,
}

/// Mathematical model of a [`CompletionRequest`].
pub struct RequestView {
    pub model: Seq<char>,
    pub system_prompt: Option<Seq<char>>,
    pub user_content: Seq<char>,
}

impl View for CompletionRequest {
    type V = RequestView;

    open spec fn view(&self) -> RequestView {
        RequestView {
            model: self.model@,
            system_prompt: self.system_prompt.deep_view(),
            user_content: self.user_content@,
        }
    }
}

/// One conversational turn as it appears on the wire.
pub open spec fn message_obj(role: Seq<char>, content: Seq<char>) -> Seq<char> {
    "{\"role\":"@ + json_string(role) + ",\"content\":"@ + json_string(content) + "}"@
}

/// The JSON body POSTed to the completion endpoint: the model, then the
/// optional system turn under the `developer` role, then the user's turn.
pub open spec fn body_spec(r: RequestView) -> Seq<char> {
    "{\"model\":"@ + json_string(r.model) + ",\"messages\":["@
        + (match r.system_prompt {
            Some(p) => message_obj("developer"@, p) + ","@,
            None => Seq::<char>::empty(),
        }) + message_obj("user"@, r.user_content) + "]}"@
}

fn append_message(out: &mut String, role: &str, content: &str)
    ensures
        final(out)@ == old(out)@ + message_obj(role@, content@),
{
    out.append("{\"role\":");
    append_json_string(out, role);
    out.append(",\"content\":");
    append_json_string(out, content);
    out.append("}");
    proof {
        assert(final(out)@ =~= old(out)@ + message_obj(role@, content@));
    }
}

impl CompletionRequest {
    /// Assembles the request for one completion call: the override model if
    /// one was given, otherwise the configured default, together with the
    /// configured system prompt and the user's text.
    pub fn build(config: &BridgeConfig, user_content: &str, options: Option<LLMOptions<'_>>) -> (r: Self)
        ensures
            (match options {
                Some(o) => r.model@ == o.model@,
                None => r.model@ == config.default_model@,
            }),
            r.system_prompt.deep_view() == config.system_prompt.deep_view(),
            r.user_content@ == user_content@,
    {
        let model = match options {
            Some(o) => String::from_str(o.model),
            None => config.default_model.clone(),
        };
        let system_prompt = match &config.system_prompt {
            Some(p) => Some(p.clone()),
            None => None,
        };
        CompletionRequest { model, system_prompt, user_content: String::from_str(user_content) }
    }

    /// Serializes the request as the JSON body POSTed to the endpoint.
    pub fn to_json_body(&self) -> (r: String)
        ensures
            r@ == body_spec(self@),
    {
        let mut out = String::from_str("{\"model\":");
        append_json_string(&mut out, self.model.as_str());
        out.append(",\"messages\":[");
        match &self.system_prompt {
            Some(p) => {
                append_message(&mut out, "developer", p.as_str());
                out.append(",");
            },
            None => {},
        }
        append_message(&mut out, "user", self.user_content.as_str());
        out.append("]}");
        proof {
            assert(out@ =~= body_spec(self@));
        }
        out
    }
}

} // verus!
