//! Page-level helpers that are pure rules: JavaScript string escaping,
//! the try-operation outcome rule, response-body decoding, and the plain
//! records the page layer reports.

use vstd::prelude::*;

use crate::error::Error;
use crate::text::{chars_to_string, to_char_vec};
use vstd::string::StringSliceAdditionalSpecFns;

verus! {

/// How one character reads inside a single-quoted JavaScript string
/// literal, outside the `${` pair rule: backslashes, quotes of every
/// kind, newlines, and carriage returns are escaped.
pub open spec fn spec_js_escape_char(c: char) -> Seq<char> {
    if c == '\\' {
        seq!['\\', '\\']
    } else if c == '\'' {
        seq!['\\', '\'']
    } else if c == '"' {
        seq!['\\', '"']
    } else if c == '`' {
        seq!['\\', '`']
    } else if c == '\n' {
        seq!['\\', 'n']
    } else if c == '\r' {
        seq!['\\', 'r']
    } else {
        seq![c]
    }
}

/// A whole string escaped for a JavaScript string literal, scanning
/// left to right: the two-character pair `${` becomes `\${`, every
/// other character is escaped on its own.
pub open spec fn spec_js_escape(s: Seq<char>) -> Seq<char>
    decreases s.len(),
{
    if s.len() == 0 {
        Seq::empty()
    } else if s.len() >= 2 && s[0] == '$' && s[1] == '{' {
        seq!['\\', '$', '{'] + spec_js_escape(s.skip(2))
    } else {
        spec_js_escape_char(s[0]) + spec_js_escape(s.skip(1))
    }
}

/// Splitting the scan: escaping a string is escaping its head and then
/// the rest, as long as the split does not cut a `${` pair. A position
/// holding `$` is always where the scan stands (the middle of a pair is
/// always its `{`), so this is the only bad split.
proof fn lemma_js_escape_append(s: Seq<char>, i: int)
    requires
        0 <= i <= s.len(),
        !(0 < i < s.len() && s[i - 1] == '$' && s[i] == '{'),
    ensures
        spec_js_escape(s) == spec_js_escape(s.subrange(0, i)) + spec_js_escape(
            s.subrange(i, s.len() as int),
        ),
    decreases i,
{
    if i == 0 {
        assert(s.subrange(0, 0) =~= Seq::<char>::empty());
        assert(s.subrange(0, s.len() as int) =~= s);
    } else {
        lemma_js_escape_append_step(s, i);
    }
}

/// One step of the split lemma: peel the first character (or pair) off
/// both sides.
proof fn lemma_js_escape_append_step(s: Seq<char>, i: int)
    requires
        0 < i <= s.len(),
        !(0 < i < s.len() && s[i - 1] == '$' && s[i] == '{'),
    ensures
        spec_js_escape(s) == spec_js_escape(s.subrange(0, i)) + spec_js_escape(
            s.subrange(i, s.len() as int),
        ),
    decreases s.len(),
{
    let head = s.subrange(0, i);
    let tail = s.subrange(i, s.len() as int);
    if s.len() >= 2 && s[0] == '$' && s[1] == '{' {
        // The string opens with a pair; it lies inside the head, since a
        // split at 1 would fall inside it and a split at 2 is the pair.
        if i == 1 {
            assert(false);
        } else if i == 2 {
            assert(head =~= s.subrange(0, 2));
            assert(spec_js_escape(head) == seq!['\\', '$', '{'] + spec_js_escape(
                head.skip(2),
            ));
            assert(head.skip(2) =~= Seq::<char>::empty());
            assert(s.skip(2) =~= tail);
        } else {
            let s2 = s.skip(2);
            assert(s2.subrange(0, i - 2) =~= head.skip(2));
            assert(s2.subrange(i - 2, s2.len() as int) =~= tail);
            lemma_js_escape_append_step(s2, i - 2);
            assert(spec_js_escape(head) == seq!['\\', '$', '{'] + spec_js_escape(head.skip(2)))
                by {
                assert(head.len() >= 2 && head[0] == '$' && head[1] == '{');
            }
        }
    } else {
        // The string opens with a single character.
        let s1 = s.skip(1);
        if i == 1 {
            assert(head =~= seq![s[0]]);
            assert(head.len() == 1);
            assert(spec_js_escape(head) == spec_js_escape_char(s[0]) + spec_js_escape(
                head.skip(1),
            ));
            assert(head.skip(1) =~= Seq::<char>::empty());
            assert(s1 =~= tail);
        } else {
            assert(s1.subrange(0, i - 1) =~= head.skip(1));
            assert(s1.subrange(i - 1, s1.len() as int) =~= tail);
            lemma_js_escape_append_step(s1, i - 1);
            assert(spec_js_escape(head) == spec_js_escape_char(head[0]) + spec_js_escape(
                head.skip(1),
            )) by {
                assert(!(head.len() >= 2 && head[0] == '$' && head[1] == '{'));
            }
        }
    }
}

/// Escape a string for safe use in JavaScript string literals.
pub fn escape_js_string(s: &str) -> (r: String)
    ensures
        r@ == spec_js_escape(s@),
{
    let chars = to_char_vec(s);
    let n = chars.len();
    let mut out: Vec<char> = Vec::new();
    let mut i: usize = 0;
    while i < n
        invariant
            chars@ == s@,
            n == chars@.len(),
            i <= n,
            out@ == spec_js_escape(s@.subrange(0, i as int)),
            !(0 < i < n && s@[i - 1] == '$' && s@[i as int] == '{'),
        decreases n - i,
    {
        let c = chars[i];
        let ghost before = i as int;
        if c == '$' && i + 1 < n && chars[i + 1] == '{' {
            out.push('\\');
            out.push('$');
            out.push('{');
            i += 2;
        } else {
            if c == '\\' {
                out.push('\\');
                out.push('\\');
            } else if c == '\'' {
                out.push('\\');
                out.push('\'');
            } else if c == '"' {
                out.push('\\');
                out.push('"');
            } else if c == '`' {
                out.push('\\');
                out.push('`');
            } else if c == '\n' {
                out.push('\\');
                out.push('n');
            } else if c == '\r' {
                out.push('\\');
                out.push('r');
            } else {
                out.push(c);
            }
            i += 1;
        }
        proof {
            let pre = s@.subrange(0, before);
            let cur = s@.subrange(0, i as int);
            lemma_js_escape_append(cur, before);
            assert(cur.subrange(0, before) =~= pre);
            if i as int == before + 2 {
                assert(cur.subrange(before, cur.len() as int) =~= seq![s@[before], s@[before + 1]]);
                assert(spec_js_escape(seq![s@[before], s@[before + 1]]) == seq!['\\', '$', '{']
                    + spec_js_escape(seq![s@[before], s@[before + 1]].skip(2)));
                assert(seq![s@[before], s@[before + 1]].skip(2) =~= Seq::<char>::empty());
            } else {
                assert(cur.subrange(before, cur.len() as int) =~= seq![s@[before]]);
                let single = seq![s@[before]];
                assert(!(single.len() >= 2));
                assert(spec_js_escape(single) == spec_js_escape_char(s@[before]) + spec_js_escape(
                    single.skip(1),
                ));
                assert(single.skip(1) =~= Seq::<char>::empty());
            }
        }
    }
    assert(s@.subrange(0, n as int) =~= s@);
    chars_to_string(&out)
}

/// The outcome rule of a try-operation: success is true, a protocol
/// error or a missing element is false, anything else stays an error.
pub fn handle_try_result(result: Result<(), Error>) -> (r: Result<bool, Error>)
    ensures
        result is Ok ==> r == Result::<bool, Error>::Ok(true),
        result matches Err(e) ==> ((e is Cdp || e is ElementNotFound) ==> r == Result::<
            bool,
            Error,
        >::Ok(false)) && (!(e is Cdp || e is ElementNotFound) ==> (r matches Err(e2) && e2 == e)),
{
    match result {
        Ok(()) => Ok(true),
        Err(Error::Cdp { method, code, message }) => Ok(false),
        Err(Error::ElementNotFound(s)) => Ok(false),
        Err(e) => Err(e),
    }
}

/// Text matching strategy for find-by-text operations.
#[derive(Debug, Clone, Copy, PartialEq, Eq, Structural)]
pub enum TextMatch {
    /// Exact match (trimmed, case-sensitive).
    Exact,
    /// Contains the text (case-insensitive), the default.
    Contains,
    /// Starts with the text (case-insensitive).
    StartsWith,
    /// Ends with the text (case-insensitive).
    EndsWith,
}

impl Default for TextMatch {
    /// Contains is the default strategy.
    fn default() -> (r: TextMatch)
        ensures
            r is Contains,
    {
        TextMatch::Contains
    }
}

/// A response body: either text or binary.
#[derive(Debug)]
pub enum ResponseBody {
    /// A textual body.
    Text(String),
    /// A binary body.
    Binary(Vec<u8>),
}

impl ResponseBody {
    /// The body as text; `None` for a binary body.
    pub fn as_text(&self) -> (r: Option<&str>)
        ensures
            self matches ResponseBody::Text(s) ==> (r matches Some(t) && t@ == s@),
            self is Binary ==> r is None,
    {
        match self {
            ResponseBody::Text(s) => Some(s.as_str()),
            ResponseBody::Binary(_) => None,
        }
    }

    /// The body as raw bytes; text is handed out as its UTF-8 bytes.
    pub fn as_bytes(&self) -> (r: &[u8])
        ensures
            self matches ResponseBody::Text(s) ==> r@ == vstd::utf8::encode_utf8(s@),
            self matches ResponseBody::Binary(b) ==> r@ == b@,
    {
        match self {
            ResponseBody::Text(s) => s.as_str().as_bytes(),
            ResponseBody::Binary(b) => b.as_slice(),
        }
    }
}

/// The bytes a valid standard-base64 text decodes to; a function of the
/// text alone.
pub uninterp spec fn b64_decode_of(s: Seq<char>) -> Seq<u8>;

/// Whether a text is valid padded standard base64; a function of the
/// text alone.
pub uninterp spec fn b64_valid(s: Seq<char>) -> bool;

/// Relies on base64's `STANDARD` engine decode: `Ok` exactly when the
/// input is valid padded standard base64, and the bytes depend on the
/// input alone; the error is handed back as its message text.
#[verifier::external_body]
fn base64_decode(s: &str) -> (r: Result<Vec<u8>, String>)
    ensures
        r is Ok <==> b64_valid(s@),
        r matches Ok(v) ==> v@ == b64_decode_of(s@),
{
    match base64::Engine::decode(&base64::engine::general_purpose::STANDARD, s) {
        Ok(v) => Ok(v),
        Err(e) => Err(e.to_string()),
    }
}

/// Turn a fetched body into a `ResponseBody`: base64-marked bodies are
/// decoded to binary, anything else stays text. A body marked base64
/// decodes successfully exactly when it is valid base64; otherwise it
/// is a decode error.
pub fn response_body_from_parts(body: String, base64_encoded: bool) -> (r: Result<
    ResponseBody,
    Error,
>)
    ensures
        !base64_encoded ==> (r matches Ok(b) && b matches ResponseBody::Text(t) && t == body),
        base64_encoded ==> (r is Ok <==> b64_valid(body@)),
        base64_encoded ==> (r matches Ok(b) ==> b matches ResponseBody::Binary(bytes) && bytes@
            == b64_decode_of(body@)),
        base64_encoded ==> (r matches Err(e) ==> e is Decode),
{
    if base64_encoded {
        match base64_decode(body.as_str()) {
            Ok(bytes) => Ok(ResponseBody::Binary(bytes)),
            Err(msg) => Err(Error::Decode(msg)),
        }
    } else {
        Ok(ResponseBody::Text(body))
    }
}

/// Information about a frame.
#[derive(Debug, Clone)]
pub struct FrameInfo {
    /// Frame id.
    pub id: String,
    /// Frame URL.
    pub url: String,
    /// Frame name, if any.
    pub name: Option<String>,
}

/// Debug information about page state.
#[derive(Debug, Clone)]
pub struct PageState {
    /// Current URL.
    pub url: String,
    /// Page title.
    pub title: String,
    /// Number of input elements.
    pub input_count: u32,
    /// Number of buttons.
    pub button_count: u32,
    /// Number of links.
    pub link_count: u32,
    /// Number of forms.
    pub form_count: u32,
}

} // verus!
