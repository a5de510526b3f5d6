//! The one-shot HTTP upgrade that switches a raw stream into frame mode,
//! and the discovery of the debug endpoint in the browser's startup log.
//!
//! The request text, the acceptance check (a status line containing
//! "101"), and the `ws://` URL extraction are verified exactly; no
//! accept-key validation is performed, because both endpoints are trusted
//! local processes.

use vstd::prelude::*;

use crate::rng::random_key_bytes;
use crate::text::{chars_to_string, contains_sub, find_sub, spec_contains, sub_chars, to_char_vec};
use crate::wire::push_str_chars;

verus! {

/// Relies on base64's `STANDARD` engine: the standard alphabet with
/// padding, whose output depends on the input bytes alone, four output
/// characters for every started group of three input bytes.
pub uninterp spec fn b64_of(bytes: Seq<u8>) -> Seq<char>;

#[verifier::external_body]
fn base64_encode(bytes: &[u8]) -> (r: String)
    ensures
        r@ == b64_of(bytes@),
        r@.len() == ((bytes@.len() + 2) / 3) * 4,
{
    base64::Engine::encode(&base64::engine::general_purpose::STANDARD, bytes)
}

/// A fresh `Sec-WebSocket-Key`: sixteen random bytes, base64-encoded to
/// twenty-four characters.
pub fn handshake_key() -> (r: String)
    ensures
        r@.len() == 24,
        exists|b: Seq<u8>| b.len() == 16 && r@ == #[trigger] b64_of(b),
{
    let bytes = random_key_bytes();
    let r = base64_encode(&bytes);
    proof {
        assert(bytes@.len() == 16 && r@ == b64_of(bytes@));
    }
    r
}

/// The upgrade request for a path, a host, and a key.
pub open spec fn spec_handshake_request(
    path: Seq<char>,
    host_port: Seq<char>,
    key: Seq<char>,
) -> Seq<char> {
    "GET "@ + path + " HTTP/1.1\r\nHost: "@ + host_port
        + "\r\nUpgrade: websocket\r\nConnection: Upgrade\r\nSec-WebSocket-Key: "@ + key
        + "\r\nSec-WebSocket-Version: 13\r\n\r\n"@
}

/// Build the HTTP/1.1 upgrade request.
pub fn build_handshake_request(path: &str, host_port: &str, key: &str) -> (r: String)
    ensures
        r@ == spec_handshake_request(path@, host_port@, key@),
{
    let mut out: Vec<char> = Vec::new();
    push_str_chars("GET ", &mut out);
    push_str_chars(path, &mut out);
    push_str_chars(" HTTP/1.1\r\nHost: ", &mut out);
    push_str_chars(host_port, &mut out);
    push_str_chars("\r\nUpgrade: websocket\r\nConnection: Upgrade\r\nSec-WebSocket-Key: ", &mut out);
    push_str_chars(key, &mut out);
    push_str_chars("\r\nSec-WebSocket-Version: 13\r\n\r\n", &mut out);
    let r = chars_to_string(&out);
    proof {
        assert(r@ =~= spec_handshake_request(path@, host_port@, key@));
    }
    r
}

/// Whether the upgrade response accepts: its text contains "101". Any
/// other response is fatal.
pub fn handshake_accepted(response: &str) -> (r: bool)
    ensures
        r == spec_contains(response@, "101"@),
{
    contains_sub(response, "101")
}

/// `url` with one leading `ws://` scheme removed.
pub open spec fn spec_strip_scheme(url: Seq<char>) -> Seq<char> {
    if url.len() >= 5 && url.subrange(0, 5) == "ws://"@ {
        url.subrange(5, url.len() as int)
    } else {
        url
    }
}

/// Split a `ws://host:port/path` URL into the host:port part and the
/// path. Without a slash after the scheme the path is `/`; otherwise the
/// path keeps its leading slash.
pub fn split_ws_url(url: &str) -> (r: (String, String))
    ensures
        ({
            let rest = spec_strip_scheme(url@);
            ||| (r.0@ == rest && r.1@ == "/"@ && (forall|j: int|
                0 <= j < rest.len() ==> rest[j] != '/'))
            ||| (exists|i: int|
                {
                    &&& 0 <= i < rest.len()
                    &&& #[trigger] rest[i] == '/'
                    &&& (forall|j: int| 0 <= j < i ==> rest[j] != '/')
                    &&& r.0@ == rest.subrange(0, i)
                    &&& r.1@ == rest.subrange(i, rest.len() as int)
                })
        }),
{
    let stripped: &str = match find_sub(url, "ws://") {
        Some(0) => {
            proof {
                reveal_strlit("ws://");
            }
            let chars = to_char_vec(url);
            let rest = sub_chars(&chars, 5, chars.len());
            let s = chars_to_string(&rest);
            proof {
                assert(s@ =~= spec_strip_scheme(url@));
            }
            return split_host_path(s.as_str());
        },
        _ => url,
    };
    assert(spec_strip_scheme(url@) == url@) by {
        if url@.len() >= 5 && url@.subrange(0, 5) == "ws://"@ {
            assert(url@.subrange(0, 0 + "ws://"@.len() as int) == "ws://"@) by {
                reveal_strlit("ws://");
            }
        }
    }
    split_host_path(stripped)
}

/// Split at the first slash: everything before it, and from it to the
/// end; `/` when there is none.
fn split_host_path(rest: &str) -> (r: (String, String))
    ensures
        ({
            ||| (r.0@ == rest@ && r.1@ == "/"@ && (forall|j: int|
                0 <= j < rest@.len() ==> rest@[j] != '/'))
            ||| (exists|i: int|
                {
                    &&& 0 <= i < rest@.len()
                    &&& #[trigger] rest@[i] == '/'
                    &&& (forall|j: int| 0 <= j < i ==> rest@[j] != '/')
                    &&& r.0@ == rest@.subrange(0, i)
                    &&& r.1@ == rest@.subrange(i, rest@.len() as int)
                })
        }),
{
    let chars = to_char_vec(rest);
    let n = chars.len();
    let mut i: usize = 0;
    while i < n
        invariant
            chars@ == rest@,
            n == chars@.len(),
            i <= n,
            forall|j: int| 0 <= j < i ==> rest@[j] != '/',
        decreases n - i,
    {
        if chars[i] == '/' {
            let host = sub_chars(&chars, 0, i);
            let path = sub_chars(&chars, i, n);
            return (chars_to_string(&host), chars_to_string(&path));
        }
        i += 1;
    }
    let host = chars_to_string(&chars);
    let mut slash: Vec<char> = Vec::new();
    slash.push('/');
    let path = chars_to_string(&slash);
    proof {
        reveal_strlit("/");
        assert(path@ =~= "/"@);
    }
    (host, path)
}

/// An ASCII whitespace character, as trimmed from a log line's tail.
pub open spec fn spec_is_space(c: char) -> bool {
    c == ' ' || c == '\t' || c == '\r' || c == '\n'
}

/// Whether a character is ASCII whitespace.
fn is_space_char(c: char) -> (r: bool)
    ensures
        r == spec_is_space(c),
{
    c == ' ' || c == '\t' || c == '\r' || c == '\n'
}

/// `s` with its trailing whitespace removed.
pub open spec fn spec_trim_end(s: Seq<char>) -> Seq<char>
    decreases s.len(),
{
    if s.len() > 0 && spec_is_space(s.last()) {
        spec_trim_end(s.drop_last())
    } else {
        s
    }
}

/// Scan one line of the browser's startup log for the debug endpoint:
/// on the announcement line, the URL runs from the first `ws://` to the
/// end of the line, trailing whitespace trimmed.
pub fn extract_ws_url(line: &str) -> (r: Option<String>)
    ensures
        match r {
            Some(url) => {
                &&& spec_contains(line@, "DevTools listening on"@)
                &&& exists|i: int|
                    {
                        &&& 0 <= i
                        &&& i + "ws://"@.len() <= line@.len()
                        &&& #[trigger] line@.subrange(i, i + "ws://"@.len()) == "ws://"@
                        &&& (forall|k: int|
                            0 <= k < i ==> #[trigger] line@.subrange(k, k + "ws://"@.len())
                                != "ws://"@)
                        &&& url@ == spec_trim_end(line@.subrange(i, line@.len() as int))
                    }
            },
            None => !spec_contains(line@, "DevTools listening on"@) || !spec_contains(
                line@,
                "ws://"@,
            ),
        },
{
    if !contains_sub(line, "DevTools listening on") {
        return None;
    }
    match find_sub(line, "ws://") {
        Some(start) => {
            let chars = to_char_vec(line);
            let mut end: usize = chars.len();
            while end > start && is_space_char(chars[end - 1])
                invariant
                    chars@ == line@,
                    start <= end <= chars@.len(),
                    spec_trim_end(line@.subrange(start as int, line@.len() as int))
                        == spec_trim_end(line@.subrange(start as int, end as int)),
                decreases end,
            {
                assert(line@.subrange(start as int, end - 1) =~= line@.subrange(
                    start as int,
                    end as int,
                ).drop_last());
                end = end - 1;
            }
            let ghost tail = line@.subrange(start as int, end as int);
            proof {
                if end > start {
                    assert(!spec_is_space(tail.last()));
                }
                assert(spec_trim_end(tail) == tail);
            }
            let url_chars = sub_chars(&chars, start, end);
            Some(chars_to_string(&url_chars))
        },
        None => None,
    }
}

} // verus!
