//! Interactive-element geometry and labels for annotated screenshots.
//!
//! The drawing itself (decoding the PNG, painting boxes and digits)
//! happens outside; what lives here is the element record, its geometry,
//! and the short description a label shows.

use vstd::prelude::*;

use crate::text::chars_to_string;
use crate::wire::push_str_chars;
use vstd::string::StringSliceAdditionalSpecFns;

verus! {

broadcast use vstd::slice::group_slice_axioms;

/// An interactive element on the page.
#[derive(Debug)]
pub struct InteractiveElement {
    /// Element index (1-based).
    pub index: usize,
    /// Element tag name (e.g. `button`, `a`, `input`).
    pub tag: String,
    /// Element text content.
    pub text: String,
    /// Bounding box: (x, y, width, height).
    pub bounds: (u32, u32, u32, u32),
    /// Whether the element is clickable.
    pub clickable: bool,
    /// Element type attribute (for inputs).
    pub input_type: Option<String>,
    /// Element href (for links).
    pub href: Option<String>,
    /// Element role attribute.
    pub role: Option<String>,
}

/// The text a description shows: when its UTF-8 form is longer than 30
/// bytes, the characters of the first 27 bytes (the caller puts a
/// character boundary there) plus an ellipsis.
pub open spec fn spec_shown_text(text: Seq<char>) -> Seq<char> {
    if vstd::utf8::encode_utf8(text).len() > 30 {
        vstd::utf8::decode_utf8(vstd::utf8::encode_utf8(text).subrange(0, 27)) + "..."@
    } else {
        text
    }
}

/// The short description of an element: its text in quotes when it has
/// any, else its href, else its role in brackets, else the bare tag; an
/// input's type is appended.
pub open spec fn spec_description(e: &InteractiveElement) -> Seq<char> {
    let base = if e.text@.len() > 0 {
        e.tag@ + ": \""@ + spec_shown_text(e.text@) + "\""@
    } else if e.href is Some {
        e.tag@ + ": "@ + e.href->Some_0@
    } else if e.role is Some {
        e.tag@ + " ["@ + e.role->Some_0@ + "]"@
    } else {
        e.tag@
    };
    match e.input_type {
        Some(t) => base + " (type="@ + t@ + ")"@,
        None => base,
    }
}

impl InteractiveElement {
    /// The center point of the element.
    pub fn center(&self) -> (r: (u32, u32))
        requires
            self.bounds.0 + self.bounds.2 / 2 <= u32::MAX,
            self.bounds.1 + self.bounds.3 / 2 <= u32::MAX,
        ensures
            r.0 == self.bounds.0 + self.bounds.2 / 2,
            r.1 == self.bounds.1 + self.bounds.3 / 2,
    {
        let (x, y, w, h) = self.bounds;
        (x + w / 2, y + h / 2)
    }

    /// Whether the element's box contains a point (edges included).
    pub fn contains(&self, px: u32, py: u32) -> (r: bool)
        ensures
            r == (self.bounds.0 <= px <= self.bounds.0 + self.bounds.2 && self.bounds.1 <= py
                <= self.bounds.1 + self.bounds.3),
    {
        let (x, y, w, h) = self.bounds;
        px >= x && (px as u64) <= (x as u64) + (w as u64) && py >= y && (py as u64) <= (y as u64)
            + (h as u64)
    }

    /// A short description of the element. Truncation counts bytes; a
    /// text over 30 bytes must have a character boundary at byte 27,
    /// which the precondition demands.
    #[verifier::rlimit(100)]
    pub fn description(&self) -> (r: String)
        requires
            vstd::utf8::encode_utf8(self.text@).len() <= 30 || vstd::utf8::is_char_boundary(
                vstd::utf8::encode_utf8(self.text@),
                27,
            ),
        ensures
            r@ == spec_description(self),
    {
        let mut out: Vec<char> = Vec::new();
        let text: &str = self.text.as_str();
        let text_bytes: &[u8] = text.as_bytes();
        if !text.is_empty() {
            push_str_chars(self.tag.as_str(), &mut out);
            push_str_chars(": \"", &mut out);
            if text_bytes.len() > 30 {
                let (head, _rest) = text.split_at(27);
                proof {
                    assert(head.spec_bytes() == vstd::utf8::encode_utf8(self.text@).subrange(
                        0,
                        27,
                    ));
                    vstd::utf8::encode_utf8_decode_utf8(head@);
                    assert(head@ == vstd::utf8::decode_utf8(
                        vstd::utf8::encode_utf8(self.text@).subrange(0, 27),
                    ));
                }
                push_str_chars(head, &mut out);
                push_str_chars("...", &mut out);
                assert(head@ + "..."@ =~= spec_shown_text(self.text@));
            } else {
                push_str_chars(text, &mut out);
            }
            push_str_chars("\"", &mut out);
        } else {
            match &self.href {
                Some(h) => {
                    push_str_chars(self.tag.as_str(), &mut out);
                    push_str_chars(": ", &mut out);
                    push_str_chars(h.as_str(), &mut out);
                },
                None => {
                    match &self.role {
                        Some(role) => {
                            push_str_chars(self.tag.as_str(), &mut out);
                            push_str_chars(" [", &mut out);
                            push_str_chars(role.as_str(), &mut out);
                            push_str_chars("]", &mut out);
                        },
                        None => {
                            push_str_chars(self.tag.as_str(), &mut out);
                        },
                    }
                },
            }
        }
        match &self.input_type {
            Some(t) => {
                push_str_chars(" (type=", &mut out);
                push_str_chars(t.as_str(), &mut out);
                push_str_chars(")", &mut out);
            },
            None => {},
        }
        let r = chars_to_string(&out);
        proof {
            assert(r@ =~= spec_description(self));
        }
        r
    }
}

/// What can go wrong while annotating a screenshot.
#[derive(Debug)]
pub enum AnnotationError {
    /// The PNG data could not be decoded.
    ImageLoad(String),
    /// The annotated image could not be encoded.
    ImageEncode(String),
    /// The label font could not be loaded.
    FontLoad,
}

} // verus!
