//! The error taxonomy.
//!
//! Transport errors are fatal to the connection; protocol (remote
//! `error` envelope) errors go only to the one awaiting caller;
//! deserialization errors are local and non-fatal; policy short-circuits
//! are not errors at all. Every protocol error carries the originating
//! method name.

use vstd::prelude::*;

use crate::text::{contains_sub, spec_contains};

verus! {

/// Everything that can go wrong in this library.
#[derive(Debug)]
pub enum Error {
    /// Failed to launch the browser.
    Launch(String),
    /// Transport or I/O failure: fatal to the connection. `source`
    /// carries the text of the underlying I/O error, when there is one.
    Transport { context: String, source: Option<String> },
    /// A well-formed remote protocol error, for one command.
    Cdp { method: String, code: i64, message: String },
    /// A protocol error without method context.
    CdpSimple(String),
    /// Navigation failed.
    Navigation(String),
    /// No element matched in the DOM.
    ElementNotFound(String),
    /// The element exists in the DOM but is not rendered.
    ElementNotVisible { selector: String },
    /// The element exists but cannot be interacted with.
    ElementNotInteractive { selector: String, reason: String },
    /// No frame matched.
    FrameNotFound(String),
    /// A deadline passed.
    Timeout(String),
    /// A local shape mismatch while serializing or deserializing.
    Serialization(String),
    /// A payload failed to decode (base64 and the like).
    Decode(String),
    /// An I/O failure outside the transport.
    Io(String),
    /// No Chrome binary was found.
    ChromeNotFound,
    /// Binary patching failed.
    Patching { operation: String, message: String },
    /// A network-capture failure.
    Network(String),
    /// Every retry failed.
    RetryExhausted { attempts: u32, last_error: String },
}

/// A box-model failure: the element exists but has no render box.
pub open spec fn spec_is_not_visible(e: &Error) -> bool {
    match e {
        Error::Cdp { message, .. } => spec_contains(message@, "box model"@),
        Error::ElementNotVisible { .. } => true,
        _ => false,
    }
}

impl Error {
    /// A transport error with context and no underlying I/O error.
    pub fn transport(context: &str) -> (e: Error)
        ensures
            e matches Error::Transport { context: c, source } && c@ == context@ && source
                is None,
    {
        Error::Transport { context: context.to_owned(), source: None }
    }

    /// A transport error carrying the text of an underlying I/O error.
    pub fn transport_io(context: &str, source: &str) -> (e: Error)
        ensures
            e matches Error::Transport { context: c, source: s } && c@ == context@ && (s
                matches Some(t) && t@ == source@),
    {
        Error::Transport { context: context.to_owned(), source: Some(source.to_owned()) }
    }

    /// A protocol error with its full context.
    pub fn cdp(method: &str, code: i64, message: &str) -> (e: Error)
        ensures
            e matches Error::Cdp { method: m, code: c, message: s } && m@ == method@ && c == code
                && s@ == message@,
    {
        Error::Cdp { method: method.to_owned(), code, message: message.to_owned() }
    }

    /// A patching error.
    pub fn patching(operation: &str, message: &str) -> (e: Error)
        ensures
            e matches Error::Patching { operation: o, message: m } && o@ == operation@ && m@
                == message@,
    {
        Error::Patching { operation: operation.to_owned(), message: message.to_owned() }
    }

    /// An element-not-visible error.
    pub fn not_visible(selector: &str) -> (e: Error)
        ensures
            e matches Error::ElementNotVisible { selector: s } && s@ == selector@,
    {
        Error::ElementNotVisible { selector: selector.to_owned() }
    }

    /// An element-not-interactive error.
    pub fn not_interactive(selector: &str, reason: &str) -> (e: Error)
        ensures
            e matches Error::ElementNotInteractive { selector: s, reason: r } && s@ == selector@
                && r@ == reason@,
    {
        Error::ElementNotInteractive {
            selector: selector.to_owned(),
            reason: reason.to_owned(),
        }
    }

    /// Whether this is a box-model failure (the element is not visible).
    pub fn is_not_visible(&self) -> (r: bool)
        ensures
            r == spec_is_not_visible(self),
    {
        match self {
            Error::Cdp { message, .. } => contains_sub(message.as_str(), "box model"),
            Error::ElementNotVisible { .. } => true,
            _ => false,
        }
    }

    /// Turn a protocol box-model error into the friendlier
    /// element-not-visible error; anything else passes through unchanged.
    pub fn clarify(self, selector: &str) -> (e: Error)
        ensures
            (self matches Error::Cdp { message, .. } && spec_contains(message@, "box model"@))
                ==> (e matches Error::ElementNotVisible { selector: s } && s@ == selector@),
            !(self matches Error::Cdp { message, .. } && spec_contains(message@, "box model"@))
                ==> e == self,
    {
        let is_box_model = match &self {
            Error::Cdp { message, .. } => contains_sub(message.as_str(), "box model"),
            _ => false,
        };
        if is_box_model {
            Error::not_visible(selector)
        } else {
            self
        }
    }
}

} // verus!
