//! The typed command surface: the request and result records for the
//! protocol methods this client uses, with the wire text of the most
//! common requests built and specified exactly.

use std::collections::HashMap;
use vstd::prelude::*;

use crate::text::chars_to_string;
use crate::wire::{push_bool_text, push_dec_digits, push_dec_i32, push_json_escaped, push_str_chars, spec_bool_text, spec_dec_digits, spec_dec_i32, spec_json_escape};

verus! {

/// Create a new browser target (tab)
#[derive(Debug, Clone)]
pub struct TargetCreateTarget {
    pub url: String,
    pub width: Option<u32>,
    pub height: Option<u32>,
    pub browser_context_id: Option<String>,
    pub new_window: Option<bool>,
    pub background: Option<bool>,
}

#[derive(Debug, Clone)]
pub struct TargetCreateTargetResult {
    pub target_id: String,
}

/// Close a target
#[derive(Debug, Clone)]
pub struct TargetCloseTarget {
    pub target_id: String,
}

#[derive(Debug, Clone)]
pub struct TargetCloseTargetResult {
    pub success: bool,
}

/// Attach to a target for debugging
#[derive(Debug, Clone)]
pub struct TargetAttachToTarget {
    pub target_id: String,
    pub flatten: Option<bool>,
}

#[derive(Debug, Clone)]
pub struct TargetAttachToTargetResult {
    pub session_id: String,
}

/// Get list of available targets
#[derive(Debug, Clone)]
pub struct TargetGetTargets {}

#[derive(Debug, Clone)]
pub struct TargetGetTargetsResult {
    pub target_infos: Vec<TargetInfo>,
}

#[derive(Debug, Clone)]
pub struct TargetInfo {
    pub target_id: String,
    pub kind: String,
    pub title: String,
    pub url: String,
    pub attached: bool,
    pub opener_id: Option<String>,
    pub browser_context_id: Option<String>,
}

/// Set discover targets to receive target events
#[derive(Debug, Clone)]
pub struct TargetSetDiscoverTargets {
    pub discover: bool,
}

/// Navigate to URL
#[derive(Debug, Clone)]
pub struct PageNavigate {
    pub url: String,
    pub referrer: Option<String>,
    pub transition_type: Option<String>,
    pub frame_id: Option<String>,
}

#[derive(Debug, Clone)]
pub struct PageNavigateResult {
    pub frame_id: String,
    pub loader_id: Option<String>,
    pub error_text: Option<String>,
}

/// Enable page events
#[derive(Debug, Clone)]
pub struct PageEnable {}

/// Reload the page
#[derive(Debug, Clone)]
pub struct PageReload {
    pub ignore_cache: Option<bool>,
    pub script_to_evaluate_on_load: Option<String>,
}

/// Go back in history
#[derive(Debug, Clone)]
pub struct PageGoBack {}

/// Go forward in history
#[derive(Debug, Clone)]
pub struct PageGoForward {}

/// Add script to evaluate on new document
#[derive(Debug, Clone)]
pub struct PageAddScriptToEvaluateOnNewDocument {
    pub source: String,
    pub world_name: Option<String>,
    pub include_command_line_api: Option<bool>,
}

#[derive(Debug, Clone)]
pub struct PageAddScriptToEvaluateOnNewDocumentResult {
    pub identifier: String,
}

/// Bypass Content Security Policy
#[derive(Debug, Clone)]
pub struct PageSetBypassCSP {
    pub enabled: bool,
}

#[derive(Debug, Clone)]
pub struct PageCaptureScreenshotResult {
    pub data: String, // base64 encoded
}

/// Get frame tree
#[derive(Debug, Clone)]
pub struct PageGetFrameTree {}

#[derive(Debug)]
pub struct PageGetFrameTreeResult {
    pub frame_tree: FrameTree,
}

#[derive(Debug)]
pub struct FrameTree {
    pub frame: Frame,
    pub child_frames: Vec<FrameTree>,
}

#[derive(Debug, Clone)]
pub struct Frame {
    pub id: String,
    pub parent_id: Option<String>,
    pub loader_id: Option<String>,
    pub name: Option<String>,
    pub url: String,
    pub security_origin: Option<String>,
    pub mime_type: Option<String>,
}

#[derive(Debug, Clone, Copy)]
pub enum MouseEventType {
    MousePressed,
    MouseReleased,
    MouseMoved,
    MouseWheel,
}

#[derive(Debug, Clone, Copy)]
pub enum MouseButton {
    NoButton,
    Left,
    Middle,
    Right,
    Back,
    Forward,
}

#[derive(Debug, Clone, Copy)]
pub enum KeyEventType {
    KeyDown,
    KeyUp,
    RawKeyDown,
    Char,
}

/// Insert text at current cursor position
#[derive(Debug, Clone)]
pub struct InputInsertText {
    pub text: String,
}

/// Get cookies
#[derive(Debug, Clone)]
pub struct NetworkGetCookies {
    pub urls: Option<Vec<String>>,
}

#[derive(Debug, Clone)]
pub struct NetworkSetCookieResult {
    pub success: bool,
}

/// Delete cookies
#[derive(Debug, Clone)]
pub struct NetworkDeleteCookies {
    pub name: String,
    pub url: Option<String>,
    pub domain: Option<String>,
    pub path: Option<String>,
}

/// Enable network events
#[derive(Debug, Clone)]
pub struct NetworkEnable {
    pub max_total_buffer_size: Option<i64>,
    pub max_resource_buffer_size: Option<i64>,
    pub max_post_data_size: Option<i64>,
}

/// Disable network events
#[derive(Debug, Clone)]
pub struct NetworkDisable {}

/// Get response body
#[derive(Debug, Clone)]
pub struct NetworkGetResponseBody {
    pub request_id: String,
}

#[derive(Debug, Clone)]
pub struct NetworkGetResponseBodyResult {
    pub body: String,
    pub base64_encoded: bool,
}

/// HTTP request info
#[derive(Debug, Clone)]
pub struct NetworkRequest {
    pub url: String,
    pub url_fragment: Option<String>,
    pub method: String,
    pub headers: HashMap<String, String>,
    pub post_data: Option<String>,
    pub has_post_data: Option<bool>,
    pub mixed_content_type: Option<String>,
    pub initial_priority: Option<String>,
    pub referrer_policy: Option<String>,
}

/// Get the document root node
#[derive(Debug, Clone)]
pub struct DOMGetDocument {
    pub depth: Option<i32>,
    pub pierce: Option<bool>,
}

#[derive(Debug)]
pub struct DOMGetDocumentResult {
    pub root: DOMNode,
}

#[derive(Debug)]
pub struct DOMNode {
    pub node_id: i32,
    pub parent_id: Option<i32>,
    pub backend_node_id: i32,
    pub node_type: i32,
    pub node_name: String,
    pub local_name: String,
    pub node_value: String,
    pub child_node_count: Option<i32>,
    pub children: Option<Vec<DOMNode>>,
    pub attributes: Option<Vec<String>>,
    pub document_url: Option<String>,
    pub base_url: Option<String>,
    pub frame_id: Option<String>,
    pub content_document: Option<Box<DOMNode>>,
}

/// Query selector
#[derive(Debug, Clone)]
pub struct DOMQuerySelector {
    pub node_id: i32,
    pub selector: String,
}

#[derive(Debug, Clone)]
pub struct DOMQuerySelectorResult {
    pub node_id: i32,
}

/// Query selector all
#[derive(Debug, Clone)]
pub struct DOMQuerySelectorAll {
    pub node_id: i32,
    pub selector: String,
}

#[derive(Debug, Clone)]
pub struct DOMQuerySelectorAllResult {
    pub node_ids: Vec<i32>,
}

/// Get box model for element (to get click coordinates)
#[derive(Debug, Clone)]
pub struct DOMGetBoxModel {
    pub node_id: Option<i32>,
    pub backend_node_id: Option<i32>,
    pub object_id: Option<String>,
}

/// Describe a node
#[derive(Debug, Clone)]
pub struct DOMDescribeNode {
    pub node_id: Option<i32>,
    pub backend_node_id: Option<i32>,
    pub object_id: Option<String>,
    pub depth: Option<i32>,
    pub pierce: Option<bool>,
}

#[derive(Debug)]
pub struct DOMDescribeNodeResult {
    pub node: DOMNode,
}

/// Get outer HTML
#[derive(Debug, Clone)]
pub struct DOMGetOuterHTML {
    pub node_id: Option<i32>,
    pub backend_node_id: Option<i32>,
    pub object_id: Option<String>,
}

#[derive(Debug, Clone)]
pub struct DOMGetOuterHTMLResult {
    pub outer_html: String,
}

/// Focus an element
#[derive(Debug, Clone)]
pub struct DOMFocus {
    pub node_id: Option<i32>,
    pub backend_node_id: Option<i32>,
    pub object_id: Option<String>,
}

#[derive(Debug, Clone)]
pub struct ObjectPreview {
    pub kind: String,
    pub subtype: Option<String>,
    pub description: Option<String>,
    pub overflow: bool,
    pub properties: Vec<PropertyPreview>,
}

#[derive(Debug, Clone)]
pub struct PropertyPreview {
    pub name: String,
    pub kind: String,
    pub value: Option<String>,
    pub subtype: Option<String>,
}

/// Get browser version info
#[derive(Debug, Clone)]
pub struct BrowserGetVersion {}

#[derive(Debug, Clone)]
pub struct BrowserGetVersionResult {
    pub protocol_version: String,
    pub product: String,
    pub revision: String,
    pub user_agent: String,
    pub js_version: String,
}

/// Close the browser
#[derive(Debug, Clone)]
pub struct BrowserClose {}

/// Page frame navigated event
#[derive(Debug, Clone)]
pub struct PageFrameNavigatedEvent {
    pub frame: Frame,
    pub kind: Option<String>,
}

/// Target attached to target event
#[derive(Debug, Clone)]
pub struct TargetAttachedToTargetEvent {
    pub session_id: String,
    pub target_info: TargetInfo,
    pub waiting_for_debugger: bool,
}

/// Target info changed event
#[derive(Debug, Clone)]
pub struct TargetTargetInfoChangedEvent {
    pub target_info: TargetInfo,
}

/// Target destroyed event
#[derive(Debug, Clone)]
pub struct TargetTargetDestroyedEvent {
    pub target_id: String,
}

#[derive(Debug, Clone)]
pub struct RemoteObject {
    pub kind: String,
    pub subtype: Option<String>,
    pub class_name: Option<String>,
    pub value: Option<serde_json::Value>,
    pub unserializable_value: Option<String>,
    pub description: Option<String>,
    pub object_id: Option<String>,
    pub preview: Option<ObjectPreview>,
}

#[derive(Debug, Clone)]
pub struct RuntimeEvaluateResult {
    pub result: RemoteObject,
    pub exception_details: Option<ExceptionDetails>,
}

#[derive(Debug, Clone)]
pub struct ExceptionDetails {
    pub exception_id: i32,
    pub text: String,
    pub line_number: i32,
    pub column_number: i32,
    pub script_id: Option<String>,
    pub url: Option<String>,
    pub exception: Option<RemoteObject>,
    pub execution_context_id: Option<i32>,
}


/// The params text of `Target.createTarget`.
pub open spec fn spec_target_create_target_params(p: &TargetCreateTarget) -> Seq<char> {
    "{\"url\":\""@ + spec_json_escape(p.url@) + "\""@ + (match p.width {
        Some(w) => ",\"width\":"@ + spec_dec_digits(w as u64),
        None => Seq::empty(),
    }) + (match p.height {
        Some(h) => ",\"height\":"@ + spec_dec_digits(h as u64),
        None => Seq::empty(),
    }) + (match p.browser_context_id {
        Some(s) => ",\"browserContextId\":\""@ + spec_json_escape(s@) + "\""@,
        None => Seq::empty(),
    }) + (match p.new_window {
        Some(b) => ",\"newWindow\":"@ + spec_bool_text(b),
        None => Seq::empty(),
    }) + (match p.background {
        Some(b) => ",\"background\":"@ + spec_bool_text(b),
        None => Seq::empty(),
    }) + "}"@
}

impl TargetCreateTarget {
    /// The request's params object, field-exact.
    #[verifier::rlimit(60)]
    pub fn params_json(&self) -> (r: String)
        ensures
            r@ == spec_target_create_target_params(self),
    {
        let mut out: Vec<char> = Vec::new();
        push_str_chars("{\"url\":\"", &mut out);
        push_json_escaped(self.url.as_str(), &mut out);
        push_str_chars("\"", &mut out);
        match self.width {
            Some(w) => {
                push_str_chars(",\"width\":", &mut out);
                push_dec_digits(w as u64, &mut out);
            },
            None => {},
        }
        match self.height {
            Some(h) => {
                push_str_chars(",\"height\":", &mut out);
                push_dec_digits(h as u64, &mut out);
            },
            None => {},
        }
        match &self.browser_context_id {
            Some(s) => {
                push_str_chars(",\"browserContextId\":\"", &mut out);
                push_json_escaped(s.as_str(), &mut out);
                push_str_chars("\"", &mut out);
            },
            None => {},
        }
        match self.new_window {
            Some(b) => {
                push_str_chars(",\"newWindow\":", &mut out);
                push_bool_text(b, &mut out);
            },
            None => {},
        }
        match self.background {
            Some(b) => {
                push_str_chars(",\"background\":", &mut out);
                push_bool_text(b, &mut out);
            },
            None => {},
        }
        push_str_chars("}", &mut out);
        let r = chars_to_string(&out);
        proof {
            assert(r@ =~= spec_target_create_target_params(self));
        }
        r
    }
}

/// The params text of `Target.closeTarget`.
pub open spec fn spec_target_close_target_params(p: &TargetCloseTarget) -> Seq<char> {
    "{\"targetId\":\""@ + spec_json_escape(p.target_id@) + "\"}"@
}

impl TargetCloseTarget {
    /// The request's params object, field-exact.
    pub fn params_json(&self) -> (r: String)
        ensures
            r@ == spec_target_close_target_params(self),
    {
        let mut out: Vec<char> = Vec::new();
        push_str_chars("{\"targetId\":\"", &mut out);
        push_json_escaped(self.target_id.as_str(), &mut out);
        push_str_chars("\"}", &mut out);
        let r = chars_to_string(&out);
        proof {
            assert(r@ =~= spec_target_close_target_params(self));
        }
        r
    }
}

/// The params text of `Target.attachToTarget`.
pub open spec fn spec_target_attach_params(p: &TargetAttachToTarget) -> Seq<char> {
    "{\"targetId\":\""@ + spec_json_escape(p.target_id@) + "\""@ + (match p.flatten {
        Some(b) => ",\"flatten\":"@ + spec_bool_text(b),
        None => Seq::empty(),
    }) + "}"@
}

impl TargetAttachToTarget {
    /// The request's params object, field-exact.
    pub fn params_json(&self) -> (r: String)
        ensures
            r@ == spec_target_attach_params(self),
    {
        let mut out: Vec<char> = Vec::new();
        push_str_chars("{\"targetId\":\"", &mut out);
        push_json_escaped(self.target_id.as_str(), &mut out);
        push_str_chars("\"", &mut out);
        match self.flatten {
            Some(b) => {
                push_str_chars(",\"flatten\":", &mut out);
                push_bool_text(b, &mut out);
            },
            None => {},
        }
        push_str_chars("}", &mut out);
        let r = chars_to_string(&out);
        proof {
            assert(r@ =~= spec_target_attach_params(self));
        }
        r
    }
}

/// The params text of `Page.navigate`.
pub open spec fn spec_page_navigate_params(p: &PageNavigate) -> Seq<char> {
    "{\"url\":\""@ + spec_json_escape(p.url@) + "\""@ + (match p.referrer {
        Some(s) => ",\"referrer\":\""@ + spec_json_escape(s@) + "\""@,
        None => Seq::empty(),
    }) + (match p.transition_type {
        Some(s) => ",\"transitionType\":\""@ + spec_json_escape(s@) + "\""@,
        None => Seq::empty(),
    }) + (match p.frame_id {
        Some(s) => ",\"frameId\":\""@ + spec_json_escape(s@) + "\""@,
        None => Seq::empty(),
    }) + "}"@
}

impl PageNavigate {
    /// The request's params object, field-exact.
    pub fn params_json(&self) -> (r: String)
        ensures
            r@ == spec_page_navigate_params(self),
    {
        let mut out: Vec<char> = Vec::new();
        push_str_chars("{\"url\":\"", &mut out);
        push_json_escaped(self.url.as_str(), &mut out);
        push_str_chars("\"", &mut out);
        match &self.referrer {
            Some(s) => {
                push_str_chars(",\"referrer\":\"", &mut out);
                push_json_escaped(s.as_str(), &mut out);
                push_str_chars("\"", &mut out);
            },
            None => {},
        }
        match &self.transition_type {
            Some(s) => {
                push_str_chars(",\"transitionType\":\"", &mut out);
                push_json_escaped(s.as_str(), &mut out);
                push_str_chars("\"", &mut out);
            },
            None => {},
        }
        match &self.frame_id {
            Some(s) => {
                push_str_chars(",\"frameId\":\"", &mut out);
                push_json_escaped(s.as_str(), &mut out);
                push_str_chars("\"", &mut out);
            },
            None => {},
        }
        push_str_chars("}", &mut out);
        let r = chars_to_string(&out);
        proof {
            assert(r@ =~= spec_page_navigate_params(self));
        }
        r
    }
}

/// The params text of `Page.addScriptToEvaluateOnNewDocument`.
pub open spec fn spec_page_add_script_params(p: &PageAddScriptToEvaluateOnNewDocument) -> Seq<
    char,
> {
    "{\"source\":\""@ + spec_json_escape(p.source@) + "\""@ + (match p.world_name {
        Some(s) => ",\"worldName\":\""@ + spec_json_escape(s@) + "\""@,
        None => Seq::empty(),
    }) + (match p.include_command_line_api {
        Some(b) => ",\"includeCommandLineAPI\":"@ + spec_bool_text(b),
        None => Seq::empty(),
    }) + "}"@
}

impl PageAddScriptToEvaluateOnNewDocument {
    /// The request's params object, field-exact.
    pub fn params_json(&self) -> (r: String)
        ensures
            r@ == spec_page_add_script_params(self),
    {
        let mut out: Vec<char> = Vec::new();
        push_str_chars("{\"source\":\"", &mut out);
        push_json_escaped(self.source.as_str(), &mut out);
        push_str_chars("\"", &mut out);
        match &self.world_name {
            Some(s) => {
                push_str_chars(",\"worldName\":\"", &mut out);
                push_json_escaped(s.as_str(), &mut out);
                push_str_chars("\"", &mut out);
            },
            None => {},
        }
        match self.include_command_line_api {
            Some(b) => {
                push_str_chars(",\"includeCommandLineAPI\":", &mut out);
                push_bool_text(b, &mut out);
            },
            None => {},
        }
        push_str_chars("}", &mut out);
        let r = chars_to_string(&out);
        proof {
            assert(r@ =~= spec_page_add_script_params(self));
        }
        r
    }
}

/// The params text of `Input.insertText`.
pub open spec fn spec_input_insert_text_params(p: &InputInsertText) -> Seq<char> {
    "{\"text\":\""@ + spec_json_escape(p.text@) + "\"}"@
}

impl InputInsertText {
    /// The request's params object, field-exact.
    pub fn params_json(&self) -> (r: String)
        ensures
            r@ == spec_input_insert_text_params(self),
    {
        let mut out: Vec<char> = Vec::new();
        push_str_chars("{\"text\":\"", &mut out);
        push_json_escaped(self.text.as_str(), &mut out);
        push_str_chars("\"}", &mut out);
        let r = chars_to_string(&out);
        proof {
            assert(r@ =~= spec_input_insert_text_params(self));
        }
        r
    }
}

/// The params text of `DOM.getDocument`.
pub open spec fn spec_dom_get_document_params(p: &DOMGetDocument) -> Seq<char> {
    "{"@ + (match p.depth {
        Some(d) => "\"depth\":"@ + spec_dec_i32(d),
        None => Seq::empty(),
    }) + (match p.pierce {
        Some(b) => (if p.depth is Some {
            ",\"pierce\":"@
        } else {
            "\"pierce\":"@
        }) + spec_bool_text(b),
        None => Seq::empty(),
    }) + "}"@
}

impl DOMGetDocument {
    /// The request's params object, field-exact.
    pub fn params_json(&self) -> (r: String)
        ensures
            r@ == spec_dom_get_document_params(self),
    {
        let mut out: Vec<char> = Vec::new();
        push_str_chars("{", &mut out);
        match self.depth {
            Some(d) => {
                push_str_chars("\"depth\":", &mut out);
                push_dec_i32(d, &mut out);
            },
            None => {},
        }
        match self.pierce {
            Some(b) => {
                match self.depth {
                    Some(_) => push_str_chars(",\"pierce\":", &mut out),
                    None => push_str_chars("\"pierce\":", &mut out),
                }
                push_bool_text(b, &mut out);
            },
            None => {},
        }
        push_str_chars("}", &mut out);
        let r = chars_to_string(&out);
        proof {
            assert(r@ =~= spec_dom_get_document_params(self));
        }
        r
    }
}

/// The params text of `DOM.querySelector`.
pub open spec fn spec_dom_query_selector_params(p: &DOMQuerySelector) -> Seq<char> {
    "{\"nodeId\":"@ + spec_dec_i32(p.node_id) + ",\"selector\":\""@ + spec_json_escape(
        p.selector@,
    ) + "\"}"@
}

impl DOMQuerySelector {
    /// The request's params object, field-exact.
    pub fn params_json(&self) -> (r: String)
        ensures
            r@ == spec_dom_query_selector_params(self),
    {
        let mut out: Vec<char> = Vec::new();
        push_str_chars("{\"nodeId\":", &mut out);
        push_dec_i32(self.node_id, &mut out);
        push_str_chars(",\"selector\":\"", &mut out);
        push_json_escaped(self.selector.as_str(), &mut out);
        push_str_chars("\"}", &mut out);
        let r = chars_to_string(&out);
        proof {
            assert(r@ =~= spec_dom_query_selector_params(self));
        }
        r
    }
}

/// The params text of `Network.getResponseBody`.
pub open spec fn spec_network_get_response_body_params(p: &NetworkGetResponseBody) -> Seq<char> {
    "{\"requestId\":\""@ + spec_json_escape(p.request_id@) + "\"}"@
}

impl NetworkGetResponseBody {
    /// The request's params object, field-exact.
    pub fn params_json(&self) -> (r: String)
        ensures
            r@ == spec_network_get_response_body_params(self),
    {
        let mut out: Vec<char> = Vec::new();
        push_str_chars("{\"requestId\":\"", &mut out);
        push_json_escaped(self.request_id.as_str(), &mut out);
        push_str_chars("\"}", &mut out);
        let r = chars_to_string(&out);
        proof {
            assert(r@ =~= spec_network_get_response_body_params(self));
        }
        r
    }
}

/// An empty params object, for the commands that take none.
pub fn empty_params() -> (r: String)
    ensures
        r@ == "{}"@,
{
    let mut out: Vec<char> = Vec::new();
    push_str_chars("{}", &mut out);
    let r = chars_to_string(&out);
    proof {
        assert(r@ =~= "{}"@);
    }
    r
}

impl BrowserGetVersion {
    /// The request's params object: empty.
    pub fn params_json(&self) -> (r: String)
        ensures
            r@ == "{}"@,
    {
        empty_params()
    }
}

impl BrowserClose {
    /// The request's params object: empty.
    pub fn params_json(&self) -> (r: String)
        ensures
            r@ == "{}"@,
    {
        empty_params()
    }
}

impl PageEnable {
    /// The request's params object: empty.
    pub fn params_json(&self) -> (r: String)
        ensures
            r@ == "{}"@,
    {
        empty_params()
    }
}

impl PageGetFrameTree {
    /// The request's params object: empty.
    pub fn params_json(&self) -> (r: String)
        ensures
            r@ == "{}"@,
    {
        empty_params()
    }
}

impl TargetGetTargets {
    /// The request's params object: empty.
    pub fn params_json(&self) -> (r: String)
        ensures
            r@ == "{}"@,
    {
        empty_params()
    }
}

impl NetworkDisable {
    /// The request's params object: empty.
    pub fn params_json(&self) -> (r: String)
        ensures
            r@ == "{}"@,
    {
        empty_params()
    }
}

} // verus!
