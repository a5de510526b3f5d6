//! A stealth-oriented client for the Chrome DevTools remote-debugging
//! protocol: wire framing, command dispatch, response correlation, event
//! routing, and the policy that decides which protocol methods may be sent.

pub mod annotate;
pub mod cdp_types;
pub mod cookies;
pub mod dispatch;
pub mod envelope;
pub mod error;
pub mod evasions;
pub mod fingerprint;
pub mod frame;
pub mod handshake;
pub mod human;
pub mod launch;
pub mod page_util;
pub mod patcher;
pub mod pending;
pub mod policy;
pub mod rng;
pub mod router;
pub mod text;
pub mod wire;

use vstd::prelude::*;

verus! {

/// Configuration for stealth features.
#[derive(Debug, Clone)]
pub struct StealthConfig {
    /// Spoof the WebGL renderer and vendor.
    pub webgl_spoof: bool,
    /// Spoof the canvas fingerprint.
    pub canvas_spoof: bool,
    /// Spoof the audio fingerprint.
    pub audio_spoof: bool,
    /// Use human-like mouse movements.
    pub human_mouse: bool,
    /// Use human-like typing.
    pub human_typing: bool,
    /// Custom user agent (`None` selects a random realistic one).
    pub user_agent: Option<String>,
    /// Headless mode.
    pub headless: bool,
    /// Path to the Chrome or Chromium binary.
    pub chrome_path: Option<String>,
    /// Patch the Chrome binary to bypass detection.
    pub patch_binary: bool,
    /// Viewport width.
    pub viewport_width: u32,
    /// Viewport height.
    pub viewport_height: u32,
}

impl StealthConfig {
    /// Create a minimal config: no spoofing, no patching, visible window.
    pub fn minimal() -> (c: StealthConfig)
        ensures
            !c.webgl_spoof,
            !c.canvas_spoof,
            !c.audio_spoof,
            !c.human_mouse,
            !c.human_typing,
            c.user_agent is None,
            !c.headless,
            c.chrome_path is None,
            !c.patch_binary,
            c.viewport_width == 1920,
            c.viewport_height == 1080,
    {
        StealthConfig {
            webgl_spoof: false,
            canvas_spoof: false,
            audio_spoof: false,
            human_mouse: false,
            human_typing: false,
            user_agent: None,
            headless: false,
            chrome_path: None,
            patch_binary: false,
            viewport_width: 1920,
            viewport_height: 1080,
        }
    }

    /// Create a visible (non-headless) config; everything else as default.
    pub fn visible() -> (c: StealthConfig)
        ensures
            c == (StealthConfig { headless: false, ..StealthConfig::spec_default() }),
    {
        StealthConfig { headless: false, ..StealthConfig::default() }
    }

    /// The default configuration as a spec value.
    pub open spec fn spec_default() -> StealthConfig {
        StealthConfig {
            webgl_spoof: true,
            canvas_spoof: true,
            audio_spoof: true,
            human_mouse: true,
            human_typing: true,
            user_agent: None,
            headless: true,
            chrome_path: None,
            patch_binary: true,
            viewport_width: 1920,
            viewport_height: 1080,
        }
    }
}

impl Default for StealthConfig {
    /// All stealth features on, headless, binary patching enabled.
    fn default() -> (c: StealthConfig)
        ensures
            c == StealthConfig::spec_default(),
    {
        StealthConfig {
            webgl_spoof: true,
            canvas_spoof: true,
            audio_spoof: true,
            human_mouse: true,
            human_typing: true,
            user_agent: None,
            headless: true,
            chrome_path: None,
            patch_binary: true,
            viewport_width: 1920,
            viewport_height: 1080,
        }
    }
}

} // verus!
