//! Realistic, randomized browser fingerprints: a user agent drawn from
//! recent Chrome releases on macOS or Windows, and a consistent set of
//! screen, hardware, and WebGL properties. Every draw goes through the
//! trusted randomness wrappers; the contracts hold for every outcome.

use vstd::prelude::*;

use crate::rng::random_below;
use crate::text::chars_to_string;
use crate::wire::push_str_chars;

verus! {

/// One of the recent Chrome version strings the generator draws from.
pub open spec fn spec_is_chrome_version(v: Seq<char>) -> bool {
    ||| v == "120.0.0.0"@
    ||| v == "121.0.0.0"@
    ||| v == "122.0.0.0"@
    ||| v == "123.0.0.0"@
    ||| v == "124.0.0.0"@
    ||| v == "125.0.0.0"@
    ||| v == "126.0.0.0"@
    ||| v == "127.0.0.0"@
    ||| v == "128.0.0.0"@
    ||| v == "129.0.0.0"@
    ||| v == "130.0.0.0"@
    ||| v == "131.0.0.0"@
    ||| v == "132.0.0.0"@
    ||| v == "133.0.0.0"@
    ||| v == "134.0.0.0"@
}

/// One of the macOS version strings.
pub open spec fn spec_is_macos_version(v: Seq<char>) -> bool {
    ||| v == "10_15_7"@
    ||| v == "11_0_0"@
    ||| v == "11_6_0"@
    ||| v == "12_0_0"@
    ||| v == "12_6_0"@
    ||| v == "13_0_0"@
    ||| v == "13_4_0"@
    ||| v == "14_0_0"@
    ||| v == "14_2_0"@
    ||| v == "14_4_0"@
}

/// One of the Windows version strings.
pub open spec fn spec_is_windows_version(v: Seq<char>) -> bool {
    ||| v == "10.0"@
    ||| v == "10.0; Win64; x64"@
}

/// One of the WebGL renderer strings reported on macOS.
pub open spec fn spec_is_mac_renderer(v: Seq<char>) -> bool {
    ||| v == "ANGLE (Apple, Apple M1 Pro, OpenGL 4.1)"@
    ||| v == "ANGLE (Apple, Apple M1, OpenGL 4.1)"@
    ||| v == "ANGLE (Apple, Apple M2, OpenGL 4.1)"@
    ||| v == "ANGLE (Apple, Apple M3, OpenGL 4.1)"@
    ||| v == "ANGLE (Intel, Intel Iris Pro Graphics 6200, OpenGL 4.1)"@
    ||| v == "ANGLE (Intel, Intel UHD Graphics 630, OpenGL 4.1)"@
}

/// One of the WebGL renderer strings reported on Windows.
pub open spec fn spec_is_windows_renderer(v: Seq<char>) -> bool {
    ||| v == "ANGLE (NVIDIA, NVIDIA GeForce RTX 3080, Direct3D11)"@
    ||| v == "ANGLE (NVIDIA, NVIDIA GeForce RTX 4070, Direct3D11)"@
    ||| v == "ANGLE (NVIDIA, NVIDIA GeForce GTX 1080, Direct3D11)"@
    ||| v == "ANGLE (AMD, AMD Radeon RX 6800 XT, Direct3D11)"@
    ||| v == "ANGLE (Intel, Intel UHD Graphics 770, Direct3D11)"@
}

/// One of the screen resolutions the generator draws from.
pub open spec fn spec_is_resolution(w: u32, h: u32) -> bool {
    ||| (w == 1920 && h == 1080)
    ||| (w == 2560 && h == 1440)
    ||| (w == 3840 && h == 2160)
    ||| (w == 1440 && h == 900)
    ||| (w == 1680 && h == 1050)
    ||| (w == 2560 && h == 1600)
    ||| (w == 3024 && h == 1964)
    ||| (w == 3456 && h == 2234)
}

/// The macOS user-agent string for an OS version and a Chrome version.
pub open spec fn spec_mac_ua(osv: Seq<char>, cv: Seq<char>) -> Seq<char> {
    "Mozilla/5.0 (Macintosh; Intel Mac OS X "@ + osv
        + ") AppleWebKit/537.36 (KHTML, like Gecko) Chrome/"@ + cv + " Safari/537.36"@
}

/// The Windows user-agent string for an OS version and a Chrome version.
pub open spec fn spec_win_ua(osv: Seq<char>, cv: Seq<char>) -> Seq<char> {
    "Mozilla/5.0 (Windows NT "@ + osv
        + "; Win64; x64) AppleWebKit/537.36 (KHTML, like Gecko) Chrome/"@ + cv + " Safari/537.36"@
}

/// A realistic Chrome user agent: one of the catalogued versions on one
/// of the catalogued platforms.
pub open spec fn spec_is_realistic_ua(ua: Seq<char>) -> bool {
    exists|cv: Seq<char>|
        #[trigger] spec_is_chrome_version(cv) && ((exists|osv: Seq<char>|
            #[trigger] spec_is_macos_version(osv) && ua == spec_mac_ua(osv, cv)) || (exists|
        osv: Seq<char>|
            #[trigger] spec_is_windows_version(osv) && ua == spec_win_ua(osv, cv)))
}

/// The recent Chrome version strings.
fn chrome_versions() -> (r: Vec<&'static str>)
    ensures
        r@.len() == 15,
        forall|i: int| 0 <= i < r@.len() ==> spec_is_chrome_version(#[trigger] r@[i]@),
{
    let mut v: Vec<&'static str> = Vec::new();
    v.push("120.0.0.0");
    v.push("121.0.0.0");
    v.push("122.0.0.0");
    v.push("123.0.0.0");
    v.push("124.0.0.0");
    v.push("125.0.0.0");
    v.push("126.0.0.0");
    v.push("127.0.0.0");
    v.push("128.0.0.0");
    v.push("129.0.0.0");
    v.push("130.0.0.0");
    v.push("131.0.0.0");
    v.push("132.0.0.0");
    v.push("133.0.0.0");
    v.push("134.0.0.0");
    v
}

/// The macOS version strings.
fn macos_versions() -> (r: Vec<&'static str>)
    ensures
        r@.len() == 10,
        forall|i: int| 0 <= i < r@.len() ==> spec_is_macos_version(#[trigger] r@[i]@),
{
    let mut v: Vec<&'static str> = Vec::new();
    v.push("10_15_7");
    v.push("11_0_0");
    v.push("11_6_0");
    v.push("12_0_0");
    v.push("12_6_0");
    v.push("13_0_0");
    v.push("13_4_0");
    v.push("14_0_0");
    v.push("14_2_0");
    v.push("14_4_0");
    v
}

/// The Windows version strings.
fn windows_versions() -> (r: Vec<&'static str>)
    ensures
        r@.len() == 2,
        forall|i: int| 0 <= i < r@.len() ==> spec_is_windows_version(#[trigger] r@[i]@),
{
    let mut v: Vec<&'static str> = Vec::new();
    v.push("10.0");
    v.push("10.0; Win64; x64");
    v
}

/// The WebGL renderers reported on macOS.
fn mac_renderers() -> (r: Vec<&'static str>)
    ensures
        r@.len() == 6,
        forall|i: int| 0 <= i < r@.len() ==> spec_is_mac_renderer(#[trigger] r@[i]@),
{
    let mut v: Vec<&'static str> = Vec::new();
    v.push("ANGLE (Apple, Apple M1 Pro, OpenGL 4.1)");
    v.push("ANGLE (Apple, Apple M1, OpenGL 4.1)");
    v.push("ANGLE (Apple, Apple M2, OpenGL 4.1)");
    v.push("ANGLE (Apple, Apple M3, OpenGL 4.1)");
    v.push("ANGLE (Intel, Intel Iris Pro Graphics 6200, OpenGL 4.1)");
    v.push("ANGLE (Intel, Intel UHD Graphics 630, OpenGL 4.1)");
    v
}

/// The WebGL renderers reported on Windows.
fn windows_renderers() -> (r: Vec<&'static str>)
    ensures
        r@.len() == 5,
        forall|i: int| 0 <= i < r@.len() ==> spec_is_windows_renderer(#[trigger] r@[i]@),
{
    let mut v: Vec<&'static str> = Vec::new();
    v.push("ANGLE (NVIDIA, NVIDIA GeForce RTX 3080, Direct3D11)");
    v.push("ANGLE (NVIDIA, NVIDIA GeForce RTX 4070, Direct3D11)");
    v.push("ANGLE (NVIDIA, NVIDIA GeForce GTX 1080, Direct3D11)");
    v.push("ANGLE (AMD, AMD Radeon RX 6800 XT, Direct3D11)");
    v.push("ANGLE (Intel, Intel UHD Graphics 770, Direct3D11)");
    v
}

/// Generate a random realistic user agent: 70% macOS, 30% Windows.
pub fn random_user_agent() -> (r: String)
    ensures
        spec_is_realistic_ua(r@),
{
    let versions = chrome_versions();
    let ci = random_below(0, 15) as usize;
    let chrome_version: &str = versions[ci];
    let mut out: Vec<char> = Vec::new();
    if random_below(0, 10) < 7 {
        let oss = macos_versions();
        let oi = random_below(0, 10) as usize;
        let osv: &str = oss[oi];
        push_str_chars("Mozilla/5.0 (Macintosh; Intel Mac OS X ", &mut out);
        push_str_chars(osv, &mut out);
        push_str_chars(") AppleWebKit/537.36 (KHTML, like Gecko) Chrome/", &mut out);
        push_str_chars(chrome_version, &mut out);
        push_str_chars(" Safari/537.36", &mut out);
        let r = chars_to_string(&out);
        proof {
            assert(r@ =~= spec_mac_ua(osv@, chrome_version@));
            assert(spec_is_chrome_version(chrome_version@));
            assert(spec_is_macos_version(osv@));
        }
        r
    } else {
        let oss = windows_versions();
        let oi = random_below(0, 2) as usize;
        let osv: &str = oss[oi];
        push_str_chars("Mozilla/5.0 (Windows NT ", &mut out);
        push_str_chars(osv, &mut out);
        push_str_chars("; Win64; x64) AppleWebKit/537.36 (KHTML, like Gecko) Chrome/", &mut out);
        push_str_chars(chrome_version, &mut out);
        push_str_chars(" Safari/537.36", &mut out);
        let r = chars_to_string(&out);
        proof {
            assert(r@ =~= spec_win_ua(osv@, chrome_version@));
            assert(spec_is_chrome_version(chrome_version@));
            assert(spec_is_windows_version(osv@));
        }
        r
    }
}

/// The platform a fingerprint claims.
#[derive(Debug, Clone, Copy)]
pub enum Platform {
    /// An Apple desktop.
    MacOS,
    /// A Windows desktop.
    Windows,
}

/// Browser fingerprint data.
#[derive(Debug, Clone)]
pub struct Fingerprint {
    /// The user-agent string.
    pub user_agent: String,
    /// The claimed platform.
    pub platform: Platform,
    /// Screen width in pixels.
    pub screen_width: u32,
    /// Screen height in pixels.
    pub screen_height: u32,
    /// Color depth in bits.
    pub color_depth: u8,
    /// Reported number of logical processors.
    pub hardware_concurrency: u8,
    /// Reported device memory in gigabytes.
    pub device_memory: u8,
    /// The claimed timezone.
    pub timezone: String,
    /// The accepted languages, most preferred first.
    pub languages: Vec<String>,
    /// The reported WebGL vendor.
    pub webgl_vendor: String,
    /// The reported WebGL renderer.
    pub webgl_renderer: String,
}

/// A fingerprint is consistent when its screen, hardware, and WebGL
/// values come from the catalogues, and the renderer matches the
/// platform.
pub open spec fn spec_fingerprint_consistent(f: &Fingerprint) -> bool {
    &&& spec_is_realistic_ua(f.user_agent@)
    &&& spec_is_resolution(f.screen_width, f.screen_height)
    &&& f.color_depth == 24
    &&& (f.hardware_concurrency == 4 || f.hardware_concurrency == 8 || f.hardware_concurrency == 10
        || f.hardware_concurrency == 12 || f.hardware_concurrency == 16)
    &&& (f.device_memory == 8 || f.device_memory == 16 || f.device_memory == 32)
    &&& f.timezone@ == "America/Los_Angeles"@
    &&& f.languages@.len() == 2
    &&& f.languages@[0]@ == "en-US"@
    &&& f.languages@[1]@ == "en"@
    &&& (f.platform is MacOS ==> f.webgl_vendor@ == "Google Inc. (Apple)"@
        && spec_is_mac_renderer(f.webgl_renderer@))
    &&& (f.platform is Windows ==> f.webgl_vendor@ == "Google Inc. (NVIDIA Corporation)"@
        && spec_is_windows_renderer(f.webgl_renderer@))
}

impl Fingerprint {
    /// Generate a random consistent fingerprint.
    pub fn random() -> (f: Fingerprint)
        ensures
            spec_fingerprint_consistent(&f),
    {
        let mac = random_below(0, 10) < 7;
        let ri = random_below(0, 8);
        let (screen_width, screen_height): (u32, u32) = if ri == 0 {
            (1920, 1080)
        } else if ri == 1 {
            (2560, 1440)
        } else if ri == 2 {
            (3840, 2160)
        } else if ri == 3 {
            (1440, 900)
        } else if ri == 4 {
            (1680, 1050)
        } else if ri == 5 {
            (2560, 1600)
        } else if ri == 6 {
            (3024, 1964)
        } else {
            (3456, 2234)
        };
        let (platform, webgl_vendor, webgl_renderer): (Platform, &'static str, String) = if mac {
            let rs = mac_renderers();
            let i = random_below(0, 6) as usize;
            (Platform::MacOS, "Google Inc. (Apple)", rs[i].to_owned())
        } else {
            let rs = windows_renderers();
            let i = random_below(0, 5) as usize;
            (Platform::Windows, "Google Inc. (NVIDIA Corporation)", rs[i].to_owned())
        };
        let hi = random_below(0, 5);
        let hardware_concurrency: u8 = if hi == 0 {
            4
        } else if hi == 1 {
            8
        } else if hi == 2 {
            10
        } else if hi == 3 {
            12
        } else {
            16
        };
        let mi = random_below(0, 3);
        let device_memory: u8 = if mi == 0 {
            8
        } else if mi == 1 {
            16
        } else {
            32
        };
        let mut languages: Vec<String> = Vec::new();
        languages.push("en-US".to_owned());
        languages.push("en".to_owned());
        Fingerprint {
            user_agent: random_user_agent(),
            platform,
            screen_width,
            screen_height,
            color_depth: 24,
            hardware_concurrency,
            device_memory,
            timezone: "America/Los_Angeles".to_owned(),
            languages,
            webgl_vendor: webgl_vendor.to_owned(),
            webgl_renderer,
        }
    }
}

} // verus!
