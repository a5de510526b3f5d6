//! Stealth surfaces: the policy, the evasion scripts, the launch
//! arguments, the patcher, and the fingerprints.

use eoka::evasions::{build_evasion_script, full_evasion_script};
use eoka::fingerprint::{random_user_agent, Fingerprint};
use eoka::launch::{page_tabs, stealth_args};
use eoka::cdp_types::TargetInfo;
use eoka::patcher::{apply_patches, find_patch_sites};
use eoka::policy::{is_blocked, is_risky};
use eoka::human::HumanSpeed;
use eoka::rng::random_string;
use eoka::StealthConfig;

#[test]
fn test_blocked_and_risky_classification() {
    assert!(is_blocked("Runtime.enable"));
    assert!(is_blocked("Console.disable"));
    assert!(is_blocked("HeapProfiler.enable"));
    assert!(!is_blocked("Page.navigate"));
    assert!(!is_blocked("Runtime.evaluate"));
    assert!(is_risky("Emulation.setUserAgentOverride"));
    assert!(is_risky("Page.setBypassCSP"));
    assert!(!is_risky("Runtime.enable"));
    assert!(!is_risky("Page.navigate"));
}

#[test]
fn test_build_full_script() {
    let config = StealthConfig::default();
    let script = build_evasion_script(&config);
    assert!(script.contains("webdriver"));
    assert!(script.contains("WebGLRenderingContext"));
    assert!(script.contains("HTMLCanvasElement"));
    assert!(script.contains("AudioBuffer"));
}

#[test]
fn test_script_is_wrapped_in_iife() {
    let config = StealthConfig::default();
    let script = build_evasion_script(&config);
    assert!(script.starts_with("(function()"));
    assert!(script.ends_with("})();"));
}

#[test]
fn test_minimal_config_drops_fingerprint_evasion() {
    let script = build_evasion_script(&StealthConfig::minimal());
    assert!(!script.contains("WebGLRenderingContext"));
    assert!(script.contains("webdriver"));
    assert_eq!(full_evasion_script(), build_evasion_script(&StealthConfig::default()));
}

#[test]
fn test_stealth_args_shape() {
    let config = StealthConfig::default();
    let args = stealth_args(&config);
    assert!(args.contains(&"--disable-blink-features=AutomationControlled".to_string()));
    assert!(args.contains(&"--window-size=1920,1080".to_string()));
    assert!(args.contains(&"--headless=new".to_string()));
    assert!(args.iter().any(|a| a.starts_with("--user-agent=Mozilla/5.0")));

    let mut visible = StealthConfig::visible();
    visible.user_agent = Some("UA-X".to_string());
    visible.viewport_width = 800;
    visible.viewport_height = 600;
    let args = stealth_args(&visible);
    assert!(!args.contains(&"--headless=new".to_string()));
    assert!(args.contains(&"--user-agent=UA-X".to_string()));
    assert!(args.contains(&"--window-size=800,600".to_string()));
}

#[test]
fn test_page_tabs_filters_targets() {
    let t = |kind: &str, id: &str| TargetInfo {
        target_id: id.to_string(),
        kind: kind.to_string(),
        title: format!("title-{}", id),
        url: format!("https://{}", id),
        attached: false,
        opener_id: None,
        browser_context_id: None,
    };
    let tabs = page_tabs(vec![t("page", "a"), t("service_worker", "b"), t("page", "c")]);
    assert_eq!(tabs.len(), 2);
    assert_eq!(tabs[0].id, "a");
    assert_eq!(tabs[1].id, "c");
    assert_eq!(tabs[0].title, "title-a");
    assert_eq!(tabs[1].url, "https://c");
}

#[test]
fn test_random_string() {
    let s = random_string(10);
    assert_eq!(s.len(), 10);
    assert!(s.chars().all(|c| c.is_alphanumeric()));
}

#[test]
fn test_aho_corasick_patterns() {
    let test_data = b"$cdc_test webdriver HeadlessChrome";
    let matches: Vec<_> = find_patch_sites(test_data);
    assert!(matches.len() >= 3);
}

#[test]
fn test_apply_patches_rewrites_only_matches() {
    let mut data: Vec<u8> = b"xx $cdc_ yy webdriver zz HeadlessChrome --enable-automation end".to_vec();
    let before = data.clone();
    let count = apply_patches(&mut data);
    assert!(count >= 4);
    assert_eq!(data.len(), before.len());
    // Bytes outside any pattern occurrence are untouched.
    assert_eq!(&data[..3], b"xx ");
    assert_eq!(&data[data.len() - 4..], b" end");
    let text = String::from_utf8_lossy(&data);
    assert!(!text.contains("webdriver"));
    assert!(!text.contains("HeadlessChrome"));
    assert!(!text.contains("--enable-automation"));
    // Scramble swaps adjacent byte pairs in place.
    assert!(text.contains("ewdbirevr"));
    // Nullify overwrites the whole match with spaces.
    assert!(text.contains(&" ".repeat("--enable-automation".len())));
}

#[test]
fn test_random_user_agent_format() {
    for _ in 0..20 {
        let ua = random_user_agent();
        assert!(ua.starts_with("Mozilla/5.0"));
        assert!(ua.contains("Chrome/"));
        assert!(ua.contains("Safari/537.36"));
    }
}

#[test]
fn test_fingerprint_random() {
    let fp = Fingerprint::random();
    assert!(!fp.user_agent.is_empty());
    assert!(fp.screen_width > 0);
    assert!(fp.screen_height > 0);
    assert!([4, 8, 10, 12, 16].contains(&fp.hardware_concurrency));
    assert!([8, 16, 32].contains(&fp.device_memory));
}

#[test]
fn test_human_speed_delays() {
    assert_eq!(HumanSpeed::Fast.move_delay_ms(), (1, 5));
    assert_eq!(HumanSpeed::Normal.move_delay_ms(), (5, 25));
    assert_eq!(HumanSpeed::Slow.move_delay_ms(), (10, 50));
    assert_eq!(HumanSpeed::Fast.type_delay_ms(), (10, 30));
    assert_eq!(HumanSpeed::Normal.type_delay_ms(), (50, 150));
    assert_eq!(HumanSpeed::Slow.type_delay_ms(), (100, 300));
    // Spaces and punctuation slow a human down.
    assert_eq!(HumanSpeed::Normal.char_delay_bounds('a'), (50, 150));
    assert_eq!(HumanSpeed::Normal.char_delay_bounds(' '), (80, 180));
    assert_eq!(HumanSpeed::Normal.char_delay_bounds('!'), (100, 200));
}
