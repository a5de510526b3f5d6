//! What the launcher computes: the stealth argument list the browser is
//! started with, and the tab list distilled from the target catalogue.
//! Spawning the process and reading its log happen outside.

use vstd::prelude::*;

use crate::cdp_types::TargetInfo;
use crate::fingerprint::{random_user_agent, spec_is_realistic_ua};
use crate::text::{chars_to_string, str_eq, to_char_vec};
use crate::wire::{push_dec_digits, push_str_chars, spec_dec_digits};
use crate::StealthConfig;

verus! {

/// The fixed stealth flags, in order.
pub open spec fn spec_fixed_args() -> Seq<Seq<char>> {
    seq![
        "--disable-blink-features=AutomationControlled"@,
        "--disable-automation"@,
        "--disable-features=IsolateOrigins,site-per-process,AutomationControlled,EnableAutomation"@,
        "--enable-features=NetworkService,NetworkServiceInProcess"@,
        "--disable-infobars"@,
        "--disable-dev-shm-usage"@,
        "--disable-ipc-flooding-protection"@,
        "--disable-renderer-backgrounding"@,
        "--disable-background-timer-throttling"@,
        "--disable-backgrounding-occluded-windows"@,
        "--no-first-run"@,
        "--no-default-browser-check"@,
        "--no-sandbox"@,
        "--disable-extensions-except="@,
        "--disable-default-apps"@,
        "--disable-component-extensions-with-background-pages"@,
        "--disable-hang-monitor"@,
        "--disable-popup-blocking"@,
        "--disable-prompt-on-repost"@,
        "--disable-sync"@,
        "--disable-translate"@,
        "--metrics-recording-only"@,
        "--safebrowsing-disable-auto-update"@,
        "--disable-client-side-phishing-detection"@,
        "--password-store=basic"@,
        "--use-mock-keychain"@,
        "--excludeSwitches=enable-automation"@,
    ]
}

/// The whole argument list for a config and a chosen user agent: the
/// fixed flags, the window size, the user agent, and headless mode when
/// configured.
pub open spec fn spec_stealth_args(config: &StealthConfig, ua: Seq<char>) -> Seq<Seq<char>> {
    spec_fixed_args() + seq![
        "--window-size="@ + spec_dec_digits(config.viewport_width as u64) + ","@ + spec_dec_digits(
            config.viewport_height as u64,
        ),
        "--user-agent="@ + ua,
    ] + (if config.headless {
        seq!["--headless=new"@]
    } else {
        Seq::empty()
    })
}

/// Build the argument list with an explicit user agent.
pub fn stealth_args_with_ua(config: &StealthConfig, ua: &str) -> (r: Vec<String>)
    ensures
        r@.len() == spec_stealth_args(config, ua@).len(),
        forall|i: int|
            0 <= i < r@.len() ==> #[trigger] r@[i]@ == spec_stealth_args(config, ua@)[i],
{
    let mut args: Vec<String> = Vec::new();
    args.push("--disable-blink-features=AutomationControlled".to_owned());
    args.push("--disable-automation".to_owned());
    args.push(
        "--disable-features=IsolateOrigins,site-per-process,AutomationControlled,EnableAutomation".to_owned(),
    );
    args.push("--enable-features=NetworkService,NetworkServiceInProcess".to_owned());
    args.push("--disable-infobars".to_owned());
    args.push("--disable-dev-shm-usage".to_owned());
    args.push("--disable-ipc-flooding-protection".to_owned());
    args.push("--disable-renderer-backgrounding".to_owned());
    args.push("--disable-background-timer-throttling".to_owned());
    args.push("--disable-backgrounding-occluded-windows".to_owned());
    args.push("--no-first-run".to_owned());
    args.push("--no-default-browser-check".to_owned());
    args.push("--no-sandbox".to_owned());
    args.push("--disable-extensions-except=".to_owned());
    args.push("--disable-default-apps".to_owned());
    args.push("--disable-component-extensions-with-background-pages".to_owned());
    args.push("--disable-hang-monitor".to_owned());
    args.push("--disable-popup-blocking".to_owned());
    args.push("--disable-prompt-on-repost".to_owned());
    args.push("--disable-sync".to_owned());
    args.push("--disable-translate".to_owned());
    args.push("--metrics-recording-only".to_owned());
    args.push("--safebrowsing-disable-auto-update".to_owned());
    args.push("--disable-client-side-phishing-detection".to_owned());
    args.push("--password-store=basic".to_owned());
    args.push("--use-mock-keychain".to_owned());
    args.push("--excludeSwitches=enable-automation".to_owned());
    let mut wsize: Vec<char> = Vec::new();
    push_str_chars("--window-size=", &mut wsize);
    push_dec_digits(config.viewport_width as u64, &mut wsize);
    push_str_chars(",", &mut wsize);
    push_dec_digits(config.viewport_height as u64, &mut wsize);
    args.push(chars_to_string(&wsize));
    let mut ua_arg: Vec<char> = Vec::new();
    push_str_chars("--user-agent=", &mut ua_arg);
    push_str_chars(ua, &mut ua_arg);
    args.push(chars_to_string(&ua_arg));
    if config.headless {
        args.push("--headless=new".to_owned());
    }
    proof {
        let s = spec_stealth_args(config, ua@);
        assert forall|i: int| 0 <= i < args@.len() implies #[trigger] args@[i]@ == s[i] by {
            assert(args@[i]@ == s[i]);
        }
    }
    args
}

/// Build the stealth argument list: the configured user agent, or a
/// random realistic one when none is configured.
pub fn stealth_args(config: &StealthConfig) -> (r: Vec<String>)
    ensures
        exists|ua: Seq<char>|
            {
                &&& #[trigger] spec_stealth_args(config, ua).len() == r@.len()
                &&& (forall|i: int|
                    0 <= i < r@.len() ==> #[trigger] r@[i]@ == spec_stealth_args(config, ua)[i])
                &&& (config.user_agent matches Some(u) ==> ua == u@)
                &&& (config.user_agent is None ==> spec_is_realistic_ua(ua))
            },
{
    let ua: String = match &config.user_agent {
        Some(u) => {
            let chars = to_char_vec(u.as_str());
            chars_to_string(&chars)
        },
        None => random_user_agent(),
    };
    let r = stealth_args_with_ua(config, ua.as_str());
    proof {
        assert(spec_stealth_args(config, ua@).len() == r@.len());
    }
    r
}

/// Info about an open tab.
#[derive(Debug, Clone)]
pub struct TabInfo {
    /// The target id.
    pub id: String,
    /// The tab's title.
    pub title: String,
    /// The tab's URL.
    pub url: String,
}

/// The tab distilled from one page target.
pub open spec fn spec_tab_of(t: TargetInfo) -> TabInfo {
    TabInfo { id: t.target_id, title: t.title, url: t.url }
}

/// The tabs of a target catalogue: the targets of kind `page`, in
/// order, as tab records.
pub open spec fn spec_page_tabs(ts: Seq<TargetInfo>) -> Seq<TabInfo>
    decreases ts.len(),
{
    if ts.len() == 0 {
        Seq::empty()
    } else {
        (if ts.first().kind@ == "page"@ {
            seq![spec_tab_of(ts.first())]
        } else {
            Seq::empty()
        }) + spec_page_tabs(ts.drop_first())
    }
}

/// List the open tabs: every target of kind `page`, in catalogue order.
pub fn page_tabs(targets: Vec<TargetInfo>) -> (r: Vec<TabInfo>)
    ensures
        r@ == spec_page_tabs(targets@),
{
    let ghost all = targets@;
    let mut ts = targets;
    let mut out: Vec<TabInfo> = Vec::new();
    while ts.len() > 0
        invariant
            ts@ == all.subrange(0, ts@.len() as int),
            ts@.len() <= all.len(),
            spec_page_tabs(all) == spec_page_tabs(ts@) + out@,
        decreases ts@.len(),
    {
        let ghost before = ts@;
        let ghost old_out = out@;
        let t = match ts.pop() {
            Some(t) => t,
            None => {
                proof {
                    assert(false);
                }
                return out;
            },
        };
        proof {
            assert(before.drop_last() =~= all.subrange(0, before.len() - 1));
        }
        let is_page = str_eq(t.kind.as_str(), "page");
        proof {
            lemma_page_tabs_split(before);
        }
        if is_page {
            out.insert(0, TabInfo { id: t.target_id, title: t.title, url: t.url });
            assert(out@ =~= seq![spec_tab_of(before.last())] + old_out);
        } else {
            assert(out@ =~= old_out);
        }
    }
    proof {
        assert(spec_page_tabs(ts@) =~= Seq::<TabInfo>::empty());
    }
    out
}

/// Splitting off the last target: the page tabs of a non-empty
/// catalogue are the tabs of the front plus the last target's tab when
/// it is a page.
proof fn lemma_page_tabs_split(ts: Seq<TargetInfo>)
    requires
        ts.len() > 0,
    ensures
        spec_page_tabs(ts) == spec_page_tabs(ts.drop_last()) + (if ts.last().kind@ == "page"@ {
            seq![spec_tab_of(ts.last())]
        } else {
            Seq::<TabInfo>::empty()
        }),
    decreases ts.len(),
{
    if ts.len() == 1 {
        assert(ts.drop_last() =~= Seq::<TargetInfo>::empty());
        assert(ts.first() == ts.last());
        assert(ts.drop_first() =~= Seq::<TargetInfo>::empty());
    } else {
        lemma_page_tabs_split(ts.drop_first());
        assert(ts.drop_first().drop_last() =~= ts.drop_last().drop_first());
        assert(ts.drop_last().first() == ts.first());
        assert(ts.drop_first().last() == ts.last());
    }
}

} // verus!
