//! The stealth policy: a static classification of protocol method names
//! into blocked, risky, and allowed, consulted before every dispatch.
//!
//! Blocked methods are highly detectable by anti-bot checks and are never
//! sent; risky methods are sent but deserve a warning; everything else is
//! allowed.

use vstd::prelude::*;

use crate::text::str_eq;

verus! {

/// Method names that are never sent over the wire.
pub open spec fn spec_blocked(m: Seq<char>) -> bool {
    ||| m == "Runtime.enable"@
    ||| m == "Runtime.disable"@
    ||| m == "HeapProfiler.enable"@
    ||| m == "HeapProfiler.disable"@
    ||| m == "Profiler.enable"@
    ||| m == "Profiler.disable"@
    ||| m == "Debugger.enable"@
    ||| m == "Debugger.disable"@
    ||| m == "Console.enable"@
    ||| m == "Console.disable"@
}

/// Method names that are sent, but only with a warning.
pub open spec fn spec_risky(m: Seq<char>) -> bool {
    ||| m == "Emulation.setUserAgentOverride"@
    ||| m == "Emulation.setTimezoneOverride"@
    ||| m == "Emulation.setDeviceMetricsOverride"@
    ||| m == "Page.setBypassCSP"@
}

/// Check whether a command is blocked (highly detectable by anti-bot checks).
pub fn is_blocked(method: &str) -> (r: bool)
    ensures
        r == spec_blocked(method@),
{
    str_eq(method, "Runtime.enable") || str_eq(method, "Runtime.disable") || str_eq(
        method,
        "HeapProfiler.enable",
    ) || str_eq(method, "HeapProfiler.disable") || str_eq(method, "Profiler.enable") || str_eq(
        method,
        "Profiler.disable",
    ) || str_eq(method, "Debugger.enable") || str_eq(method, "Debugger.disable") || str_eq(
        method,
        "Console.enable",
    ) || str_eq(method, "Console.disable")
}

/// Check whether a command is risky (potentially detectable).
pub fn is_risky(method: &str) -> (r: bool)
    ensures
        r == spec_risky(method@),
{
    str_eq(method, "Emulation.setUserAgentOverride") || str_eq(
        method,
        "Emulation.setTimezoneOverride",
    ) || str_eq(method, "Emulation.setDeviceMetricsOverride") || str_eq(method, "Page.setBypassCSP")
}

} // verus!
