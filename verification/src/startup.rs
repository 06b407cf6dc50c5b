use vstd::prelude::*;

use crate::settings::{readable_as_flag, readable_as_text, StoredSetting};
use crate::text::str_eq;

verus! {

/// Whether the proxy is switched on at start: `proxy_enable` is `true` and
/// a non-empty `proxy_host` is stored.
pub open spec fn proxy_at_start_of(proxy_enable: StoredSetting, proxy_host: StoredSetting) -> bool {
    &&& proxy_enable == StoredSetting::Flag(true)
    &&& proxy_host matches StoredSetting::Text(host) && host@.len() > 0
}

/// Decides whether the proxy is set up at start. `proxy_enable` is read as a
/// boolean and, only when it is on, `proxy_host` as text.
pub fn proxy_at_start(proxy_enable: &StoredSetting, proxy_host: &StoredSetting) -> (r: bool)
    requires
        readable_as_flag(*proxy_enable),
        *proxy_enable == StoredSetting::Flag(true) ==> readable_as_text(*proxy_host),
    ensures
        r == proxy_at_start_of(*proxy_enable, *proxy_host),
        *proxy_enable != StoredSetting::Flag(true) ==> !r,
        *proxy_enable == StoredSetting::Flag(true) ==> (r == (proxy_host matches StoredSetting::Text(h)
            && h@.len() > 0)),
{
    match proxy_enable {
        StoredSetting::Flag(true) => match proxy_host {
            StoredSetting::Text(host) => !host.as_str().is_empty(),
            _ => false,
        },
        _ => false,
    }
}

/// Whether the local language detector is warmed up at start: the stored
/// `translate_detect_engine` is `local`.
pub open spec fn local_detection_of(engine: StoredSetting) -> bool {
    engine matches StoredSetting::Text(e) && e@ == "local"@
}

/// Decides whether the local language detector is warmed up at start; the
/// stored engine, when set, is read as text.
pub fn local_detection_at_start(engine: &StoredSetting) -> (r: bool)
    requires
        readable_as_text(*engine),
    ensures
        r == local_detection_of(*engine),
        r == (*engine matches StoredSetting::Text(e) && e@ == "local"@),
{
    match engine {
        StoredSetting::Text(e) => str_eq(e.as_str(), "local"),
        _ => false,
    }
}

/// Whether a request to exit is turned down so that the application keeps
/// running in the background (reachable from the desktop launcher or a
/// system shortcut): only when it comes from closing the last window, which
/// gives no exit code; an explicit exit or restart (with a code) goes ahead.
pub fn keep_running_on_exit_request(exit_code: Option<i32>) -> (r: bool)
    ensures
        r == (exit_code is None),
{
    exit_code.is_none()
}

/// The proxy is set up at start exactly when `proxy_enable` is stored as
/// `true` and the stored host is a non-empty text; what the host says does
/// not matter otherwise.
pub proof fn law_proxy_needs_enable_and_host(proxy_enable: StoredSetting, proxy_host: StoredSetting)
    ensures
        proxy_at_start_of(proxy_enable, proxy_host) == (proxy_enable == StoredSetting::Flag(true) && (
        proxy_host matches StoredSetting::Text(h) && h@.len() > 0)),
{
}

} // verus!
