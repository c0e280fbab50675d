//! The readiness script: what runs inside the page after new content has
//! been written, and settles only once the page is visually stable.

use vstd::prelude::*;
use vstd::string::*;
use crate::text::{decimal, decimal_text};

verus! {

/// The time limits of the readiness script, in milliseconds.
#[derive(Debug, Clone, Copy, PartialEq, Eq, Structural)]
pub struct Readiness {
    /// After this long the script gives up, at whatever stage it is.
    pub timeout_ms: u32,
    /// The page is never judged stable sooner than this after the script
    /// started.
    pub warm_up_ms: u32,
    /// The page is judged stable once nothing has changed in it for this
    /// long.
    pub quiet_ms: u32,
    /// The pause between two checks of a condition that does not hold yet.
    pub poll_ms: u32,
}

impl View for Readiness {
    type V = Readiness;

    open spec fn view(&self) -> Readiness {
        *self
    }
}

impl Default for Readiness {
    /// Ten seconds in all, a warm-up and a quiet window of a tenth of a
    /// second each, a check every twenty milliseconds.
    fn default() -> (readiness: Readiness)
        ensures
            readiness == (Readiness { timeout_ms: 10000, warm_up_ms: 100, quiet_ms: 100, poll_ms: 20 }),
    {
        Readiness { timeout_ms: 10000, warm_up_ms: 100, quiet_ms: 100, poll_ms: 20 }
    }
}

/// The opening of the script, up to the overall time limit.
pub const SCRIPT_HEAD: &'static str = "new Promise((resolve, reject) => { const limit = ";

/// The part of the script between the time limit and the warm-up.
pub const SCRIPT_WARM_UP: &'static str = "; const warmUp = ";

/// The part of the script between the warm-up and the quiet window.
pub const SCRIPT_QUIET: &'static str = "; const quiet = ";

/// The part of the script between the quiet window and the pause.
pub const SCRIPT_PAUSE: &'static str = "; const pause = ";

/// The body of the script. In order: a timer that rejects the promise once
/// the time limit has passed, whatever else is going on; the wait until the
/// document's ready state reads complete; the wait for the fonts; the check
/// that every linked stylesheet has its sheet and every image is complete,
/// which starts over from the ready state while anything is pending; then a
/// mutation observer on the document's root and the wait until both the
/// warm-up has passed and nothing has changed for the quiet window, with the
/// same start-over where a resource has become pending again; and last two
/// animation frames, one inside the other, before the promise resolves.
pub const SCRIPT_BODY: &'static str =
    "; const started = Date.now(); let done = false; \
const fail = () => { if (!done) { done = true; reject(new Error('page content did not become stable')); } }; \
setTimeout(fail, limit); \
const loaded = () => document.readyState === 'complete'; \
const resources = () => Array.from(document.querySelectorAll('link[rel~=stylesheet]')).every((l) => l.sheet) \
&& Array.from(document.images).every((i) => i.complete); \
const awaitLoaded = () => { if (done) return; if (!loaded()) { setTimeout(awaitLoaded, pause); return; } awaitFonts(); }; \
const awaitFonts = () => { const fonts = document.fonts ? document.fonts.ready : Promise.resolve(); fonts.then(awaitResources, awaitResources); }; \
const awaitResources = () => { if (done) return; if (!loaded() || !resources()) { setTimeout(awaitLoaded, pause); return; } settle(); }; \
const settle = () => { let changed = Date.now(); \
const observer = new MutationObserver(() => { changed = Date.now(); }); \
observer.observe(document.documentElement, { subtree: true, childList: true, attributes: true, characterData: true }); \
const check = () => { if (done) { observer.disconnect(); return; } \
if (!loaded() || !resources()) { observer.disconnect(); setTimeout(awaitLoaded, pause); return; } \
const now = Date.now(); \
if (now - started >= warmUp && now - changed >= quiet) { observer.disconnect(); \
requestAnimationFrame(() => requestAnimationFrame(() => { if (!done) { done = true; resolve(true); } })); return; } \
setTimeout(check, pause); }; check(); }; \
awaitLoaded(); })";

/// The readiness script with the given time limits.
pub open spec fn readiness_script(readiness: Readiness) -> Seq<char> {
    SCRIPT_HEAD@ + decimal(readiness.timeout_ms as nat) + SCRIPT_WARM_UP@ + decimal(
        readiness.warm_up_ms as nat,
    ) + SCRIPT_QUIET@ + decimal(readiness.quiet_ms as nat) + SCRIPT_PAUSE@ + decimal(
        readiness.poll_ms as nat,
    ) + SCRIPT_BODY@
}

/// Writes the readiness script with the given time limits.
pub fn readiness_script_text(readiness: &Readiness) -> (script: String)
    ensures
        script@ == readiness_script(*readiness),
{
    let mut script = String::from_str(SCRIPT_HEAD);
    script.append(decimal_text(readiness.timeout_ms as u64).as_str());
    script.append(SCRIPT_WARM_UP);
    script.append(decimal_text(readiness.warm_up_ms as u64).as_str());
    script.append(SCRIPT_QUIET);
    script.append(decimal_text(readiness.quiet_ms as u64).as_str());
    script.append(SCRIPT_PAUSE);
    script.append(decimal_text(readiness.poll_ms as u64).as_str());
    script.append(SCRIPT_BODY);
    script
}

} // verus!
