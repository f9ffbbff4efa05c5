use vstd::prelude::*;

use crate::suppression::{hash, spec_hash, SuppresionCache};

verus! {

/// The event that the clipboard watcher posts for text copied on this device.
#[derive(Debug, Clone)]
pub struct ClipboardEvent {
    pub device_id: String,
    pub content: String,
    pub hash: String,
}

/// The event to post for `text` copied on device `device_id`, or `None` when
/// the text's hash is in the cache, that is when the text was just written
/// to the clipboard from a remote event.
pub fn clipboard_event_for_text(cache: &SuppresionCache, text: &str, device_id: &str) -> (r: Option<ClipboardEvent>)
    ensures
        r is None <==> cache@.contains(spec_hash(text@)),
        r matches Some(e) ==> {
            &&& e.hash@ == spec_hash(text@)
            &&& e.content@ == text@
            &&& e.device_id@ == device_id@
        },
{
    let h = hash(text);
    if cache.contains_hash(h.as_str()) {
        return None;
    }
    Some(ClipboardEvent { hash: h, content: text.to_owned(), device_id: device_id.to_owned() })
}

/// Handles text that another device created: `None` when the text is in the
/// cache already (nothing to do); otherwise the text is recorded and its hash
/// returned, which the caller forgets again after a few seconds, once it has
/// written the text to the clipboard.
pub fn remote_text_received(cache: &mut SuppresionCache, text: String) -> (r: Option<String>)
    ensures
        old(cache)@.contains(spec_hash(text@)) ==> r is None && final(cache)@ == old(cache)@,
        !old(cache)@.contains(spec_hash(text@)) ==> {
            &&& r matches Some(h) && h@ == spec_hash(text@)
            &&& final(cache)@ == old(cache)@.insert(spec_hash(text@))
        },
{
    if cache.contains(text.as_str()) {
        return None;
    }
    Some(cache.insert(text))
}

/// The first wait after the clipboard listener fails to start, in milliseconds.
pub const INITIAL_BACKOFF_MS: u64 = 200;

/// The longest wait between attempts to start the clipboard listener, in milliseconds.
pub const MAX_BACKOFF_MS: u64 = 5000;

/// The wait after a failure that followed a wait of `delay` milliseconds:
/// twice as long, but no longer than the longest wait.
pub open spec fn next_backoff(delay: u64) -> u64 {
    if 2 * delay < MAX_BACKOFF_MS { (2 * delay) as u64 } else { MAX_BACKOFF_MS }
}

/// The wait before the next attempt to start the clipboard listener.
pub struct WatchBackoff {
    delay_ms: u64,
}

impl View for WatchBackoff {
    type V = u64;

    closed spec fn view(&self) -> u64 {
        self.delay_ms
    }
}

impl WatchBackoff {
    #[verifier::type_invariant]
    spec fn in_range(self) -> bool {
        INITIAL_BACKOFF_MS <= self.delay_ms <= MAX_BACKOFF_MS
    }

    /// Starts at the initial wait.
    pub fn new() -> (r: Self)
        ensures
            r@ == INITIAL_BACKOFF_MS,
    {
        WatchBackoff { delay_ms: INITIAL_BACKOFF_MS }
    }

    /// The current wait; always between the initial and the longest wait.
    pub fn delay_ms(&self) -> (r: u64)
        ensures
            r == self@,
            INITIAL_BACKOFF_MS <= r <= MAX_BACKOFF_MS,
    {
        proof {
            use_type_invariant(self);
        }
        self.delay_ms
    }

    /// The listener started: the next failure waits the initial time again.
    pub fn listener_started(&mut self)
        ensures
            final(self)@ == INITIAL_BACKOFF_MS,
    {
        self.delay_ms = INITIAL_BACKOFF_MS;
    }

    /// The listener failed to start: returns how long to wait, and doubles
    /// the wait for the next failure, up to the longest wait.
    pub fn listener_failed(&mut self) -> (r: u64)
        ensures
            r == old(self)@,
            final(self)@ == next_backoff(old(self)@),
    {
        proof {
            use_type_invariant(&*self);
        }
        let wait = self.delay_ms;
        let doubled = wait * 2;
        self.delay_ms = if doubled < MAX_BACKOFF_MS { doubled } else { MAX_BACKOFF_MS };
        wait
    }
}

/// Text that arrived from another device is not sent back: whether or not
/// it was in the cache before, afterwards its hash is, so the clipboard
/// watcher makes no event for it.
pub proof fn law_remote_text_is_not_echoed(cache: Set<Seq<char>>, text: Seq<char>)
    ensures
        ({
            let after = if cache.contains(spec_hash(text)) { cache } else { cache.insert(spec_hash(text)) };
            after.contains(spec_hash(text))
        }),
{
}

/// Once the hash that `remote_text_received` recorded is removed again, the
/// cache is as it was before the text arrived, so the same text copied on
/// this device is sent as usual.
pub proof fn law_suppression_ends_on_removal(cache: Set<Seq<char>>, text: Seq<char>)
    requires
        !cache.contains(spec_hash(text)),
    ensures
        cache.insert(spec_hash(text)).remove(spec_hash(text)) == cache,
        !cache.insert(spec_hash(text)).remove(spec_hash(text)).contains(spec_hash(text)),
{
    assert(cache.insert(spec_hash(text)).remove(spec_hash(text)) =~= cache);
}

/// The waits between failed attempts never shrink, and stay within bounds.
pub proof fn law_backoff_grows_within_bounds(delay: u64)
    requires
        INITIAL_BACKOFF_MS <= delay <= MAX_BACKOFF_MS,
    ensures
        delay <= next_backoff(delay),
        INITIAL_BACKOFF_MS <= next_backoff(delay) <= MAX_BACKOFF_MS,
{
}

/// From the initial wait, five failures in a row reach the longest wait,
/// which then stays.
pub proof fn law_backoff_reaches_cap()
    ensures
        next_backoff(INITIAL_BACKOFF_MS) == 400,
        next_backoff(400) == 800,
        next_backoff(800) == 1600,
        next_backoff(1600) == 3200,
        next_backoff(3200) == MAX_BACKOFF_MS,
        next_backoff(MAX_BACKOFF_MS) == MAX_BACKOFF_MS,
{
}

} // verus!
