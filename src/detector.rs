//! The change detector: remembers the last distinct window event and
//! reports whether a new one repeats it.
use vstd::prelude::*;
use crate::window::{ActiveApplicationEvent, RawWindowSample, is_event_of, text_of};

verus! {

/// Two events are the same sample when position, size and text agree;
/// the timestamp is not compared.
pub open spec fn same_sample(a: ActiveApplicationEvent, b: ActiveApplicationEvent) -> bool {
    &&& a.x == b.x
    &&& a.y == b.y
    &&& a.width == b.width
    &&& a.height == b.height
    &&& a.text@ == b.text@
}

/// Whether `e` repeats the retained event `last`.
pub open spec fn duplicate_of(last: Option<ActiveApplicationEvent>, e: ActiveApplicationEvent) -> bool {
    match last {
        Some(l) => same_sample(l, e),
        None => false,
    }
}

/// What the detector retains after seeing `e`: `e` itself unless it is a
/// duplicate.
pub open spec fn retained_after(
    last: Option<ActiveApplicationEvent>,
    e: ActiveApplicationEvent,
) -> Option<ActiveApplicationEvent> {
    if duplicate_of(last, e) {
        last
    } else {
        Some(e)
    }
}

/// Whether an event built from `raw` would repeat `last`, whatever its time.
pub open spec fn duplicate_sample(last: Option<ActiveApplicationEvent>, raw: RawWindowSample) -> bool {
    match last {
        Some(l) => l.x == raw.x && l.y == raw.y && l.width == raw.width && l.height == raw.height
            && l.text@ == text_of(raw),
        None => false,
    }
}

/// Whether an event repeats the retained one depends on its sample alone.
pub proof fn lemma_duplicate_of_sample(
    last: Option<ActiveApplicationEvent>,
    e: ActiveApplicationEvent,
    raw: RawWindowSample,
    t: i64,
)
    requires
        is_event_of(e, raw, t),
    ensures
        duplicate_of(last, e) == duplicate_sample(last, raw),
{
}

/// A fresh detector judges no sample a duplicate, whatever its fields.
pub proof fn lemma_first_never_duplicate(e: ActiveApplicationEvent)
    ensures
        !duplicate_of(None, e),
        retained_after(None, e) == Some(e),
{
}

/// After any sample has been seen, a sample with the same position, size
/// and text is a duplicate, and it leaves the detector as it was; so every
/// repetition after the first is reported, however long the run.
pub proof fn lemma_repeat_is_duplicate(
    last: Option<ActiveApplicationEvent>,
    a: ActiveApplicationEvent,
    b: ActiveApplicationEvent,
)
    requires
        same_sample(a, b),
    ensures
        duplicate_of(retained_after(last, a), b),
        retained_after(retained_after(last, a), b) == retained_after(last, a),
{
}

/// Holds the most recently accepted distinct event.
pub struct ChangeDetector {
    last_event: Option<ActiveApplicationEvent>,
}

impl ChangeDetector {
    /// The retained event, if any.
    pub closed spec fn retained(&self) -> Option<ActiveApplicationEvent> {
        self.last_event
    }

    /// A detector that has seen nothing.
    pub fn new() -> (r: Self)
        ensures
            r.retained() is None,
    {
        ChangeDetector { last_event: None }
    }

    /// The retained event, if any.
    pub fn last_event(&self) -> (r: &Option<ActiveApplicationEvent>)
        ensures
            *r == self.retained(),
    {
        &self.last_event
    }

    /// Whether `candidate` repeats the retained event; when it does not, it
    /// becomes the retained event.
    pub fn is_duplicate(&mut self, candidate: &ActiveApplicationEvent) -> (r: bool)
        ensures
            r == duplicate_of(old(self).retained(), *candidate),
            final(self).retained() == retained_after(old(self).retained(), *candidate),
    {
        if let Some(last) = &self.last_event {
            if candidate.x == last.x && candidate.y == last.y && candidate.width == last.width
                && candidate.height == last.height && candidate.text == last.text {
                return true;
            }
        }
        self.last_event = Some(candidate.duplicate());
        false
    }
}

} // verus!
