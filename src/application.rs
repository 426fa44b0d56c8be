//! The window agent: one trigger in, at most one event out.
use vstd::prelude::*;
use crate::detector::{ChangeDetector, duplicate_sample, lemma_duplicate_of_sample};
use crate::filter::{ignored, is_ignored};
use crate::window::{
    ActiveApplicationEvent,
    RawWindowSample,
    accepts,
    check_application,
    is_event_of,
};

verus! {

/// Whether the window agent emits nothing for an accepted sample: it
/// repeats the retained event while repeats are skipped, or its
/// application is on the block-list.
pub open spec fn suppressed(
    last: Option<ActiveApplicationEvent>,
    raw: RawWindowSample,
    skip_unchanged: bool,
    ignore_list: Seq<char>,
) -> bool {
    (skip_unchanged && duplicate_sample(last, raw)) || ignored(raw.app_name@, ignore_list)
}

/// How one accepted sample `s` moves the retained event from `last` to
/// `now` and what is emitted: the detector retains the new event unless it
/// is a duplicate, and the event is emitted unless `suppressed` holds.
pub open spec fn handled(
    last: Option<ActiveApplicationEvent>,
    now: Option<ActiveApplicationEvent>,
    s: RawWindowSample,
    skip_unchanged: bool,
    ignore_list: Seq<char>,
    r: Option<ActiveApplicationEvent>,
) -> bool {
    &&& if duplicate_sample(last, s) {
        now == last
    } else {
        now matches Some(e) && is_event_of(e, s, e.t)
    }
    &&& r is None <==> suppressed(last, s, skip_unchanged, ignore_list)
    &&& r matches Some(e) ==> is_event_of(e, s, e.t) && (!duplicate_sample(last, s) ==> now == r)
}

/// The state that the window agent keeps between triggers.
pub struct ActiveApplicationAgent {
    pub detector: ChangeDetector,
}

impl ActiveApplicationAgent {
    /// An agent that has seen no sample.
    pub fn new() -> (r: Self)
        ensures
            r.detector.retained() is None,
    {
        ActiveApplicationAgent { detector: ChangeDetector::new() }
    }

    /// Handles one trigger, given what the focus query returned.
    ///
    /// A failed query or an empty application name emits nothing and leaves
    /// the detector alone. Otherwise the detector sees the sample (it
    /// retains it unless it is a duplicate), and the event is emitted unless
    /// `suppressed` holds.
    pub fn process(
        &mut self,
        raw: Option<RawWindowSample>,
        skip_unchanged: bool,
        ignore_list: &str,
    ) -> (r: Option<ActiveApplicationEvent>)
        ensures
            !(raw matches Some(s) && accepts(s)) ==> r is None && final(self).detector.retained()
                == old(self).detector.retained(),
            raw matches Some(s) ==> (accepts(s) ==> handled(
                old(self).detector.retained(),
                final(self).detector.retained(),
                s,
                skip_unchanged,
                ignore_list@,
                r,
            )),
    {
        let ghost last = self.detector.retained();
        let ghost sample = raw;
        let event = match check_application(raw) {
            None => return None,
            Some(e) => e,
        };
        let duplicate = self.detector.is_duplicate(&event);
        proof {
            lemma_duplicate_of_sample(last, event, sample->Some_0, event.t);
        }
        if skip_unchanged && duplicate {
            return None;
        }
        if is_ignored(event.name.as_str(), ignore_list) {
            return None;
        }
        Some(event)
    }
}

} // verus!
