//! Window samples and the events built from them.
use vstd::prelude::*;
use vstd::string::*;
use crate::clock::now_millis;
use crate::text::{join_text, joined_text, truncate_title, truncated};

verus! {

/// What the focus query reports: the focused application's name, its
/// window title and the window's position and size.
pub struct RawWindowSample {
    pub app_name: String,
    pub title: String,
    pub x: i64,
    pub y: i64,
    pub width: i64,
    pub height: i64,
}

/// The event that the window sampler emits.
#[derive(Debug)]
pub struct ActiveApplicationEvent {
    /// Milliseconds since the Unix epoch at which the sample was accepted.
    pub t: i64,
    pub name: String,
    pub title: String,
    pub x: i64,
    pub y: i64,
    pub width: i64,
    pub height: i64,
    /// `name` and `title` joined by a space, then trimmed.
    pub text: String,
}

impl ActiveApplicationEvent {
    /// A copy of the event.
    pub fn duplicate(&self) -> (r: Self)
        ensures
            r == *self,
    {
        ActiveApplicationEvent {
            t: self.t,
            name: self.name.clone(),
            title: self.title.clone(),
            x: self.x,
            y: self.y,
            width: self.width,
            height: self.height,
            text: self.text.clone(),
        }
    }
}

/// A sample is kept only when it names an application.
pub open spec fn accepts(raw: RawWindowSample) -> bool {
    raw.app_name@.len() > 0
}

/// The text that an event built from `raw` carries.
pub open spec fn text_of(raw: RawWindowSample) -> Seq<char> {
    joined_text(raw.app_name@, truncated(raw.title@))
}

/// `e` is the event built from `raw` at time `t`.
pub open spec fn is_event_of(e: ActiveApplicationEvent, raw: RawWindowSample, t: i64) -> bool {
    &&& e.t == t
    &&& e.name@ == raw.app_name@
    &&& e.title@ == truncated(raw.title@)
    &&& e.x == raw.x
    &&& e.y == raw.y
    &&& e.width == raw.width
    &&& e.height == raw.height
    &&& e.text@ == text_of(raw)
}

/// Normalizes a sample taken at time `t`: a sample with an empty
/// application name gives no event; otherwise the title is truncated and
/// the text derived.
pub fn build_event(raw: RawWindowSample, t: i64) -> (r: Option<ActiveApplicationEvent>)
    ensures
        r is Some <==> accepts(raw),
        r matches Some(e) ==> is_event_of(e, raw, t),
{
    if raw.app_name.as_str().unicode_len() == 0 {
        return None;
    }
    let title = truncate_title(raw.title.as_str());
    let text = join_text(raw.app_name.as_str(), title.as_str());
    Some(
        ActiveApplicationEvent {
            t,
            name: raw.app_name,
            title,
            x: raw.x,
            y: raw.y,
            width: raw.width,
            height: raw.height,
            text,
        },
    )
}

/// Normalizes a focus-query result, stamping an accepted sample with the
/// current time; a failed query or an empty application name gives none.
pub fn check_application(raw: Option<RawWindowSample>) -> (r: Option<ActiveApplicationEvent>)
    ensures
        r is Some <==> (raw matches Some(s) && accepts(s)),
        r matches Some(e) ==> is_event_of(e, raw->Some_0, e.t),
{
    match raw {
        None => None,
        Some(s) => {
            if s.app_name.as_str().unicode_len() == 0 {
                return None;
            }
            let t = now_millis();
            build_event(s, t)
        },
    }
}

} // verus!
