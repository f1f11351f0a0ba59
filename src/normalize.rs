use vstd::prelude::*;

verus! {

/// A point in time, as milliseconds since 1970-01-01T00:00:00 UTC.
#[derive(Debug, Clone, Copy, PartialEq, Eq, Structural)]
pub struct UtcInstant {
    pub millis: u64,
}

impl UtcInstant {
    /// The instant `millis` milliseconds after the Unix epoch.
    pub fn from_millis(millis: u64) -> (r: UtcInstant)
        ensures
            r.millis == millis,
    {
        UtcInstant { millis }
    }

    /// Milliseconds since the Unix epoch.
    pub fn millis(&self) -> (r: u64)
        ensures
            r == self.millis,
    {
        self.millis
    }
}

/// An empty string means "not set": `None` for it, the string itself
/// otherwise.
pub fn if_not_empty(s: String) -> (r: Option<String>)
    ensures
        s@.len() == 0 ==> r is None,
        s@.len() > 0 ==> r == Some(s),
{
    if s.as_str().is_empty() {
        None
    } else {
        Some(s)
    }
}

/// A zero timestamp means "not set": `None` for it, otherwise the instant
/// `ts` milliseconds after the Unix epoch.
pub fn if_time(ts: u64) -> (r: Option<UtcInstant>)
    ensures
        ts == 0 ==> r is None,
        ts > 0 ==> r == Some((UtcInstant { millis: ts })),
{
    if ts > 0 {
        Some(UtcInstant::from_millis(ts))
    } else {
        None
    }
}

} // verus!
