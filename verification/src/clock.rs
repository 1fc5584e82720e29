use vstd::prelude::*;

verus! {

/// Latest second that the calendar of the time library can represent
/// (262142-12-31T23:59:59 UTC).
pub const MAX_TIMESTAMP_SECS: i64 = 8_210_266_876_799;

/// Earliest second that the calendar of the time library can represent
/// (-262143-01-01T00:00:00 UTC).
pub const MIN_TIMESTAMP_SECS: i64 = -8_334_601_315_200;

/// Seconds in a day.
pub const SECS_PER_DAY: i64 = 86_400;

/// A UTC instant: whole seconds since the Unix epoch and the nanoseconds past that second.
#[derive(Debug, Clone, Copy, PartialEq, Eq, Structural)]
pub struct Timestamp {
    pub secs: i64,
    pub nanos: u32,
}

impl Timestamp {
    /// The instant lies in the representable calendar and its sub-second part is below one second.
    pub open spec fn wf(self) -> bool {
        &&& MIN_TIMESTAMP_SECS <= self.secs <= MAX_TIMESTAMP_SECS
        &&& self.nanos < 1_000_000_000
    }

    /// Strictly earlier than `other`.
    pub open spec fn spec_before(self, other: Timestamp) -> bool {
        ||| self.secs < other.secs
        ||| (self.secs == other.secs && self.nanos < other.nanos)
    }

    /// The instant `delta` seconds later, when the calendar can represent it.
    pub open spec fn spec_plus_secs(self, delta: int) -> Option<Timestamp> {
        if MIN_TIMESTAMP_SECS <= self.secs + delta <= MAX_TIMESTAMP_SECS {
            Some(Timestamp { secs: (self.secs + delta) as i64, nanos: self.nanos })
        } else {
            None
        }
    }

    /// Is `self` strictly earlier than `other`?
    pub fn is_before(&self, other: &Timestamp) -> (b: bool)
        ensures
            b == self.spec_before(*other),
            self.secs < other.secs ==> b,
            b ==> self.secs <= other.secs,
            self.secs == other.secs ==> (b <==> self.nanos < other.nanos),
    {
        self.secs < other.secs || (self.secs == other.secs && self.nanos < other.nanos)
    }

    /// The instant `delta` seconds later; `None` past the end of the calendar,
    /// where adding a duration to a date-time fails.
    pub fn checked_plus_secs(&self, delta: i64) -> (r: Option<Timestamp>)
        requires
            self.wf(),
        ensures
            r == self.spec_plus_secs(delta as int),
            r matches Some(t) ==> t.wf(),
    {
        match self.secs.checked_add(delta) {
            Some(secs) => {
                if MIN_TIMESTAMP_SECS <= secs && secs <= MAX_TIMESTAMP_SECS {
                    Some(Timestamp { secs, nanos: self.nanos })
                } else {
                    None
                }
            },
            None => None,
        }
    }
}

/// Instants are ordered by their seconds first: an instant whose second is
/// earlier is before, one whose second is later never is, and within the same
/// second the nanoseconds decide.
pub proof fn lemma_before_orders_seconds_first(a: Timestamp, b: Timestamp)
    ensures
        a.secs < b.secs ==> a.spec_before(b) && !b.spec_before(a),
        a.spec_before(b) ==> a.secs <= b.secs,
        a.secs == b.secs ==> (a.spec_before(b) <==> a.nanos < b.nanos),
{
}

/// "Before" is a strict total order on instants: never reflexive, never both
/// ways, transitive, and any two different instants are ordered.
pub proof fn lemma_before_is_strict_total_order(a: Timestamp, b: Timestamp, c: Timestamp)
    ensures
        !a.spec_before(a),
        a.spec_before(b) ==> !b.spec_before(a),
        a.spec_before(b) && b.spec_before(c) ==> a.spec_before(c),
        a != b ==> a.spec_before(b) || b.spec_before(a),
{
}

/// The current UTC instant from the system clock (`chrono::Utc::now`), split into
/// its Unix seconds and sub-second nanoseconds.
/// The contract claims only what holds of every reading: the clock is at or
/// after the Unix epoch (the call panics otherwise) and within the calendar's
/// range (the call panics otherwise). Which instant comes back is not stated.
#[verifier::external_body]
pub(crate) fn now_utc() -> (t: Timestamp)
    ensures
        t.wf(),
        t.secs >= 0,
{
    let now = chrono::Utc::now();
    Timestamp { secs: now.timestamp(), nanos: now.timestamp_subsec_nanos() }
}

} // verus!
