use vstd::prelude::*;

verus! {

/// An instant: whole seconds since 1970-01-01T00:00:00Z, and the nanoseconds
/// that follow them.
#[derive(Clone, Copy, Debug, PartialEq, Eq, Structural)]
pub struct Timestamp {
    pub seconds: i64,
    pub nanos: u32,
}

impl Timestamp {
    /// Whether this instant is `other` or comes before it: by the seconds,
    /// and among equal seconds by the nanoseconds.
    pub open spec fn at_or_before(self, other: Timestamp) -> bool {
        self.seconds < other.seconds || (self.seconds == other.seconds && self.nanos <= other.nanos)
    }

    /// Whether this instant comes after `other`.
    pub open spec fn after(self, other: Timestamp) -> bool {
        !self.at_or_before(other)
    }

    /// Whether this instant comes after `other`.
    pub fn is_after(&self, other: &Timestamp) -> (res: bool)
        ensures
            res == self.after(*other),
    {
        self.seconds > other.seconds || (self.seconds == other.seconds && self.nanos > other.nanos)
    }

    /// The later of two instants; `self` where they are the same.
    pub fn latest(self, other: Timestamp) -> (res: Timestamp)
        ensures
            res == later_of(self, other),
    {
        if other.is_after(&self) {
            other
        } else {
            self
        }
    }

    /// The instant as RFC 3339 text in UTC, where it has one.
    pub fn to_rfc3339(&self) -> (text: Option<String>)
        ensures
            text is Some == rfc3339_text(self.seconds, self.nanos) is Some,
            text matches Some(t) ==> rfc3339_text(self.seconds, self.nanos) == Some(t@),
    {
        rfc3339(self.seconds, self.nanos)
    }
}

/// The later of two instants; the first where they are the same.
pub open spec fn later_of(a: Timestamp, b: Timestamp) -> Timestamp {
    if b.after(a) {
        b
    } else {
        a
    }
}

/// The RFC 3339 text, in UTC and with a `Z`, of the instant that lies
/// `seconds` and `nanos` after 1970-01-01T00:00:00Z, as the chrono crate
/// writes it; nothing where chrono has no such instant, because the seconds
/// lie outside its calendar or the nanoseconds do not fit a second.
pub uninterp spec fn rfc3339_text(seconds: i64, nanos: u32) -> Option<Seq<char>>;

/// `chrono::DateTime::<Utc>::from_timestamp`, and on what it gives
/// `chrono::DateTime::to_rfc3339_opts` with `SecondsFormat::AutoSi` and a `Z`
/// for UTC. Nothing is proved of either. The contract only names the text,
/// which depends on nothing but the two numbers; it says neither what the
/// text holds nor for which numbers there is one.
#[verifier::external_body]
fn rfc3339(seconds: i64, nanos: u32) -> (text: Option<String>)
    ensures
        text is Some == rfc3339_text(seconds, nanos) is Some,
        text matches Some(t) ==> rfc3339_text(seconds, nanos) == Some(t@),
{
    match chrono::DateTime::<chrono::Utc>::from_timestamp(seconds, nanos) {
        Some(instant) => Some(instant.to_rfc3339_opts(chrono::SecondsFormat::AutoSi, true)),
        None => None,
    }
}

/// Instants are ordered in a line: of any two, one is at or before the
/// other; two that are each at or before the other are the same; and the
/// order carries over a third.
pub proof fn lemma_timestamp_order(a: Timestamp, b: Timestamp, c: Timestamp)
    ensures
        a.at_or_before(b) || b.at_or_before(a),
        a.at_or_before(b) && b.at_or_before(a) ==> a == b,
        a.at_or_before(b) && b.at_or_before(c) ==> a.at_or_before(c),
        a.at_or_before(later_of(a, b)) && b.at_or_before(later_of(a, b)),
{
}

} // verus!
