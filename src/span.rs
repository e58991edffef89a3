//! Spans of time, held as whole seconds and a nanosecond remainder, as the
//! wire protocol carries them. An instant of the monotonic clock is the span
//! elapsed since a fixed origin.

use vstd::prelude::*;

verus! {

/// Nanoseconds in one second.
pub const NANOS_PER_SEC: u32 = 1_000_000_000;

/// A span of time: `secs` seconds and `nanos` nanoseconds.
#[derive(Debug, Clone, Copy, PartialEq, Eq, Structural)]
pub struct Span {
    pub secs: u64,
    pub nanos: u32,
}

/// The longest span that can be held.
pub open spec fn max_span() -> nat {
    u64::MAX as nat * 1_000_000_000 + 999_999_999
}

impl Span {
    /// The nanosecond remainder is below one second.
    pub open spec fn wf(self) -> bool {
        self.nanos < NANOS_PER_SEC
    }

    /// The length of the span in nanoseconds.
    pub open spec fn view(self) -> nat {
        self.secs as nat * 1_000_000_000 + self.nanos as nat
    }

    /// The empty span.
    pub fn zero() -> (r: Span)
        ensures
            r.wf(),
            r@ == 0,
    {
        Span { secs: 0, nanos: 0 }
    }

    /// A span of whole seconds.
    pub fn from_secs(secs: u64) -> (r: Span)
        ensures
            r.wf(),
            r@ == secs as nat * 1_000_000_000,
            r.secs == secs,
            r.nanos == 0,
    {
        Span { secs, nanos: 0 }
    }

    /// Whether this span is no longer than `other`.
    pub fn le(&self, other: &Span) -> (r: bool)
        requires
            self.wf(),
            other.wf(),
        ensures
            r == (self@ <= other@),
    {
        self.secs < other.secs || (self.secs == other.secs && self.nanos <= other.nanos)
    }

    /// The sum of two spans.
    pub fn add(&self, other: &Span) -> (r: Span)
        requires
            self.wf(),
            other.wf(),
            self@ + other@ <= max_span(),
        ensures
            r.wf(),
            r@ == self@ + other@,
    {
        let total: u32 = self.nanos + other.nanos;
        if total >= NANOS_PER_SEC {
            Span { secs: self.secs + other.secs + 1, nanos: total - NANOS_PER_SEC }
        } else {
            Span { secs: self.secs + other.secs, nanos: total }
        }
    }

    /// The sum of two spans, or `None` where it is longer than any span that
    /// can be held.
    pub fn checked_add(&self, other: &Span) -> (r: Option<Span>)
        requires
            self.wf(),
            other.wf(),
        ensures
            r is Some <==> self@ + other@ <= max_span(),
            r matches Some(v) ==> v.wf() && v@ == self@ + other@,
    {
        let total: u32 = self.nanos + other.nanos;
        let carry: u64 = if total >= NANOS_PER_SEC { 1 } else { 0 };
        if self.secs > u64::MAX - other.secs || self.secs + other.secs > u64::MAX - carry {
            None
        } else {
            Some(self.add(other))
        }
    }

    /// The span from `other` to `self`, or the empty span where `other` is
    /// the longer one.
    pub fn saturating_sub(&self, other: &Span) -> (r: Span)
        requires
            self.wf(),
            other.wf(),
        ensures
            r.wf(),
            r@ == if self@ >= other@ { self@ - other@ } else { 0 },
    {
        if self.le(other) {
            Span { secs: 0, nanos: 0 }
        } else if self.nanos >= other.nanos {
            Span { secs: self.secs - other.secs, nanos: self.nanos - other.nanos }
        } else {
            Span {
                secs: self.secs - other.secs - 1,
                nanos: NANOS_PER_SEC - other.nanos + self.nanos,
            }
        }
    }
}

} // verus!
