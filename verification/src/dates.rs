//! Sorting by date: a file goes to the folder of the year in which it first
//! existed, as far as its timestamps tell.

use vstd::prelude::*;
use chrono::{DateTime, Datelike, Utc};
use crate::text::{decimal, decimal_text, lemma_decimal_text_not_empty};

verus! {

/// A point in time: whole seconds since the start of 1970 in UTC (negative
/// before it), and the nanoseconds into that second.
#[derive(Debug, Clone, Copy, PartialEq, Eq)]
pub struct Timestamp {
    secs: i64,
    nanos: u32,
}

/// The two timestamps that a file system keeps of a file.
#[derive(Debug, Clone, Copy, PartialEq, Eq)]
pub struct FileTimes {
    pub created: Timestamp,
    pub modified: Timestamp,
}

impl Timestamp {
    /// Validity: the nanoseconds stay within one second.
    #[verifier::type_invariant]
    pub open spec fn wf(&self) -> bool {
        self.nanos() < 1_000_000_000
    }

    /// The whole seconds since the start of 1970.
    pub closed spec fn secs(&self) -> i64 {
        self.secs
    }

    /// The nanoseconds into the second.
    pub closed spec fn nanos(&self) -> u32 {
        self.nanos
    }

    /// The nanoseconds between the start of 1970 and this point in time.
    pub open spec fn instant(&self) -> int {
        self.secs() * 1_000_000_000 + self.nanos()
    }

    /// The timestamp `nanos` nanoseconds after the whole second `secs`, if
    /// `nanos` is less than a second.
    pub fn new(secs: i64, nanos: u32) -> (made: Option<Timestamp>)
        ensures
            made is Some <==> nanos < 1_000_000_000,
            made matches Some(t) ==> t.wf() && t.secs() == secs && t.nanos() == nanos,
    {
        if nanos < 1_000_000_000 {
            Some(Timestamp { secs, nanos })
        } else {
            None
        }
    }

    /// The whole seconds since the start of 1970.
    #[verifier::when_used_as_spec(secs)]
    pub fn whole_seconds(&self) -> (secs: i64)
        ensures
            secs == self.secs(),
    {
        self.secs
    }

    /// The nanoseconds into the second.
    #[verifier::when_used_as_spec(nanos)]
    pub fn subsec_nanos(&self) -> (nanos: u32)
        ensures
            nanos == self.nanos(),
    {
        self.nanos
    }

    /// Whether this point in time lies before `other`.
    pub fn is_before(&self, other: &Timestamp) -> (before: bool)
        ensures
            before == (self.instant() < other.instant()),
    {
        proof {
            use_type_invariant(self);
            use_type_invariant(other);
        }
        self.secs < other.secs || (self.secs == other.secs && self.nanos < other.nanos)
    }
}

/// The earlier of two points in time; the second where they coincide.
pub open spec fn earlier_of(a: Timestamp, b: Timestamp) -> Timestamp {
    if a.instant() < b.instant() {
        a
    } else {
        b
    }
}

/// The calendar year, in UTC, of the point in time `nanos` nanoseconds after
/// the whole second `secs`, as `chrono` computes it; `None` where `chrono`
/// has no date for it. It depends on the two numbers alone.
pub uninterp spec fn utc_year_of(secs: i64, nanos: u32) -> Option<i32>;

/// Asks `chrono` for the year: `DateTime::<Utc>::from_timestamp` makes the
/// date, which is `None` for a point in time outside the range `chrono`
/// covers, and `Datelike::year` reads its year. Nothing is proved of these
/// calls: the contract only gives the result its name, `utc_year_of`.
#[verifier::external_body]
fn utc_year(secs: i64, nanos: u32) -> (year: Option<i32>)
    ensures
        year == utc_year_of(secs, nanos),
{
    match DateTime::<Utc>::from_timestamp(secs, nanos) {
        Some(date) => Some(date.year()),
        None => None,
    }
}

impl FileTimes {
    /// The year to file under: that of the earlier of the two timestamps.
    pub open spec fn effective_year_spec(&self) -> Option<i32> {
        let first = earlier_of(self.created, self.modified);
        utc_year_of(first.secs(), first.nanos())
    }

    /// The earlier of the creation and the modification time.
    pub fn earliest(&self) -> (first: Timestamp)
        ensures
            first == earlier_of(self.created, self.modified),
    {
        if self.created.is_before(&self.modified) {
            self.created
        } else {
            self.modified
        }
    }

    /// The year of the earlier of the two timestamps, or `None` where that
    /// point in time has no calendar date.
    pub fn effective_year(&self) -> (year: Option<i32>)
        ensures
            year == self.effective_year_spec(),
    {
        let first = self.earliest();
        utc_year(first.whole_seconds(), first.subsec_nanos())
    }
}

/// The name of the folder for a year: the year in decimal.
pub fn year_folder(year: i32) -> (folder: String)
    ensures
        folder@ == decimal_text(year as int),
        folder@.len() > 0,
{
    proof {
        lemma_decimal_text_not_empty(year as int);
    }
    decimal(year)
}

/// The earlier date wins whichever of the two timestamps it is: exchanging
/// creation and modification time changes neither the earlier timestamp nor
/// the year.
pub proof fn law_earlier_date_wins(a: Timestamp, b: Timestamp)
    requires
        a.wf(),
        b.wf(),
    ensures
        earlier_of(a, b) == earlier_of(b, a),
        earlier_of(a, b).instant() <= a.instant(),
        earlier_of(a, b).instant() <= b.instant(),
        (FileTimes { created: a, modified: b }).effective_year_spec() == (FileTimes {
            created: b,
            modified: a,
        }).effective_year_spec(),
{
    if a.instant() == b.instant() {
        assert(a.secs() == b.secs() && a.nanos() == b.nanos()) by (nonlinear_arith)
            requires
                a.secs() * 1_000_000_000 + a.nanos() == b.secs() * 1_000_000_000 + b.nanos(),
                0 <= a.nanos() < 1_000_000_000,
                0 <= b.nanos() < 1_000_000_000,
        ;
    }
}

} // verus!
