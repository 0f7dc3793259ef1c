//! Points in time and the texts they are written as.

use vstd::prelude::*;

verus! {

/// The text of a point in time without its zone, as `chrono` writes a
/// `NaiveDateTime`.
pub uninterp spec fn plain_text(seconds: i64, nanos: u32) -> Seq<char>;

/// The RFC 3339 text of a point in time, as `chrono` writes it.
pub uninterp spec fn rfc3339_text(seconds: i64, nanos: u32) -> Seq<char>;

/// `chrono` can hold the point in time: its year is from -262143 to 262142, and
/// only the last second of a minute can be a leap second.
pub open spec fn is_moment(seconds: int, nanos: int) -> bool {
    &&& -8_334_601_228_800 <= seconds <= 8_210_266_876_799
    &&& 0 <= nanos < 2_000_000_000
    &&& nanos >= 1_000_000_000 ==> seconds % 60 == 59
}

/// A text that ends in the offset of UTC, as every RFC 3339 text of a UTC time
/// does here.
pub open spec fn is_utc_stamp(text: Seq<char>) -> bool {
    text.len() >= 25 && text.skip(text.len() - 6) == "+00:00"@
}

/// A point in time: seconds since 1970 and nanoseconds into the second, a
/// billion and more of them in a leap second.
pub struct Moment {
    seconds: i64,
    nanos: u32,
}

impl Moment {
    #[verifier::type_invariant]
    spec fn holds(self) -> bool {
        is_moment(self.seconds as int, self.nanos as int)
    }

    pub closed spec fn seconds_view(self) -> i64 {
        self.seconds
    }

    pub closed spec fn nanos_view(self) -> u32 {
        self.nanos
    }

    pub fn new(seconds: i64, nanos: u32) -> (res: Option<Moment>)
        ensures
            res is Some <==> is_moment(seconds as int, nanos as int),
            res matches Some(m) ==> m.seconds_view() == seconds && m.nanos_view() == nanos,
    {
        if -8_334_601_228_800 <= seconds && seconds <= 8_210_266_876_799 && nanos < 2_000_000_000
            && (nanos < 1_000_000_000 || (seconds + 8_334_601_228_800) % 60 == 59) {
            Some(Moment { seconds, nanos })
        } else {
            None
        }
    }

    /// The text of this moment without a zone.
    pub fn plain(&self) -> (text: String)
        ensures
            text@ == plain_text(self.seconds_view(), self.nanos_view()),
    {
        proof {
            use_type_invariant(self);
        }
        naive_to_string(self.seconds, self.nanos)
    }

    /// The RFC 3339 text of this moment.
    pub fn rfc3339(&self) -> (text: String)
        ensures
            text@ == rfc3339_text(self.seconds_view(), self.nanos_view()),
            is_utc_stamp(text@),
    {
        proof {
            use_type_invariant(self);
        }
        to_rfc3339(self.seconds, self.nanos)
    }
}

/// `chrono::NaiveDateTime::to_string`. The text depends on the point in time
/// alone; how the calendar lays it out is not stated.
#[verifier::external_body]
fn naive_to_string(seconds: i64, nanos: u32) -> (text: String)
    requires
        is_moment(seconds as int, nanos as int),
    ensures
        text@ == plain_text(seconds, nanos),
{
    chrono::DateTime::from_timestamp(seconds, nanos).unwrap().naive_utc().to_string()
}

/// `chrono::DateTime::<Utc>::to_rfc3339`. The text depends on the point in time
/// alone and ends in the offset of UTC; how the calendar lays out the rest is
/// not stated.
#[verifier::external_body]
fn to_rfc3339(seconds: i64, nanos: u32) -> (text: String)
    requires
        is_moment(seconds as int, nanos as int),
    ensures
        text@ == rfc3339_text(seconds, nanos),
        is_utc_stamp(text@),
{
    chrono::DateTime::from_timestamp(seconds, nanos).unwrap().to_rfc3339()
}

/// `chrono::Utc::now` as an RFC 3339 text. The clock decides which: all that is
/// said is that the text ends in the offset of UTC. A clock set before 1970 is
/// a panic in `chrono`.
#[verifier::external_body]
pub(crate) fn now() -> (text: String)
    ensures
        is_utc_stamp(text@),
{
    chrono::Utc::now().to_rfc3339()
}

} // verus!
