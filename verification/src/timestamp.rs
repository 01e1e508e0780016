//! Logical timestamps and the text in which they travel with an object.
//!
//! A timestamp is a 64-bit NTP time and the identifier of the clock that
//! issued it. The text form is that of uhlc, which zenoh uses: the time in
//! RFC 3339, a `/`, and the identifier in hexadecimal.

use std::str::FromStr;
use vstd::prelude::*;
use vstd::string::*;
use zenoh::time::TimestampId;
use zenoh::time::NTP64;

verus! {

/// The text that uhlc writes for a timestamp: what `Timestamp::to_string`
/// returns for the time `time` and the identifier `id`.
pub uninterp spec fn timestamp_text(time: u64, id: u128) -> Seq<char>;

/// The time and the identifier that uhlc reads from a text, if it reads any:
/// what `Timestamp::from_str` returns.
pub uninterp spec fn timestamp_parse(text: Seq<char>) -> Option<(u64, u128)>;

/// The last moment that a 64-bit NTP time can hold, written as a text names
/// a moment: 2^32 - 1 seconds after the beginning of 1970.
pub const LAST_MOMENT: &'static str = "2106-02-07T06:28:15";

/// `c` is one of the digits `0` to `9`.
pub open spec fn is_digit(c: char) -> bool {
    '0' <= c && c <= '9'
}

/// `c` may stand at place `at` of a moment written as
/// `yyyy-mm-ddThh:mm:ss`.
pub open spec fn fits_moment(at: int, c: char) -> bool {
    if at == 4 || at == 7 {
        c == '-'
    } else if at == 10 {
        c == 'T'
    } else if at == 13 || at == 16 {
        c == ':'
    } else {
        is_digit(c)
    }
}

/// The text begins with a moment: its first nineteen characters are written
/// as `yyyy-mm-ddThh:mm:ss`.
pub open spec fn begins_with_moment(text: Seq<char>) -> bool {
    text.len() >= 19 && forall|at: int| 0 <= at < 19 ==> fits_moment(at, #[trigger] text[at])
}

/// `text` and `other` agree before place `at` and differ there.
pub open spec fn first_difference(text: Seq<char>, other: Seq<char>, at: int) -> bool {
    &&& 0 <= at < text.len()
    &&& at < other.len()
    &&& text[at] != other[at]
    &&& forall|before: int| 0 <= before < at ==> #[trigger] text[before] == other[before]
}

/// The first nineteen characters of the text come after [`LAST_MOMENT`]: at
/// the first place where the two differ, the text has the greater character.
/// Of two moments the later one is the one that comes after the other.
pub open spec fn is_past_last_moment(text: Seq<char>) -> bool {
    exists|at: int|
        at < 19 && #[trigger] first_difference(text, LAST_MOMENT@, at) && text[at] > LAST_MOMENT@[at]
}

/// The text does not begin with a moment after [`LAST_MOMENT`].
pub open spec fn within_clock_range(text: Seq<char>) -> bool {
    !(begins_with_moment(text) && is_past_last_moment(text))
}

/// The timestamp that a text stands for: what uhlc reads from it. A text
/// that begins with a moment after [`LAST_MOMENT`] stands for none: there is
/// no timestamp of such a moment, and uhlc reads none from it.
pub open spec fn parse_spec(text: Seq<char>) -> Option<(u64, u128)> {
    if within_clock_range(text) {
        timestamp_parse(text)
    } else {
        None
    }
}

/// Builds a uhlc timestamp from `time` and `id` and calls its `to_string`.
///
/// uhlc has no identifier zero, hence the precondition. The text is a
/// function of the two numbers alone: the time is written in UTC.
#[verifier::external_body]
fn uhlc_to_string(time: u64, id: u128) -> (res: String)
    requires
        id != 0,
    ensures
        res@ == timestamp_text(time, id),
{
    match TimestampId::try_from(id) {
        Ok(id) => zenoh::time::Timestamp::new(NTP64(time), id).to_string(),
        Err(_) => String::new(),
    }
}

/// Calls uhlc's `Timestamp::from_str` and hands back the time and the
/// identifier of what it read.
///
/// uhlc reads the time with humantime and then stops the process if the
/// seconds since 1970 do not fit in 32 bits, that is if the moment is after
/// [`LAST_MOMENT`]. humantime reads the moment from the first nineteen
/// characters and refuses a text in which they are not written as
/// `yyyy-mm-ddThh:mm:ss`, so the precondition leaves out every text on which
/// uhlc stops. On the other texts that it leaves out uhlc reads nothing. An
/// identifier that uhlc has read is never zero.
#[verifier::external_body]
fn uhlc_from_str(text: &str) -> (res: Option<(u64, u128)>)
    requires
        within_clock_range(text@),
    ensures
        res == timestamp_parse(text@),
        res matches Some((_, id)) ==> id != 0,
{
    match zenoh::time::Timestamp::from_str(text) {
        Ok(ts) => Some((ts.get_time().as_u64(), u128::from_le_bytes(ts.get_id().to_le_bytes()))),
        Err(_) => None,
    }
}

/// A logical timestamp: totally ordered by time, then by identifier.
#[derive(Clone, Copy, Debug, PartialEq, Eq)]
pub struct Timestamp {
    time: u64,
    id: u128,
}

impl View for Timestamp {
    type V = (u64, u128);

    closed spec fn view(&self) -> (u64, u128) {
        (self.time, self.id)
    }
}

/// Whether `c` may stand at place `at` of a moment.
fn fits(at: usize, c: char) -> (res: bool)
    ensures
        res == fits_moment(at as int, c),
{
    if at == 4 || at == 7 {
        c == '-'
    } else if at == 10 {
        c == 'T'
    } else if at == 13 || at == 16 {
        c == ':'
    } else {
        '0' <= c && c <= '9'
    }
}

/// Whether `text` does not begin with a moment after [`LAST_MOMENT`].
pub fn is_within_clock_range(text: &str) -> (res: bool)
    ensures
        res == within_clock_range(text@),
{
    proof {
        reveal_strlit("2106-02-07T06:28:15");
    }
    if text.unicode_len() < 19 {
        return true;
    }
    let mut at: usize = 0;
    while at < 19
        invariant
            at <= 19,
            text@.len() >= 19,
            forall|k: int| 0 <= k < at ==> fits_moment(k, #[trigger] text@[k]),
        decreases 19 - at,
    {
        if !fits(at, text.get_char(at)) {
            return true;
        }
        at = at + 1;
    }
    let mut at: usize = 0;
    while at < 19
        invariant
            at <= 19,
            text@.len() >= 19,
            LAST_MOMENT@.len() == 19,
            begins_with_moment(text@),
            forall|k: int| 0 <= k < at ==> #[trigger] text@[k] == LAST_MOMENT@[k],
        decreases 19 - at,
    {
        let c = text.get_char(at);
        let last = LAST_MOMENT.get_char(at);
        if c != last {
            proof {
                assert(first_difference(text@, LAST_MOMENT@, at as int));
                assert forall|other: int|
                    other < 19 && #[trigger] first_difference(
                        text@,
                        LAST_MOMENT@,
                        other,
                    ) implies other == at by {
                    if other < at {
                        assert(text@[other] == LAST_MOMENT@[other]);
                    } else if other > at {
                        assert(text@[at as int] == LAST_MOMENT@[at as int]);
                    }
                }
            }
            return c < last;
        }
        at = at + 1;
    }
    proof {
        assert forall|other: int| other < 19 implies !#[trigger] first_difference(
            text@,
            LAST_MOMENT@,
            other,
        ) by {
            if 0 <= other {
                assert(text@[other] == LAST_MOMENT@[other]);
            }
        }
    }
    true
}

impl Timestamp {
    #[verifier::type_invariant]
    spec fn well_formed(&self) -> bool {
        self.id != 0
    }

    /// The timestamp of `time` issued by the clock `id`. There is no clock
    /// zero.
    pub fn new(time: u64, id: u128) -> (res: Option<Timestamp>)
        ensures
            res is Some <==> id != 0,
            res matches Some(ts) ==> ts@ == (time, id),
    {
        if id == 0 {
            None
        } else {
            Some(Timestamp { time, id })
        }
    }

    /// The 64-bit NTP time.
    pub fn time(&self) -> (res: u64)
        ensures
            res == self@.0,
    {
        self.time
    }

    /// The identifier of the clock, which is not zero.
    pub fn id(&self) -> (res: u128)
        ensures
            res == self@.1,
            res != 0,
    {
        proof {
            use_type_invariant(self);
        }
        self.id
    }

    /// The text in which the timestamp is kept with an object.
    pub fn to_text(&self) -> (res: String)
        ensures
            res@ == timestamp_text(self@.0, self@.1),
    {
        proof {
            use_type_invariant(self);
        }
        uhlc_to_string(self.time, self.id)
    }

    /// Reads a timestamp from the text kept with an object.
    pub fn parse(text: &str) -> (res: Option<Timestamp>)
        ensures
            (match res {
                Some(ts) => parse_spec(text@) == Some(ts@),
                None => parse_spec(text@) is None,
            }),
    {
        if !is_within_clock_range(text) {
            return None;
        }
        match uhlc_from_str(text) {
            Some((time, id)) => Some(Timestamp { time, id }),
            None => None,
        }
    }
}

} // verus!
