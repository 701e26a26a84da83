//! Rulers: the rationals a container declares, and the timebases they are
//! admitted as.
//!
//! Nothing is clamped and nothing is invented. A declared rational that is
//! not a timebase is refused, and the refusal names what was declared.
use vstd::prelude::*;
use crate::demux_error::{DemuxError, TrackTimebaseInvalid};

verus! {

/// An `AVRational` as a container declared it.
#[derive(Clone, Copy, Debug, PartialEq, Eq, Structural)]
pub struct Rational {
    pub num: i32,
    pub den: i32,
}

impl Rational {
    /// A rational with the given numerator and denominator.
    pub fn new(num: i32, den: i32) -> (r: Self)
        ensures
            r.num == num,
            r.den == den,
    {
        Rational { num, den }
    }

    /// The numerator.
    pub fn numerator(&self) -> (r: i32)
        ensures
            r == self.num,
    {
        self.num
    }

    /// The denominator.
    pub fn denominator(&self) -> (r: i32)
        ensures
            r == self.den,
    {
        self.den
    }
}

/// A ruler timestamps are measured against: a non-negative numerator over
/// a positive denominator.
#[derive(Clone, Copy, Debug, PartialEq, Eq, Structural)]
pub struct Timebase {
    num: i32,
    den: i32,
}

impl Timebase {
    pub closed spec fn spec_num(&self) -> i32 {
        self.num
    }

    pub closed spec fn spec_den(&self) -> i32 {
        self.den
    }

    #[verifier::type_invariant]
    closed spec fn well_formed(self) -> bool {
        self.num >= 0 && self.den > 0
    }

    /// The timebase `num/den`, or `None` where there is no such timebase:
    /// a negative numerator, or a denominator that is not positive.
    pub fn try_new(num: i32, den: i32) -> (r: Option<Timebase>)
        ensures
            match r {
                Some(tb) => num >= 0 && den > 0 && tb.spec_num() == num && tb.spec_den() == den,
                None => !(num >= 0 && den > 0),
            },
    {
        if num >= 0 && den > 0 {
            Some(Timebase { num, den })
        } else {
            None
        }
    }

    /// The numerator, never negative.
    pub fn num(&self) -> (r: i32)
        ensures
            r == self.spec_num(),
            r >= 0,
    {
        proof {
            use_type_invariant(self);
        }
        self.num
    }

    /// The denominator, always positive.
    pub fn den(&self) -> (r: i32)
        ensures
            r == self.spec_den(),
            r > 0,
    {
        proof {
            use_type_invariant(self);
        }
        self.den
    }
}

/// A timestamp: a tick count on a ruler.
#[derive(Clone, Copy, Debug, PartialEq, Eq, Structural)]
pub struct Timestamp {
    pub pts: i64,
    pub timebase: Timebase,
}

/// Whether `value` is a timebase, admitting `0/den`.
pub open spec fn spec_is_timebase(value: Rational) -> bool {
    value.num >= 0 && value.den > 0
}

/// A file-controlled rational as a timebase, or `None` where it is not
/// one. A zero numerator **is** admitted: `0/1` is libavformat's own "not
/// set yet", and passing it through reports rather than guesses.
pub fn rational_to_timebase(value: Rational) -> (r: Option<Timebase>)
    ensures
        match r {
            Some(tb) => spec_is_timebase(value) && tb.spec_num() == value.num && tb.spec_den()
                == value.den,
            None => !spec_is_timebase(value),
        },
{
    if value.den == 0 {
        return None;
    }
    Timebase::try_new(value.num, value.den)
}

/// [`rational_to_timebase`], and the numerator must be positive too — the
/// rule for a seat where zero cannot mean "absent": a chapter's ruler,
/// which whatever wrote the chapter wrote too, and a frame rate, where
/// zero frames a second is not a rate.
pub fn positive_rational_to_timebase(value: Rational) -> (r: Option<Timebase>)
    ensures
        match r {
            Some(tb) => value.num > 0 && spec_is_timebase(value) && tb.spec_num() == value.num
                && tb.spec_den() == value.den,
            None => !(value.num > 0 && spec_is_timebase(value)),
        },
{
    if value.num > 0 {
        rational_to_timebase(value)
    } else {
        None
    }
}

/// A declared frame rate as a rate-shaped timebase (`30000/1001` for 29.97
/// fps), or `None` when the container declares none.
pub fn rate_to_timebase(value: Rational) -> (r: Option<Timebase>)
    ensures
        match r {
            Some(tb) => value.num > 0 && spec_is_timebase(value) && tb.spec_num() == value.num
                && tb.spec_den() == value.den,
            None => !(value.num > 0 && spec_is_timebase(value)),
        },
{
    positive_rational_to_timebase(value)
}

/// A stream's own ruler, refused rather than repaired — one conversion and
/// one error for every pass that needs it.
pub fn stream_timebase(index: usize, declared: Rational) -> (r: Result<Timebase, DemuxError>)
    ensures
        match r {
            Ok(tb) => spec_is_timebase(declared) && tb.spec_num() == declared.num && tb.spec_den()
                == declared.den,
            Err(e) => !spec_is_timebase(declared) && (e matches DemuxError::TrackTimebaseInvalid(p)
                && p.spec_stream_index() == index && p.spec_num() == declared.num && p.spec_den()
                == declared.den),
        },
{
    match rational_to_timebase(declared) {
        Some(tb) => Ok(tb),
        None => Err(
            DemuxError::TrackTimebaseInvalid(
                TrackTimebaseInvalid::new(index, declared.numerator(), declared.denominator()),
            ),
        ),
    }
}

/// One microsecond — the ruler `avformat_seek_file` expects when no
/// reference stream is named.
pub fn av_time_base_q() -> (r: Timebase)
    ensures
        r.spec_num() == 1,
        r.spec_den() == 1000000,
{
    Timebase { num: 1, den: 1000000 }
}

/// **A zero numerator is absent for a track and malformed for a
/// chapter.** `0/den` is libavformat's own "not set", so the track rule
/// passes it through; the strict rule, for seats that cannot mean absent,
/// refuses it.
pub proof fn law_zero_numerator(den: i32)
    requires
        den > 0,
    ensures
        spec_is_timebase(Rational { num: 0, den }),
        !(Rational { num: 0, den }.num > 0 && spec_is_timebase(Rational { num: 0, den })),
{
}

} // verus!
