//! The calculator session: the inputs the user edits, whether a computed
//! result is current, and the single input error.
//!
//! The session decides, from plain values, when a result may be shown:
//! editing the angle text, the term count or the angle mode makes any
//! earlier result stale, and a computation is recorded as current only
//! when the angle text parsed to a finite number. The parse itself is a
//! floating-point matter and happens with the caller, who reports only
//! its outcome.

use vstd::prelude::*;

use crate::series::clamp_term_count;
use crate::series::clamped_term_count;
use crate::series::valid_term_count;

verus! {

/// The one error the calculator knows: the angle text does not parse to
/// a finite number.
#[derive(Clone, Copy, PartialEq, Eq, Debug)]
pub enum AngleError {
    InvalidAngleInput,
}

impl AngleError {
    /// The message shown for the error.
    pub fn message(&self) -> (r: String)
        ensures
            r@ == "please enter a valid angle value"@,
    {
        String::from_str("please enter a valid angle value")
    }
}

/// Everything the calculator holds between interactions: the angle text,
/// the angle mode, the term count, whether the last computed result is
/// still current, and the input error, if any.
pub struct Session {
    /// The angle as the user typed it.
    pub angle_text: String,
    /// How many series terms to sum.
    pub terms: u64,
    /// Whether the angle text is read as radians rather than degrees.
    pub rad_mode: bool,
    /// Whether a computed result is current for the inputs as they stand.
    pub calculated: bool,
    /// The input error of the last computation attempt, if it failed.
    pub error: Option<AngleError>,
}

impl Session {
    /// The session invariant: the term count stays in the accepted range.
    pub open spec fn wf(&self) -> bool {
        valid_term_count(self.terms)
    }

    /// A fresh session: forty-five degrees, ten terms, nothing computed.
    pub fn new() -> (s: Session)
        ensures
            s.wf(),
            s.angle_text@ == "45"@,
            s.terms == 10,
            !s.rad_mode,
            !s.calculated,
            s.error is None,
    {
        Session {
            angle_text: String::from_str("45"),
            terms: 10,
            rad_mode: false,
            calculated: false,
            error: None,
        }
    }

    /// Replaces the angle text; any computed result becomes stale.
    pub fn set_angle_text(&mut self, text: String)
        requires
            old(self).wf(),
        ensures
            final(self).wf(),
            final(self).angle_text@ == text@,
            !final(self).calculated,
            final(self).terms == old(self).terms,
            final(self).rad_mode == old(self).rad_mode,
            final(self).error == old(self).error,
    {
        self.angle_text = text;
        self.calculated = false;
    }

    /// Replaces the term count, forced into the accepted range; any
    /// computed result becomes stale.
    pub fn set_term_count(&mut self, terms: u64)
        requires
            old(self).wf(),
        ensures
            final(self).wf(),
            final(self).terms == clamped_term_count(terms),
            !final(self).calculated,
            final(self).angle_text@ == old(self).angle_text@,
            final(self).rad_mode == old(self).rad_mode,
            final(self).error == old(self).error,
    {
        self.terms = clamp_term_count(terms);
        self.calculated = false;
    }

    /// Switches between radian and degree reading of the angle text; any
    /// computed result becomes stale.
    pub fn set_rad_mode(&mut self, rad_mode: bool)
        requires
            old(self).wf(),
        ensures
            final(self).wf(),
            final(self).rad_mode == rad_mode,
            !final(self).calculated,
            final(self).angle_text@ == old(self).angle_text@,
            final(self).terms == old(self).terms,
            final(self).error == old(self).error,
    {
        self.rad_mode = rad_mode;
        self.calculated = false;
    }

    /// Records the outcome of a computation attempt. When the angle text
    /// parsed to a finite number the result is current and the error is
    /// cleared; otherwise no result is produced and the input error is
    /// raised. The inputs themselves are untouched.
    pub fn record_computation(&mut self, parse_finite: bool)
        requires
            old(self).wf(),
        ensures
            final(self).wf(),
            final(self).angle_text@ == old(self).angle_text@,
            final(self).terms == old(self).terms,
            final(self).rad_mode == old(self).rad_mode,
            parse_finite ==> final(self).calculated && final(self).error is None,
            !parse_finite ==> !final(self).calculated && final(self).error == Some(
                AngleError::InvalidAngleInput,
            ),
    {
        if parse_finite {
            self.calculated = true;
            self.error = None;
        } else {
            self.calculated = false;
            self.error = Some(AngleError::InvalidAngleInput);
        }
    }
}

} // verus!
