//! The window of months of retirement that a search still has to try, and
//! how it is narrowed.
use vstd::prelude::*;
use crate::models::FinancialStateInfluencers;

verus! {

/// The months of retirement still to be tried: those from `start` to `end`.
#[derive(Debug, PartialEq, Eq, Clone, Copy)]
pub struct BisectionPoints {
    pub start: i16,
    pub end: i16,
}

impl BisectionPoints {
    /// The month in the middle of the window, rounded down.
    pub open spec fn spec_middle(&self) -> int {
        self.start + (self.end - self.start) / 2
    }

    /// The window that the search goes on with: the months before the
    /// middle. There is none when the middle is the first month of the
    /// window, nor when the window holds no month.
    pub open spec fn spec_narrowed(&self) -> Option<BisectionPoints> {
        if self.start > self.end || self.spec_middle() == self.start {
            None
        } else {
            Some(BisectionPoints { start: self.start, end: (self.spec_middle() - 1) as i16 })
        }
    }

    /// The window a search starts with when it is given none: the next ten
    /// months.
    pub open spec fn spec_initial_point() -> BisectionPoints {
        BisectionPoints { start: 0, end: 10 }
    }

    /// Whether a search of this window tries `month`: whether it is the
    /// middle of the window, or of the window that this one is narrowed to,
    /// and so on.
    pub open spec fn spec_tries(&self, month: int) -> bool
        decreases self.end - self.start,
    {
        self.start <= self.end && (month == self.spec_middle() || match self.spec_narrowed() {
            None => false,
            Some(narrower) => narrower.spec_tries(month),
        })
    }

    /// The month in the middle of the window, rounded down.
    pub fn middle(&self) -> (r: i16)
        ensures
            r == self.spec_middle(),
    {
        let width: i32 = self.end as i32 - self.start as i32;
        let half: i32 = if width >= 0 {
            width / 2
        } else {
            -((1 - width) / 2)
        };
        (self.start as i32 + half) as i16
    }

    /// The window to go on with after the middle month has been tried, if
    /// there is one. `bisect_left` says whether the forecast for the middle
    /// month was the better one. As things stand it makes no difference:
    /// either way the search goes on with the months before the middle, and
    /// later months are never tried. This function alone decides the
    /// direction, so that it can be changed in one place.
    pub fn new_bisection_point(
        &self,
        fin_state_influencers: &FinancialStateInfluencers,
        bisect_left: bool,
    ) -> (r: Option<Self>)
        ensures
            r == self.spec_narrowed(),
    {
        if self.start > self.end {
            return None;
        }
        let middle = self.middle();
        if middle == self.start {
            return None;
        }
        Some(BisectionPoints { start: self.start, end: middle - 1 })
    }

    /// The window the search starts with: the next ten months.
    pub fn initial_point(fin_state_influencers: &FinancialStateInfluencers) -> (r: Self)
        ensures
            r == Self::spec_initial_point(),
    {
        BisectionPoints { start: 0, end: 10 }
    }
}

/// A narrowed window starts where the window starts and ends before its
/// middle: it holds at least one month, and fewer than the window.
pub proof fn lemma_narrowed_is_narrower(window: BisectionPoints)
    requires
        window.spec_narrowed().is_some(),
    ensures
        window.spec_narrowed().unwrap().start == window.start,
        window.start <= window.spec_narrowed().unwrap().end < window.spec_middle() <= window.end,
{
}

/// The months that a search tries are the middle of its window and the
/// months that the search of the narrowed window tries, and all of them are
/// months of the window.
pub proof fn lemma_tries(window: BisectionPoints, month: int)
    ensures
        window.spec_tries(month) ==> window.start <= month <= window.end,
        window.start <= window.end ==> window.spec_tries(window.spec_middle()),
        window.spec_narrowed().is_some() ==> (window.spec_tries(month) <==> month
            == window.spec_middle() || window.spec_narrowed().unwrap().spec_tries(month)),
        window.spec_narrowed().is_none() ==> (window.spec_tries(month) <==> window.start
            <= window.end && month == window.spec_middle()),
    decreases window.end - window.start,
{
    if window.spec_narrowed().is_some() {
        lemma_tries(window.spec_narrowed().unwrap(), month);
    }
}

} // verus!
