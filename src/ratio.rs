//! Positive rational numbers, used for the machine's real-valued settings
//! (specificity and threshold).
use vstd::prelude::*;

verus! {

/// A positive rational number `numerator / denominator`.
#[derive(Debug, Clone, Copy, PartialEq, Eq, Structural)]
pub struct Ratio {
    numerator: u32,
    denominator: u32,
}

impl Ratio {
    pub closed spec fn numerator_spec(&self) -> int {
        self.numerator as int
    }

    pub closed spec fn denominator_spec(&self) -> int {
        self.denominator as int
    }

    /// Both parts are positive.
    pub open spec fn wf(&self) -> bool {
        self.numerator_spec() > 0 && self.denominator_spec() > 0
    }

    /// The integer part, rounded toward zero.
    pub open spec fn truncated(&self) -> int {
        self.numerator_spec() / self.denominator_spec()
    }

    /// The ratio `numerator / denominator`, or `None` when either part is
    /// zero.
    pub fn new(numerator: u32, denominator: u32) -> (r: Option<Ratio>)
        ensures
            (numerator > 0 && denominator > 0) <==> r.is_some(),
            r matches Some(q) ==> q.wf() && q.numerator_spec() == numerator as int
                && q.denominator_spec() == denominator as int,
    {
        if numerator > 0 && denominator > 0 {
            Some(Ratio { numerator, denominator })
        } else {
            None
        }
    }

    /// The whole number `n`, or `None` when it is zero.
    pub fn whole(n: u32) -> (r: Option<Ratio>)
        ensures
            (n > 0) <==> r.is_some(),
            r matches Some(q) ==> q.wf() && q.numerator_spec() == n as int && q.denominator_spec()
                == 1,
    {
        Ratio::new(n, 1)
    }

    pub fn numerator(&self) -> (r: u32)
        ensures
            r as int == self.numerator_spec(),
    {
        self.numerator
    }

    pub fn denominator(&self) -> (r: u32)
        ensures
            r as int == self.denominator_spec(),
    {
        self.denominator
    }

    /// The integer part, rounded toward zero.
    pub fn truncate(&self) -> (r: u32)
        requires
            self.wf(),
        ensures
            r as int == self.truncated(),
    {
        self.numerator / self.denominator
    }
}

} // verus!
