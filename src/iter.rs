//! The schedule of evenly spaced interpolation between two endpoints.
//!
//! A [`LerpIterator`] does not compute values itself: each call of
//! [`LerpIterator::next_step`] says which point comes next, as the fraction
//! `numerator / denominator` of the way from `begin` to `end`, or as `end`
//! itself for the closing point of a closed range.
use vstd::prelude::*;

verus! {

#[derive(Clone, Copy, PartialEq, Eq, Debug, Structural)]
pub enum Step {
    /// The point `numerator / denominator` of the way from begin to end.
    Fraction { numerator: usize, denominator: usize },
    /// The end point itself.
    End,
}

/// An iterator across a range defined by its endpoints and the number of
/// intermediate steps.
pub struct LerpIterator<T> {
    begin: T,
    end: T,
    steps: usize,
    current_step: usize,
    /// Whether the end point is still to be yielded after the steps.
    tail: bool,
}

pub struct IterModel<T> {
    pub begin: T,
    pub end: T,
    pub steps: usize,
    pub current: usize,
    pub tail: bool,
}

impl<T> View for LerpIterator<T> {
    type V = IterModel<T>;

    closed spec fn view(&self) -> IterModel<T> {
        IterModel {
            begin: self.begin,
            end: self.end,
            steps: self.steps,
            current: self.current_step,
            tail: self.tail,
        }
    }
}

/// The points still to come: `i / steps` for each `i` from the current step
/// up to but excluding `steps`, then the end point if it is still due.
pub open spec fn remaining<T>(m: IterModel<T>) -> Seq<Step> {
    let fractions = Seq::new(
        (m.steps - m.current) as nat,
        |i: int| Step::Fraction { numerator: (m.current + i) as usize, denominator: m.steps },
    );
    if m.tail {
        fractions.push(Step::End)
    } else {
        fractions
    }
}

/// A schedule that the iterator can be in.
pub open spec fn well_formed<T>(m: IterModel<T>) -> bool {
    &&& m.current <= m.steps
    &&& m.tail ==> m.steps < usize::MAX
}

/// The closed range over `steps` points: nothing for zero steps, else
/// `steps - 1` fractions of `steps - 1` followed by the end point.
pub open spec fn closed_model<T>(begin: T, end: T, steps: usize) -> IterModel<T> {
    if steps == 0 {
        IterModel { begin, end, steps: 0, current: 0, tail: false }
    } else {
        IterModel { begin, end, steps: (steps - 1) as usize, current: 0, tail: true }
    }
}

impl<T> LerpIterator<T> {
    /// The half-open range: `steps` points from `begin` included to `end`
    /// excluded.
    pub fn new(begin: T, end: T, steps: usize) -> (r: LerpIterator<T>)
        ensures
            r@ == (IterModel { begin, end, steps, current: 0, tail: false }),
            well_formed(r@),
    {
        LerpIterator { begin, end, steps, current_step: 0, tail: false }
    }

    /// The closed range: `steps` points from `begin` to `end`, both
    /// included; with one step only `end` is produced.
    pub fn new_closed(begin: T, end: T, steps: usize) -> (r: LerpIterator<T>)
        ensures
            r@ == closed_model(begin, end, steps),
            well_formed(r@),
    {
        if steps == 0 {
            LerpIterator { begin, end, steps: 0, current_step: 0, tail: false }
        } else {
            LerpIterator { begin, end, steps: steps - 1, current_step: 0, tail: true }
        }
    }

    pub fn begin(&self) -> (r: &T)
        ensures
            *r == self@.begin,
    {
        &self.begin
    }

    pub fn end(&self) -> (r: &T)
        ensures
            *r == self@.end,
    {
        &self.end
    }

    /// Takes the next point of the schedule, if any is left.
    pub fn next_step(&mut self) -> (r: Option<Step>)
        requires
            well_formed(old(self)@),
        ensures
            well_formed(final(self)@),
            final(self)@.begin == old(self)@.begin,
            final(self)@.end == old(self)@.end,
            remaining(old(self)@).len() == 0 ==> r is None && remaining(final(self)@)
                == remaining(old(self)@),
            remaining(old(self)@).len() > 0 ==> r == Some(remaining(old(self)@)[0])
                && remaining(final(self)@) == remaining(old(self)@).drop_first(),
            old(self)@.current < old(self)@.steps ==> final(self)@ == (IterModel {
                current: (old(self)@.current + 1) as usize,
                ..old(self)@
            }),
            old(self)@.current >= old(self)@.steps && old(self)@.tail ==> final(self)@ == (
            IterModel { tail: false, ..old(self)@ }),
            old(self)@.current >= old(self)@.steps && !old(self)@.tail ==> final(self)@ == old(
                self,
            )@,
    {
        if self.current_step < self.steps {
            let r = Step::Fraction { numerator: self.current_step, denominator: self.steps };
            self.current_step = self.current_step + 1;
            proof {
                assert(remaining(final(self)@) =~= remaining(old(self)@).drop_first());
            }
            Some(r)
        } else if self.tail {
            self.tail = false;
            proof {
                assert(remaining(final(self)@) =~= remaining(old(self)@).drop_first());
            }
            Some(Step::End)
        } else {
            None
        }
    }

    /// The exact number of points left, as lower and upper bound.
    pub fn size_hint(&self) -> (r: (usize, Option<usize>))
        requires
            well_formed(self@),
        ensures
            r.0 == remaining(self@).len(),
            r.1 == Some(r.0),
    {
        let fractions = self.steps - self.current_step;
        let remaining = if self.tail {
            fractions + 1
        } else {
            fractions
        };
        (remaining, Some(remaining))
    }
}

/// Types which can construct a schedule from one point to another over a
/// set number of steps.
pub trait LerpIter: Sized {
    /// The half-open schedule from `self` to `other`.
    fn lerp_iter(self, other: Self, steps: usize) -> (r: LerpIterator<Self>)
        ensures
            r@ == (IterModel { begin: self, end: other, steps, current: 0, tail: false }),
            well_formed(r@),
    ;

    /// The closed schedule from `self` to `other`.
    fn lerp_iter_closed(self, other: Self, steps: usize) -> (r: LerpIterator<Self>)
        ensures
            r@ == closed_model(self, other, steps),
            well_formed(r@),
    ;
}

impl<T> LerpIter for T {
    fn lerp_iter(self, other: T, steps: usize) -> (r: LerpIterator<T>) {
        LerpIterator::new(self, other, steps)
    }

    fn lerp_iter_closed(self, other: T, steps: usize) -> (r: LerpIterator<T>) {
        LerpIterator::new_closed(self, other, steps)
    }
}

} // verus!
