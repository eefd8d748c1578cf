use vstd::prelude::*;

verus! {

/// What one `resume` hands back: an intermediate value, or the final result.
pub enum GeneratorState<Y, R> {
    Yielded(Y),
    Complete(R),
}

/// A computation that can be resumed until it completes.
///
/// It is modelled by the values it will still yield (`pending`), in order, and
/// the result it completes with (`outcome`). `finished` holds once resuming is
/// no longer allowed.
pub trait Generator: Sized {
    type Yield;

    type Return;

    /// Values still to be yielded, in order.
    spec fn pending(&self) -> Seq<Self::Yield>;

    /// The final result that completion hands back.
    spec fn outcome(&self) -> Self::Return;

    /// Completion has been observed: `resume` must not be called again.
    spec fn finished(&self) -> bool;

    /// The generator's internal invariant.
    spec fn wf(&self) -> bool;

    fn resume(&mut self) -> (r: GeneratorState<Self::Yield, Self::Return>)
        requires
            (*old(self)).wf(),
            !(*old(self)).finished(),
        ensures
            (*final(self)).wf(),
            (*old(self)).pending().len() > 0 ==> {
                &&& r == GeneratorState::<Self::Yield, Self::Return>::Yielded(
                    (*old(self)).pending()[0],
                )
                &&& (*final(self)).pending() == (*old(self)).pending().drop_first()
                &&& (*final(self)).outcome() == (*old(self)).outcome()
                &&& !(*final(self)).finished()
            },
            (*old(self)).pending().len() == 0 ==> {
                &&& r == GeneratorState::<Self::Yield, Self::Return>::Complete((*old(self)).outcome())
                &&& (*final(self)).pending().len() == 0
            },
    ;
}

/// A generator that yields the items of a vector in order, then completes
/// with a given result. It counts how many times it has been resumed.
pub struct VecGen<Y, R> {
    items: Vec<Y>,
    result: Option<R>,
    done: bool,
    resumes: usize,
}

impl<Y, R> VecGen<Y, R> {
    pub closed spec fn resume_count(&self) -> nat {
        self.resumes as nat
    }

    /// A generator over `items` that completes with `result`.
    pub fn new(items: Vec<Y>, result: R) -> (r: Self)
        requires
            items@.len() < usize::MAX,
        ensures
            r.wf(),
            !r.finished(),
            r.pending() == items@,
            r.outcome() == result,
            r.resume_count() == 0,
    {
        VecGen { items, result: Some(result), done: false, resumes: 0 }
    }

    /// How many times `resume` has been called.
    pub fn resumes(&self) -> (r: usize)
        ensures
            r == self.resume_count(),
    {
        self.resumes
    }
}

impl<Y, R> Generator for VecGen<Y, R> {
    type Yield = Y;

    type Return = R;

    closed spec fn pending(&self) -> Seq<Y> {
        self.items@
    }

    closed spec fn outcome(&self) -> R {
        self.result->Some_0
    }

    closed spec fn finished(&self) -> bool {
        self.done
    }

    closed spec fn wf(&self) -> bool {
        self.resumes + self.items@.len() + (if self.done { 0int } else { 1int }) <= usize::MAX
            && (self.done ==> self.items@.len() == 0)
            && (self.done || self.result is Some)
    }

    fn resume(&mut self) -> (r: GeneratorState<Y, R>)
        ensures
            final(self).resume_count() == old(self).resume_count() + 1,
    {
        self.resumes = self.resumes + 1;
        if self.items.len() > 0 {
            let y = self.items.remove(0);
            GeneratorState::Yielded(y)
        } else {
            self.done = true;
            GeneratorState::Complete(self.result.take().unwrap())
        }
    }
}

} // verus!
