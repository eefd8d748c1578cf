use crate::func::{accepts, deterministic_pred, lemma_prefix_while_items, prefix_while, total_pred};
use crate::generator::{Generator, GeneratorState};
use vstd::prelude::*;

verus! {

/// Yields the inner generator's values while a predicate accepts them; at the
/// first rejected value, or at the inner completion, it completes with `()`
/// for good.
pub struct TakeWhile<G, P> {
    complete: bool,
    gen: G,
    predicate: P,
}

impl<G, P> TakeWhile<G, P> {
    /// The wrapped generator.
    pub closed spec fn inner(&self) -> G {
        self.gen
    }

    /// The predicate that values must meet.
    pub closed spec fn pred(&self) -> P {
        self.predicate
    }

    /// A value was rejected or the inner generator completed.
    pub closed spec fn is_complete(&self) -> bool {
        self.complete
    }

    pub fn new(gen: G, predicate: P) -> (r: Self)
        ensures
            r.inner() == gen,
            r.pred() == predicate,
            !r.is_complete(),
    {
        TakeWhile { gen, predicate, complete: false }
    }
}

impl<G: Generator, P> Generator for TakeWhile<G, P> where P: Fn(&G::Yield) -> bool {
    type Yield = G::Yield;

    type Return = ();

    open spec fn pending(&self) -> Seq<G::Yield> {
        if self.is_complete() {
            Seq::empty()
        } else {
            prefix_while(self.inner().pending(), self.pred())
        }
    }

    open spec fn outcome(&self) -> () {
        ()
    }

    open spec fn finished(&self) -> bool {
        false
    }

    open spec fn wf(&self) -> bool {
        &&& self.inner().wf()
        &&& total_pred::<G::Yield, P>(self.pred())
        &&& deterministic_pred::<G::Yield, P>(self.pred())
        &&& (self.is_complete() || !self.inner().finished())
    }

    /// Each call resumes the inner generator at most once; once complete, it
    /// never does again.
    fn resume(&mut self) -> (r: GeneratorState<G::Yield, ()>)
        ensures
            final(self).pred() == old(self).pred(),
            old(self).is_complete() ==> *final(self) == *old(self),
            !old(self).is_complete() && old(self).inner().pending().len() > 0
                ==> final(self).inner().pending() == old(self).inner().pending().drop_first(),
            r is Complete ==> final(self).is_complete(),
    {
        if self.complete {
            return GeneratorState::Complete(());
        }
        match self.gen.resume() {
            GeneratorState::Yielded(y) => {
                if (self.predicate)(&y) {
                    GeneratorState::Yielded(y)
                } else {
                    self.complete = true;
                    GeneratorState::Complete(())
                }
            },
            GeneratorState::Complete(_) => {
                self.complete = true;
                GeneratorState::Complete(())
            },
        }
    }
}

/// Before completion, the values yielded are the inner generator's values up
/// to, and not including, the first one that the predicate rejects.
pub proof fn lemma_take_while_boundary<G: Generator, P: Fn(&G::Yield) -> bool>(t: TakeWhile<G, P>)
    requires
        !t.is_complete(),
    ensures
        t.pending().len() <= t.inner().pending().len(),
        forall|i: int| 0 <= i < t.pending().len() ==> #[trigger] t.pending()[i] == t.inner().pending()[i],
        forall|i: int| 0 <= i < t.pending().len() ==> accepts(t.pred(), #[trigger] t.pending()[i]),
        t.pending().len() < t.inner().pending().len() ==> !accepts(
            t.pred(),
            t.inner().pending()[t.pending().len() as int],
        ),
{
    lemma_prefix_while_items(t.inner().pending(), t.pred());
}

} // verus!
