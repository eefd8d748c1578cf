use crate::func::{accepts, lemma_first_kept_bounds, lemma_kept_items, deterministic_pred, first_kept, kept, total_pred};
use crate::generator::{Generator, GeneratorState};
use vstd::prelude::*;

verus! {

/// Yields only the values of the inner generator that a predicate accepts.
pub struct Filter<G, F> {
    gen: G,
    predicate: F,
}

/// The same combinator under the name that stresses that only yields change.
pub type FilterYield<G, F> = Filter<G, F>;

impl<G, F> Filter<G, F> {
    /// The wrapped generator.
    pub closed spec fn inner(&self) -> G {
        self.gen
    }

    /// The predicate that selects yielded values.
    pub closed spec fn pred(&self) -> F {
        self.predicate
    }

    pub fn new(gen: G, predicate: F) -> (r: Self)
        ensures
            r.inner() == gen,
            r.pred() == predicate,
    {
        Filter { gen, predicate }
    }
}

impl<G: Generator, F> Generator for Filter<G, F> where F: Fn(&G::Yield) -> bool {
    type Yield = G::Yield;

    type Return = G::Return;

    open spec fn pending(&self) -> Seq<G::Yield> {
        kept(self.inner().pending(), self.pred())
    }

    open spec fn outcome(&self) -> G::Return {
        self.inner().outcome()
    }

    open spec fn finished(&self) -> bool {
        self.inner().finished()
    }

    open spec fn wf(&self) -> bool {
        &&& self.inner().wf()
        &&& total_pred::<G::Yield, F>(self.pred())
        &&& deterministic_pred::<G::Yield, F>(self.pred())
    }

    /// Resumes the inner generator once for each value it examines, and once
    /// more for its completion when no value is accepted.
    fn resume(&mut self) -> (r: GeneratorState<G::Yield, G::Return>)
        ensures
            final(self).pred() == old(self).pred(),
            r is Yielded ==> final(self).inner().pending() == old(self).inner().pending().skip(
                first_kept(old(self).inner().pending(), old(self).pred()) + 1,
            ),
            r is Complete ==> final(self).inner().pending().len() == 0,
    {
        let ghost start = self.gen.pending();
        proof {
            lemma_first_kept_bounds(start, self.predicate);
        }
        loop
            invariant
                self.gen.wf(),
                !self.gen.finished(),
                self.predicate == old(self).predicate,
                total_pred::<G::Yield, F>(self.predicate),
                deterministic_pred::<G::Yield, F>(self.predicate),
                self.gen.outcome() == old(self).gen.outcome(),
                start == old(self).gen.pending(),
                0 <= start.len() - self.gen.pending().len() <= first_kept(start, self.predicate),
                self.gen.pending() == start.skip(start.len() - self.gen.pending().len()),
                kept(self.gen.pending(), self.predicate) == kept(start, self.predicate),
                first_kept(start, self.predicate) == (start.len() - self.gen.pending().len())
                    + first_kept(self.gen.pending(), self.predicate),
            decreases self.gen.pending().len(),
        {
            let ghost before = self.gen.pending();
            proof {
                lemma_first_kept_bounds(before, self.predicate);
            }
            match self.gen.resume() {
                GeneratorState::Yielded(y) => {
                    assert(before.drop_first() =~= start.skip(
                        start.len() - before.len() + 1,
                    ));
                    if (self.predicate)(&y) {
                        return GeneratorState::Yielded(y);
                    }
                },
                GeneratorState::Complete(r) => {
                    return GeneratorState::Complete(r);
                },
            }
        }
    }
}

/// Filtering yields only accepted values, never more values than the inner
/// generator yields, and all of them when every one is accepted.
pub proof fn lemma_filter_selects<G: Generator, F: Fn(&G::Yield) -> bool>(m: Filter<G, F>)
    requires
        m.wf(),
    ensures
        m.pending().len() <= m.inner().pending().len(),
        forall|i: int| 0 <= i < m.pending().len() ==> accepts(m.pred(), #[trigger] m.pending()[i]),
        (forall|i: int| 0 <= i < m.inner().pending().len() ==> accepts(m.pred(), #[trigger] m.inner().pending()[i]))
            ==> m.pending() == m.inner().pending(),
{
    lemma_kept_items(m.inner().pending(), m.pred());
}

} // verus!
