use crate::generator::{Generator, GeneratorState};
use vstd::prelude::*;

verus! {

/// Pulls values out of a generator one at a time. Once the generator has
/// completed it is dropped, and every later `next` returns `None` without
/// resuming anything.
pub struct GenIter<G>(Option<G>);

impl<G> GenIter<G> {
    /// The generator still held, or `None` once exhausted.
    pub closed spec fn source(&self) -> Option<G> {
        self.0
    }

    /// The generator has completed and has been dropped.
    pub open spec fn exhausted(&self) -> bool {
        self.source() is None
    }
}

/// One `next` from `pre` to `post` with result `r`.
pub open spec fn stepped<G: Generator>(pre: GenIter<G>, post: GenIter<G>, r: Option<G::Yield>) -> bool {
    if pre.exhausted() {
        r is None && post == pre
    } else if pre.pending().len() > 0 {
        &&& r == Some(pre.pending()[0])
        &&& post.pending() == pre.pending().drop_first()
        &&& !post.exhausted()
    } else {
        r is None && post.exhausted()
    }
}

impl<G: Generator> GenIter<G> {
    /// Values that `next` will still hand out, in order.
    pub open spec fn pending(&self) -> Seq<G::Yield> {
        match self.source() {
            Some(g) => g.pending(),
            None => Seq::empty(),
        }
    }

    pub open spec fn wf(&self) -> bool {
        match self.source() {
            Some(g) => g.wf() && !g.finished(),
            None => true,
        }
    }

    /// An adapter over `gen`, which must not have completed yet.
    pub fn new(gen: G) -> (r: Self)
        requires
            gen.wf(),
            !gen.finished(),
        ensures
            r.wf(),
            r.source() == Some(gen),
    {
        GenIter(Some(gen))
    }

    /// An adapter over a boxed generator.
    pub fn pinned(gen: Box<G>) -> (r: GenIter<Box<G>>)
        requires
            gen.wf(),
            !gen.finished(),
        ensures
            r.wf(),
            r.source() == Some(gen),
    {
        GenIter(Some(gen))
    }

    /// The next value, or `None` once the generator has completed; its final
    /// result is dropped.
    pub fn next(&mut self) -> (r: Option<G::Yield>)
        requires
            old(self).wf(),
        ensures
            final(self).wf(),
            stepped(*old(self), *final(self), r),
    {
        match &mut self.0 {
            Some(g) => match g.resume() {
                GeneratorState::Yielded(y) => Some(y),
                GeneratorState::Complete(_) => {
                    self.0 = None;
                    None
                },
            },
            None => None,
        }
    }
}

impl<G: Generator> Generator for Box<G> {
    type Yield = G::Yield;

    type Return = G::Return;

    open spec fn pending(&self) -> Seq<G::Yield> {
        (**self).pending()
    }

    open spec fn outcome(&self) -> G::Return {
        (**self).outcome()
    }

    open spec fn finished(&self) -> bool {
        (**self).finished()
    }

    open spec fn wf(&self) -> bool {
        (**self).wf()
    }

    fn resume(&mut self) -> (r: GeneratorState<G::Yield, G::Return>) {
        (**self).resume()
    }
}

/// Once `next` has returned `None`, every later call returns `None` too and
/// leaves the adapter as it is: the generator is never resumed again.
pub proof fn lemma_exhaustion_is_final<G: Generator>(
    a: GenIter<G>,
    b: GenIter<G>,
    c: GenIter<G>,
    r1: Option<G::Yield>,
    r2: Option<G::Yield>,
)
    requires
        stepped(a, b, r1),
        stepped(b, c, r2),
        r1 is None,
    ensures
        b.exhausted(),
        r2 is None,
        c == b,
{
}

} // verus!
