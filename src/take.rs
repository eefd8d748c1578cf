use crate::func::first_n;
use crate::generator::{Generator, GeneratorState};
use vstd::prelude::*;

verus! {

/// Yields at most a given number of the inner generator's values, then
/// completes with `()`.
pub struct Take<G> {
    count: usize,
    gen: G,
}

impl<G> Take<G> {
    /// The wrapped generator.
    pub closed spec fn inner(&self) -> G {
        self.gen
    }

    /// How many more values may be yielded.
    pub closed spec fn remaining(&self) -> nat {
        self.count as nat
    }

    pub fn new(gen: G, count: usize) -> (r: Self)
        ensures
            r.inner() == gen,
            r.remaining() == count,
    {
        Take { gen, count }
    }
}

impl<G: Generator> Generator for Take<G> {
    type Yield = G::Yield;

    type Return = ();

    open spec fn pending(&self) -> Seq<G::Yield> {
        if self.remaining() == 0 {
            Seq::empty()
        } else {
            first_n(self.inner().pending(), self.remaining())
        }
    }

    open spec fn outcome(&self) -> () {
        ()
    }

    open spec fn finished(&self) -> bool {
        false
    }

    open spec fn wf(&self) -> bool {
        &&& self.inner().wf()
        &&& (self.remaining() == 0 || !self.inner().finished())
    }

    /// With nothing left to take, the inner generator is not touched.
    fn resume(&mut self) -> (r: GeneratorState<G::Yield, ()>)
        ensures
            old(self).remaining() == 0 ==> *final(self) == *old(self),
            old(self).remaining() > 0 && r is Yielded ==> final(self).remaining()
                == old(self).remaining() - 1,
            r is Complete ==> final(self).remaining() == 0,
    {
        if self.count != 0 {
            self.count = self.count - 1;
            match self.gen.resume() {
                GeneratorState::Yielded(y) => {
                    proof {
                        let s = old(self).gen.pending();
                        if self.count > 0 {
                            if (old(self).count as nat) < s.len() {
                                assert(first_n(s, old(self).count as nat).drop_first() =~= first_n(
                                    s.drop_first(),
                                    self.count as nat,
                                ));
                            }
                        } else {
                            assert(first_n(s, old(self).count as nat).drop_first() =~= Seq::<
                                G::Yield,
                            >::empty());
                        }
                    }
                    GeneratorState::Yielded(y)
                },
                GeneratorState::Complete(_) => {
                    self.count = 0;
                    GeneratorState::Complete(())
                },
            }
        } else {
            GeneratorState::Complete(())
        }
    }
}

/// Taking `n` yields exactly the first `n` values of the inner generator, or
/// all of them when it has fewer; taking none yields nothing.
pub proof fn lemma_take_prefix<G: Generator>(t: Take<G>)
    ensures
        t.pending().len() == if t.remaining() < t.inner().pending().len() {
            t.remaining()
        } else {
            t.inner().pending().len()
        },
        forall|i: int| 0 <= i < t.pending().len() ==> #[trigger] t.pending()[i] == t.inner().pending()[i],
        t.remaining() == 0 ==> t.pending().len() == 0,
{
}

} // verus!
