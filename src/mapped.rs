use crate::generator::{Generator, GeneratorState};
use vstd::prelude::*;

verus! {

/// A generator built once, up front, from another one; every resume is
/// handed to it unchanged.
pub struct Mapped<G>(G);

impl<G> Mapped<G> {
    /// The generator that resumes are handed to.
    pub closed spec fn inner(&self) -> G {
        self.0
    }

    pub fn new(generator: G) -> (r: Self)
        ensures
            r.inner() == generator,
    {
        Mapped(generator)
    }
}

impl<G: Generator> Generator for Mapped<G> {
    type Yield = G::Yield;

    type Return = G::Return;

    open spec fn pending(&self) -> Seq<G::Yield> {
        self.inner().pending()
    }

    open spec fn outcome(&self) -> G::Return {
        self.inner().outcome()
    }

    open spec fn finished(&self) -> bool {
        self.inner().finished()
    }

    open spec fn wf(&self) -> bool {
        self.inner().wf()
    }

    fn resume(&mut self) -> (r: GeneratorState<G::Yield, G::Return>) {
        self.0.resume()
    }
}

} // verus!
