//! The deferred command queue: the simulation appends requests during a
//! frame, and the dispatcher drains them all, in order, after the sweep.
use vstd::prelude::*;

verus! {

pub struct Commands<C> {
    buffer: Vec<C>,
}

impl<C> View for Commands<C> {
    type V = Seq<C>;

    closed spec fn view(&self) -> Seq<C> {
        self.buffer@
    }
}

impl<C> Commands<C> {
    pub fn new() -> (r: Commands<C>)
        ensures
            r@ == Seq::<C>::empty(),
    {
        Commands { buffer: Vec::new() }
    }

    /// Appends `cmd` behind every queued command.
    pub fn add(&mut self, cmd: C)
        ensures
            final(self)@ == old(self)@.push(cmd),
    {
        self.buffer.push(cmd);
    }

    /// Hands out every queued command, oldest first, and leaves the queue
    /// empty.
    pub fn take(&mut self) -> (r: Vec<C>)
        ensures
            r@ == old(self)@,
            final(self)@ == Seq::<C>::empty(),
    {
        let mut out: Vec<C> = Vec::new();
        core::mem::swap(&mut out, &mut self.buffer);
        out
    }

    pub fn len(&self) -> (r: usize)
        ensures
            r == self@.len(),
    {
        self.buffer.len()
    }
}

} // verus!
