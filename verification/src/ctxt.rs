//! Interrupt / Exception context local data
//!
//! The main use case is safely adding state to exception / interrupt handlers.
//!
//! This is done in two stages, first you define a token that will appear in the
//! interrupt handler signature; each handler will have its unique token. This
//! token must be zero sized type because interrupt handlers' real signature is
//! `fn()` and it must also implement the `Context` trait. You must also make
//! sure that the token can't be constructed outside of the crate where it's
//! defined.
//!
//! Then data is pinned to the interrupt handler using `Local`: only the holder of
//! the handler's token can borrow it.

use vstd::prelude::*;
use core::marker::PhantomData;

verus! {

/// A token unique to a context
pub trait Context {
}

/// Data local to a context
pub struct Local<T, Ctxt> {
    _ctxt: PhantomData<Ctxt>,
    data: T,
}

impl<T, Ctxt: Context> Local<T, Ctxt> {
    /// The data.
    pub closed spec fn spec_data(&self) -> T {
        self.data
    }

    /// Initializes context local data
    pub fn new(value: T) -> (r: Self)
        ensures
            r.spec_data() == value,
    {
        Local { _ctxt: PhantomData, data: value }
    }

    /// Acquires a reference to the context local data
    pub fn borrow<'a>(&'a self, _ctxt: &'a Ctxt) -> (r: &'a T)
        ensures
            *r == self.spec_data(),
    {
        &self.data
    }

    /// Acquires a mutable reference to the context local data: what is written through it is
    /// the data afterwards. The context token itself is left as it is.
    pub fn borrow_mut<'a>(&'a mut self, ctxt: &'a mut Ctxt) -> (r: &'a mut T)
        ensures
            *r == old(self).spec_data(),
            final(self).spec_data() == *final(r),
            *final(ctxt) == *old(ctxt),
    {
        &mut self.data
    }
}

} // verus!
