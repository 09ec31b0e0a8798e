//! Process Stack Pointer support

use vstd::prelude::*;

verus! {

/// Represents access to a [`Stack`]: the address of its lowest word and its size in words.
pub struct StackHandle(usize, usize);

impl StackHandle {
    /// The address of the bottom of the stack.
    pub closed spec fn spec_bottom(&self) -> usize {
        self.0
    }

    /// The size of the stack in 32-bit words.
    pub closed spec fn spec_words(&self) -> usize {
        self.1
    }

    /// The stack ends within the address space.
    #[verifier::type_invariant]
    closed spec fn fits(&self) -> bool {
        self.0 + 4 * self.1 <= usize::MAX
    }

    /// Get the address of the top of the stack: the bottom plus the size, in bytes.
    pub fn top(&mut self) -> (r: usize)
        ensures
            r == old(self).spec_bottom() + 4 * old(self).spec_words(),
            *final(self) == *old(self),
    {
        proof {
            use_type_invariant(&*self);
        }
        self.0 + 4 * self.1
    }

    /// Get the address of the bottom of the stack
    pub fn bottom(&mut self) -> (r: usize)
        ensures
            r == old(self).spec_bottom(),
            *final(self) == *old(self),
    {
        self.0
    }
}

/// A stack you can use as your Process Stack (PSP)
///
/// The const-param N is the size **in 32-bit words**. The stack space itself lives where the
/// caller keeps it; this records whether a handle to it was taken.
pub struct Stack<const N: usize> {
    taken: bool,
}

impl<const N: usize> Stack<N> {
    /// Whether a handle to this stack was taken.
    pub closed spec fn spec_taken(&self) -> bool {
        self.taken
    }

    /// Const-initialise a Stack
    pub fn new() -> (r: Stack<N>)
        ensures
            !r.spec_taken(),
    {
        Stack { taken: false }
    }

    /// Whether a handle to this stack was taken.
    pub fn taken(&self) -> (r: bool)
        ensures
            r == self.spec_taken(),
    {
        self.taken
    }

    /// Return a handle to the stack, whose space starts at address `space`, 8-byte aligned as a
    /// process stack must be. There is at most one handle to a stack.
    pub fn take_handle(&mut self, space: usize) -> (r: StackHandle)
        requires
            !old(self).spec_taken(),
            space % 8 == 0,
            space + 4 * N <= usize::MAX,
        ensures
            final(self).spec_taken(),
            r.spec_bottom() == space,
            r.spec_bottom() % 8 == 0,
            r.spec_words() == N,
    {
        self.taken = true;
        StackHandle(space, N)
    }
}

impl<const N: usize> Default for Stack<N> {
    /// A stack whose handle has not been taken.
    fn default() -> (r: Self)
        ensures
            !r.spec_taken(),
    {
        Stack::new()
    }
}

} // verus!
