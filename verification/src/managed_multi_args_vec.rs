//! Call arguments that are left with the loader they came from.

use core::marker::PhantomData;
use vstd::prelude::*;

verus! {

/// Names an argument in messages about it.
#[derive(Clone, Copy, Debug, PartialEq, Eq)]
pub struct ArgId(pub usize);

/// A source of call arguments, read one by one. Each host brings its own.
pub trait DynArgInput {
    /// Whether an argument is left.
    fn has_next(&self) -> bool;

    /// Takes the bytes of the next argument.
    fn next_arg_input(&mut self) -> Vec<u8>;
}

/// A value that is made from the arguments that a loader still holds.
pub trait DynArg<I: DynArgInput>: Sized {
    fn dyn_load(loader: I, arg_id: ArgId) -> Self;
}

/// The remaining arguments of a call, each of type `T` once decoded. They
/// are not read in advance: the value keeps the loader and nothing else.
pub struct ManagedMultiArgVec<T, I> where I: DynArgInput {
    _phantom: PhantomData<T>,
    loader: I,
}

// alias
pub type ManagedVarArgs<T, I> = ManagedMultiArgVec<T, I>;

impl<T, I> ManagedMultiArgVec<T, I> where I: DynArgInput {
    /// The loader that holds the arguments.
    pub closed spec fn loader(self) -> I {
        self.loader
    }

    /// Gives the loader back, with the arguments that nobody read.
    pub fn into_loader(self) -> (loader: I)
        ensures
            loader == self.loader(),
    {
        self.loader
    }
}

impl<T, I> DynArg<I> for ManagedMultiArgVec<T, I> where I: DynArgInput {
    /// Takes the loader as it is; no argument is read.
    fn dyn_load(loader: I, arg_id: ArgId) -> (args: Self)
        ensures
            args.loader() == loader,
    {
        ManagedMultiArgVec { _phantom: PhantomData, loader }
    }
}

} // verus!
