use vstd::prelude::*;

use core::marker::PhantomData;

verus! {

/// The identity of an object on the native side. It is only ever handed back
/// to the runtime; two handles are equal when they name the same object.
#[derive(Debug, Clone, Copy, PartialEq, Eq, PartialOrd, Ord, Hash, Structural)]
pub struct NativeHandle {
    raw: u64,
}

impl View for NativeHandle {
    type V = u64;

    closed spec fn view(&self) -> u64 {
        self.raw
    }
}

impl NativeHandle {
    /// The handle that the runtime gave as the number `raw`.
    pub fn from_raw(raw: u64) -> (r: Self)
        ensures
            r@ == raw,
    {
        NativeHandle { raw }
    }

    /// The number to hand back to the runtime.
    pub fn raw(&self) -> (r: u64)
        ensures
            r == self@,
    {
        self.raw
    }
}

/// A read-only view of an object that something else owns (the runtime, or a
/// parent object). It lives no longer than the borrow it was made under, and
/// nothing that it offers releases the object.
pub struct Ref<'a, T> {
    wrapper: T,
    _marker: PhantomData<&'a T>,
}

impl<'a, T> Ref<'a, T> {
    pub closed spec fn target(&self) -> T {
        self.wrapper
    }

    pub fn from(wrapper: T) -> (r: Self)
        ensures
            r.target() == wrapper,
    {
        Ref { wrapper, _marker: PhantomData }
    }

    pub fn get(&self) -> (r: &T)
        ensures
            *r == self.target(),
    {
        &self.wrapper
    }
}

} // verus!
