//! An extension trait for [`ControlFlow`] which provides inspection methods.
//!
//! The naming conventions are derived from [`Result::inspect_err`]. Since
//! [`ControlFlow`] is more symmetrical than [`Result`], the methods are called
//! [`inspect_break`] and [`inspect_continue`].
//!
//! Both methods lend the active payload to a callback and hand the value back
//! as it came in. Their contracts are stated over the callback's own contract:
//! `f.requires(..)` is what the callback asks of its argument, `f.ensures(..)`
//! is what holds once it has returned.
//!
//! [`inspect_break`]: ControlFlowExt::inspect_break
//! [`inspect_continue`]: ControlFlowExt::inspect_continue

use core::ops::ControlFlow;
use vstd::prelude::*;

pub mod lemmas;

verus! {

/// `f` may be called on the break payload of `v`, where `v` has one. Of a
/// `Continue` this asks nothing.
pub open spec fn callable_on_break<B, C, F: FnOnce(&B)>(f: F, v: ControlFlow<B, C>) -> bool {
    v matches ControlFlow::Break(b) ==> f.requires((&b,))
}

/// `f` has returned from a call on the break payload of `v`, where `v` has
/// one. Of a `Continue` this says nothing.
pub open spec fn returned_on_break<B, C, F: FnOnce(&B)>(f: F, v: ControlFlow<B, C>) -> bool {
    v matches ControlFlow::Break(b) ==> f.ensures((&b,), ())
}

/// `f` may be called on the continue payload of `v`, where `v` has one. Of a
/// `Break` this asks nothing.
pub open spec fn callable_on_continue<B, C, F: FnOnce(&C)>(f: F, v: ControlFlow<B, C>) -> bool {
    v matches ControlFlow::Continue(c) ==> f.requires((&c,))
}

/// `f` has returned from a call on the continue payload of `v`, where `v` has
/// one. Of a `Break` this says nothing.
pub open spec fn returned_on_continue<B, C, F: FnOnce(&C)>(f: F, v: ControlFlow<B, C>) -> bool {
    v matches ControlFlow::Continue(c) ==> f.ensures((&c,), ())
}

/// Extension trait for [`ControlFlow`].
pub trait ControlFlowExt {
    /// The break type of [`ControlFlow`].
    type B;

    /// The continue type of [`ControlFlow`].
    type C;

    /// The branching value that `self` is: its variant and its payload.
    spec fn flow(&self) -> ControlFlow<Self::B, Self::C>;

    /// Calls a function with a reference to the contained value if [`Break`].
    ///
    /// Returns the original [`ControlFlow`].
    ///
    /// The callback has to accept the break payload, and only that: of a
    /// `Continue` value nothing is asked of `f`, so `f` may then be a function
    /// that no argument satisfies, and it is not run. On a `Break` the
    /// callback has run to its end on a reference to the payload; being an
    /// `FnOnce` taken by value, it cannot run a second time.
    ///
    /// [`Break`]: ControlFlow::Break
    ///
    /// # Examples
    ///
    /// ```
    /// # use core::ops::ControlFlow;
    /// use controlflow_inspect::ControlFlowExt as _;
    ///
    /// let mut num = 10;
    /// let mut cf = ControlFlow::Break(5);
    /// cf.inspect_break(|n| num += n);
    /// assert_eq!(num, 15);
    ///
    /// cf = ControlFlow::Continue("x");
    /// cf.inspect_break(|n| num += n);
    /// assert_eq!(num, 15);
    /// ```
    fn inspect_break<F: FnOnce(&Self::B)>(self, f: F) -> (res: Self)
        requires
            callable_on_break(f, self.flow()),
        ensures
            res == self,
            returned_on_break(f, self.flow()),
    ;

    /// Calls a function with a reference to the contained value if [`Continue`].
    ///
    /// Returns the original [`ControlFlow`].
    ///
    /// The callback has to accept the continue payload, and only that: of a
    /// `Break` value nothing is asked of `f`, so `f` may then be a function
    /// that no argument satisfies, and it is not run. On a `Continue` the
    /// callback has run to its end on a reference to the payload; being an
    /// `FnOnce` taken by value, it cannot run a second time.
    ///
    /// [`Continue`]: ControlFlow::Continue
    ///
    /// # Examples
    ///
    /// ```
    /// # use core::ops::ControlFlow;
    /// use controlflow_inspect::ControlFlowExt as _;
    ///
    /// let mut num = 10;
    /// let mut cf = ControlFlow::Break("x");
    /// cf.inspect_continue(|n| num += n);
    /// assert_eq!(num, 10);
    ///
    /// cf = ControlFlow::Continue(5);
    /// cf.inspect_continue(|n| num += n);
    /// assert_eq!(num, 15);
    /// ```
    fn inspect_continue<F: FnOnce(&Self::C)>(self, f: F) -> (res: Self)
        requires
            callable_on_continue(f, self.flow()),
        ensures
            res == self,
            returned_on_continue(f, self.flow()),
    ;
}

impl<B, C> ControlFlowExt for ControlFlow<B, C> {
    type B = B;

    type C = C;

    open spec fn flow(&self) -> ControlFlow<B, C> {
        *self
    }

    /// A `ControlFlow` is its own model: the value comes back as it was, and
    /// on a `Break` the callback has returned from a call on the payload.
    fn inspect_break<F: FnOnce(&B)>(self, f: F) -> (res: Self)
        ensures
            res == self,
            returned_on_break(f, self),
    {
        if let ControlFlow::Break(ref b) = self {
            f(b);
        }
        self
    }

    /// A `ControlFlow` is its own model: the value comes back as it was, and
    /// on a `Continue` the callback has returned from a call on the payload.
    fn inspect_continue<F: FnOnce(&C)>(self, f: F) -> (res: Self)
        ensures
            res == self,
            returned_on_continue(f, self),
    {
        if let ControlFlow::Continue(ref c) = self {
            f(c);
        }
        self
    }
}

} // verus!
