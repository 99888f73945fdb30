use crate::option::lift_made;
use vstd::prelude::*;

verus! {

/// Combinators that run a closure only where a boolean is `true`.
pub trait BoolExt: Sized {
    /// The boolean that `self` is.
    spec fn holds(&self) -> bool;

    /// What `mapper` makes where `self` is `true`; `None`, without a call of
    /// `mapper`, where it is `false`.
    fn then_and<TMapped, F: FnOnce() -> Option<TMapped>>(self, mapper: F) -> (out: Option<TMapped>)
        requires
            self.holds() ==> mapper.requires(()),
        ensures
            if self.holds() {
                mapper.ensures((), out)
            } else {
                out is None
            },
    ;

    /// What `mapper` makes where `self` is `true`; `Ok(None)`, without a call
    /// of `mapper`, where it is `false`.
    fn try_then_and<TMapped, TError, F: FnOnce() -> Result<Option<TMapped>, TError>>(
        self,
        mapper: F,
    ) -> (out: Result<Option<TMapped>, TError>)
        requires
            self.holds() ==> mapper.requires(()),
        ensures
            if self.holds() {
                mapper.ensures((), out)
            } else {
                out == Ok::<Option<TMapped>, TError>(None)
            },
    ;

    /// The option of what `mapper` makes, or the error with which it fails,
    /// where `self` is `true`; `Ok(None)`, without a call of `mapper`, where it
    /// is `false`.
    fn try_then<TMapped, TError, F: FnOnce() -> Result<TMapped, TError>>(self, mapper: F) -> (out:
        Result<Option<TMapped>, TError>)
        requires
            self.holds() ==> mapper.requires(()),
        ensures
            if self.holds() {
                exists|made: Result<TMapped, TError>| #[trigger]
                    mapper.ensures((), made) && out == lift_made(made)
            } else {
                out == Ok::<Option<TMapped>, TError>(None)
            },
    ;
}

impl BoolExt for bool {
    open spec fn holds(&self) -> bool {
        *self
    }

    fn then_and<TMapped, F: FnOnce() -> Option<TMapped>>(self, mapper: F) -> (out: Option<
        TMapped,
    >) {
        if self {
            mapper()
        } else {
            None
        }
    }

    fn try_then_and<TMapped, TError, F: FnOnce() -> Result<Option<TMapped>, TError>>(
        self,
        mapper: F,
    ) -> (out: Result<Option<TMapped>, TError>) {
        if self {
            mapper()
        } else {
            Ok(None)
        }
    }

    fn try_then<TMapped, TError, F: FnOnce() -> Result<TMapped, TError>>(self, mapper: F) -> (out:
        Result<Option<TMapped>, TError>) {
        if self {
            match mapper() {
                Ok(mapped) => Ok(Some(mapped)),
                Err(error) => Err(error),
            }
        } else {
            Ok(None)
        }
    }
}

} // verus!
