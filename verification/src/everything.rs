use vstd::prelude::*;

verus! {

/// Combinators on every value, for chaining calls.
pub trait EverythingExt: Sized {
    /// Hands `self` to `callback` and returns what it makes.
    fn thrush<TReturn, F: FnOnce(Self) -> TReturn>(self, callback: F) -> (out: TReturn)
        requires
            callback.requires((self,)),
        ensures
            callback.ensures((self,), out),
    ;

    /// `self` where `callback` accepts it, and `None` where it does not.
    fn when<F: FnOnce(&Self) -> bool>(self, callback: F) -> (out: Option<Self>)
        requires
            callback.requires((&self,)),
        ensures
            exists|accepted: bool| #[trigger]
                callback.ensures((&self,), accepted) && out == if accepted {
                    Some(self)
                } else {
                    None
                },
    ;

    /// A reference to `self` where `callback` accepts it, and `None` where it
    /// does not.
    fn when_ref<F: FnOnce(&Self) -> bool>(&self, callback: F) -> (out: Option<&Self>)
        requires
            callback.requires((self,)),
        ensures
            exists|accepted: bool| #[trigger]
                callback.ensures((self,), accepted) && out == if accepted {
                    Some(self)
                } else {
                    None
                },
    ;

    /// Shows `self` to `callback` and returns it unchanged.
    fn tap<F: FnOnce(&Self)>(self, callback: F) -> (out: Self)
        requires
            callback.requires((&self,)),
        ensures
            out == self,
            callback.ensures((&self,), ()),
    ;
}

impl<T: Sized> EverythingExt for T {
    fn thrush<TReturn, F: FnOnce(Self) -> TReturn>(self, callback: F) -> (out: TReturn) {
        callback(self)
    }

    fn when<F: FnOnce(&Self) -> bool>(self, callback: F) -> (out: Option<Self>) {
        if callback(&self) {
            Some(self)
        } else {
            None
        }
    }

    fn when_ref<F: FnOnce(&Self) -> bool>(&self, callback: F) -> (out: Option<&Self>) {
        if callback(self) {
            Some(self)
        } else {
            None
        }
    }

    fn tap<F: FnOnce(&Self)>(self, callback: F) -> (out: Self) {
        callback(&self);
        self
    }
}

} // verus!
