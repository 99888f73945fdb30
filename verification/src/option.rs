use itertools::Either;
use std::iter::Empty;
use std::ops::Deref;
use vstd::pervasive::runtime_assert;
use vstd::prelude::*;

verus! {

/// The two-sided sum type of `itertools`, with its variants `Left` and `Right`.
#[verifier::external_type_specification]
#[verifier::reject_recursive_types(L)]
#[verifier::reject_recursive_types(R)]
pub struct ExEither<L, R>(Either<L, R>);

/// The iterator of the standard library that yields nothing.
#[verifier::external_type_specification]
#[verifier::external_body]
#[verifier::reject_recursive_types(T)]
pub struct ExEmpty<T>(Empty<T>);

/// An iterator that yields nothing.
///
/// Wraps `std::iter::empty`. Nothing is claimed of the result here: it holds no
/// data, and what it yields is for its `next` to say.
#[verifier::external_body]
fn nothing<T>() -> Empty<T> {
    std::iter::empty()
}

/// What [`OptionExt::try_map`] returns once its closure has answered `made`.
pub open spec fn lift_made<TMapped, TError>(made: Result<TMapped, TError>) -> Result<
    Option<TMapped>,
    TError,
> {
    match made {
        Ok(mapped) => Ok(Some(mapped)),
        Err(error) => Err(error),
    }
}

/// What [`OptionExt::try_filter`] returns for an option that holds `value`
/// once its closure has answered `verdict`.
pub open spec fn keep_accepted<TValue, TError>(
    value: TValue,
    verdict: Result<bool, TError>,
) -> Result<Option<TValue>, TError> {
    match verdict {
        Ok(accepted) => Ok(
            if accepted {
                Some(value)
            } else {
                None
            },
        ),
        Err(error) => Err(error),
    }
}

/// Combinators on `Option` whose closures may fail, and tests of what an
/// option holds.
pub trait OptionExt: Sized {
    /// The type of the value that the option may hold.
    type Unwrapped;

    /// The option that `self` is.
    spec fn as_option(&self) -> Option<Self::Unwrapped>;

    /// Whether the option holds a value that `predicate` accepts.
    fn matches<F: FnOnce(Self::Unwrapped) -> bool>(self, predicate: F) -> (out: bool)
        requires
            self.as_option() matches Some(value) ==> predicate.requires((value,)),
        ensures
            match self.as_option() {
                Some(value) => predicate.ensures((value,), out),
                None => !out,
            },
    ;

    /// Whether the option holds a value that `predicate` accepts, where
    /// `predicate` may fail: its answer is handed on as it is, and an empty
    /// option gives `Ok(false)`.
    fn try_matches<TError, F: FnOnce(Self::Unwrapped) -> Result<bool, TError>>(
        self,
        predicate: F,
    ) -> (out: Result<bool, TError>)
        requires
            self.as_option() matches Some(value) ==> predicate.requires((value,)),
        ensures
            match self.as_option() {
                Some(value) => predicate.ensures((value,), out),
                None => out == Ok::<bool, TError>(false),
            },
    ;

    /// Whether the option is empty or holds a value that `predicate` accepts.
    fn is_none_or_matches<F: FnOnce(Self::Unwrapped) -> bool>(self, predicate: F) -> (out: bool)
        requires
            self.as_option() matches Some(value) ==> predicate.requires((value,)),
        ensures
            match self.as_option() {
                Some(value) => predicate.ensures((value,), out),
                None => out,
            },
    ;

    /// Hands out the value of the option, after filling an empty option with
    /// what `predicate` makes. Where `predicate` fails, the option stays empty
    /// and the error is returned.
    fn try_get_or_insert_with<TError, F: FnOnce() -> Result<Self::Unwrapped, TError>>(
        &mut self,
        predicate: F,
    ) -> (out: Result<&mut Self::Unwrapped, TError>)
        requires
            old(self).as_option() is None ==> predicate.requires(()),
        ensures
            match old(self).as_option() {
                Some(value) => out matches Ok(slot) && {
                    &&& *slot == value
                    &&& final(self).as_option() == Some(*final(slot))
                },
                None => exists|made: Result<Self::Unwrapped, TError>| #[trigger]
                    predicate.ensures((), made) && match made {
                        Ok(value) => out matches Ok(slot) && {
                            &&& *slot == value
                            &&& final(self).as_option() == Some(*final(slot))
                        },
                        Err(error) => {
                            &&& out == Err::<&mut Self::Unwrapped, TError>(error)
                            &&& final(self).as_option() is None
                        },
                    },
            },
    ;
    /// The option itself where it holds a value; what `predicate` makes where
    /// it is empty.
    fn try_or_else<TError, F: FnOnce() -> Result<Option<Self::Unwrapped>, TError>>(
        self,
        predicate: F,
    ) -> (out: Result<Option<Self::Unwrapped>, TError>)
        requires
            self.as_option() is None ==> predicate.requires(()),
        ensures
            match self.as_option() {
                Some(value) => out == Ok::<Option<Self::Unwrapped>, TError>(Some(value)),
                None => predicate.ensures((), out),
            },
    ;

    /// The value of the option where it holds one; what `predicate` makes where
    /// it is empty.
    fn try_unwrap_or_else<TError, F: FnOnce() -> Result<Self::Unwrapped, TError>>(
        self,
        predicate: F,
    ) -> (out: Result<Self::Unwrapped, TError>)
        requires
            self.as_option() is None ==> predicate.requires(()),
        ensures
            match self.as_option() {
                Some(value) => out == Ok::<Self::Unwrapped, TError>(value),
                None => predicate.ensures((), out),
            },
    ;

    /// What `predicate` makes of the value of the option; `Ok(None)` where the
    /// option is empty.
    fn try_and_then<TMapped, TError, F: FnOnce(Self::Unwrapped) -> Result<Option<TMapped>, TError>>(
        self,
        predicate: F,
    ) -> (out: Result<Option<TMapped>, TError>)
        requires
            self.as_option() matches Some(value) ==> predicate.requires((value,)),
        ensures
            match self.as_option() {
                Some(value) => predicate.ensures((value,), out),
                None => out == Ok::<Option<TMapped>, TError>(None),
            },
    ;

    /// The option of what `predicate` makes of the value, or the error with
    /// which `predicate` fails; `Ok(None)` where the option is empty.
    fn try_map<TMapped, TError, F: FnOnce(Self::Unwrapped) -> Result<TMapped, TError>>(
        self,
        predicate: F,
    ) -> (out: Result<Option<TMapped>, TError>)
        requires
            self.as_option() matches Some(value) ==> predicate.requires((value,)),
        ensures
            match self.as_option() {
                Some(value) => exists|made: Result<TMapped, TError>| #[trigger]
                    predicate.ensures((value,), made) && out == lift_made(made),
                None => out == Ok::<Option<TMapped>, TError>(None),
            },
    ;

    /// The option where `predicate` accepts its value, `Ok(None)` where it
    /// rejects the value or the option is empty, and the error where
    /// `predicate` fails.
    fn try_filter<TError, F: FnOnce(&Self::Unwrapped) -> Result<bool, TError>>(
        self,
        predicate: F,
    ) -> (out: Result<Option<Self::Unwrapped>, TError>)
        requires
            self.as_option() matches Some(value) ==> predicate.requires((&value,)),
        ensures
            match self.as_option() {
                Some(value) => exists|verdict: Result<bool, TError>| #[trigger]
                    predicate.ensures((&value,), verdict) && out == keep_accepted(value, verdict),
                None => out == Ok::<Option<Self::Unwrapped>, TError>(None),
            },
    ;

    /// What `predicate` makes of the value of the option; what `default` makes
    /// where the option is empty.
    fn try_map_or_else<
        TMapped,
        TError,
        D: FnOnce() -> Result<TMapped, TError>,
        F: FnOnce(Self::Unwrapped) -> Result<TMapped, TError>,
    >(self, default: D, predicate: F) -> (out: Result<TMapped, TError>)
        requires
            self.as_option() matches Some(value) ==> predicate.requires((value,)),
            self.as_option() is None ==> default.requires(()),
        ensures
            match self.as_option() {
                Some(value) => predicate.ensures((value,), out),
                None => default.ensures((), out),
            },
    ;

    /// What `predicate` makes of the value of the option; `Ok(default)` where
    /// the option is empty.
    fn try_map_or<TMapped, TError, F: FnOnce(Self::Unwrapped) -> Result<TMapped, TError>>(
        self,
        default: TMapped,
        predicate: F,
    ) -> (out: Result<TMapped, TError>)
        requires
            self.as_option() matches Some(value) ==> predicate.requires((value,)),
        ensures
            match self.as_option() {
                Some(value) => predicate.ensures((value,), out),
                None => out == Ok::<TMapped, TError>(default),
            },
    ;

    /// What `mapper` makes of the value of the option; the default value of the
    /// result's type where the option is empty.
    fn map_or_default<TMapped: Default, F: FnOnce(Self::Unwrapped) -> TMapped>(
        self,
        mapper: F,
    ) -> (out: TMapped)
        requires
            self.as_option() matches Some(value) ==> mapper.requires((value,)),
        ensures
            match self.as_option() {
                Some(value) => mapper.ensures((value,), out),
                None => call_ensures(TMapped::default, (), out),
            },
    ;

    /// What `mapper` makes of the value of the option, or the error with which
    /// it fails; the default value of the result's type where the option is
    /// empty.
    fn try_map_or_default<
        TMapped: Default,
        TError,
        F: FnOnce(Self::Unwrapped) -> Result<TMapped, TError>,
    >(self, mapper: F) -> (out: Result<TMapped, TError>)
        requires
            self.as_option() matches Some(value) ==> mapper.requires((value,)),
        ensures
            match self.as_option() {
                Some(value) => mapper.ensures((value,), out),
                None => out matches Ok(made) && call_ensures(TMapped::default, (), made),
            },
    ;

    /// Stops the program unless the option is empty. Verified callers show
    /// that it is.
    fn assert_none(&self)
        requires
            self.as_option() is None,
    ;

    /// Whether the option holds a value that equals `other`.
    fn is<TOther>(&self, other: TOther) -> (out: bool) where Self::Unwrapped: PartialEq<TOther>
        ensures
            match self.as_option() {
                Some(value) => call_ensures(
                    <Self::Unwrapped as PartialEq<TOther>>::eq,
                    (&value, &other),
                    out,
                ),
                None => !out,
            },
    ;

    /// The option where it holds a value that equals `other`, and `None`
    /// otherwise.
    fn if_is<TOther>(self, other: TOther) -> (out: Self) where Self::Unwrapped: PartialEq<TOther>
        ensures
            match self.as_option() {
                Some(value) => exists|same: bool| #[trigger]
                    call_ensures(
                        <Self::Unwrapped as PartialEq<TOther>>::eq,
                        (&value, &other),
                        same,
                    ) && out.as_option() == if same {
                        Some(value)
                    } else {
                        None
                    },
                None => out.as_option() is None,
            },
    ;
}

impl<TValue> OptionExt for Option<TValue> {
    type Unwrapped = TValue;

    open spec fn as_option(&self) -> Option<TValue> {
        *self
    }

    fn matches<F: FnOnce(TValue) -> bool>(self, predicate: F) -> (out: bool) {
        match self {
            Some(value) => predicate(value),
            None => false,
        }
    }

    fn try_matches<TError, F: FnOnce(TValue) -> Result<bool, TError>>(self, predicate: F) -> (out:
        Result<bool, TError>) {
        match self {
            None => Ok(false),
            Some(value) => predicate(value),
        }
    }

    fn is_none_or_matches<F: FnOnce(TValue) -> bool>(self, predicate: F) -> (out: bool) {
        match self {
            Some(value) => predicate(value),
            None => true,
        }
    }

    fn try_get_or_insert_with<TError, F: FnOnce() -> Result<TValue, TError>>(
        &mut self,
        predicate: F,
    ) -> (out: Result<&mut TValue, TError>) {
        match self {
            Some(value) => Ok(value),
            None => {
                match predicate() {
                    Ok(value) => Ok(self.insert(value)),
                    Err(error) => Err(error),
                }
            },
        }
    }
    fn try_or_else<TError, F: FnOnce() -> Result<Option<TValue>, TError>>(
        self,
        predicate: F,
    ) -> (out: Result<Option<TValue>, TError>) {
        match self {
            Some(value) => Ok(Some(value)),
            None => predicate(),
        }
    }

    fn try_unwrap_or_else<TError, F: FnOnce() -> Result<TValue, TError>>(
        self,
        predicate: F,
    ) -> (out: Result<TValue, TError>) {
        match self {
            Some(value) => Ok(value),
            None => predicate(),
        }
    }

    fn try_and_then<TMapped, TError, F: FnOnce(TValue) -> Result<Option<TMapped>, TError>>(
        self,
        predicate: F,
    ) -> (out: Result<Option<TMapped>, TError>) {
        match self {
            Some(value) => predicate(value),
            None => Ok(None),
        }
    }

    fn try_map<TMapped, TError, F: FnOnce(TValue) -> Result<TMapped, TError>>(
        self,
        predicate: F,
    ) -> (out: Result<Option<TMapped>, TError>) {
        match self {
            Some(value) => match predicate(value) {
                Ok(mapped) => Ok(Some(mapped)),
                Err(error) => Err(error),
            },
            None => Ok(None),
        }
    }

    fn try_filter<TError, F: FnOnce(&TValue) -> Result<bool, TError>>(self, predicate: F) -> (out:
        Result<Option<TValue>, TError>) {
        match self {
            None => Ok(None),
            Some(value) => match predicate(&value) {
                Ok(accepted) => if accepted {
                    Ok(Some(value))
                } else {
                    Ok(None)
                },
                Err(error) => Err(error),
            },
        }
    }

    fn try_map_or_else<
        TMapped,
        TError,
        D: FnOnce() -> Result<TMapped, TError>,
        F: FnOnce(TValue) -> Result<TMapped, TError>,
    >(self, default: D, predicate: F) -> (out: Result<TMapped, TError>) {
        match self {
            None => default(),
            Some(value) => predicate(value),
        }
    }

    fn try_map_or<TMapped, TError, F: FnOnce(TValue) -> Result<TMapped, TError>>(
        self,
        default: TMapped,
        predicate: F,
    ) -> (out: Result<TMapped, TError>) {
        match self {
            None => Ok(default),
            Some(value) => predicate(value),
        }
    }

    fn map_or_default<TMapped: Default, F: FnOnce(TValue) -> TMapped>(self, mapper: F) -> (out:
        TMapped) {
        match self {
            Some(value) => mapper(value),
            None => TMapped::default(),
        }
    }

    fn try_map_or_default<TMapped: Default, TError, F: FnOnce(TValue) -> Result<TMapped, TError>>(
        self,
        mapper: F,
    ) -> (out: Result<TMapped, TError>) {
        match self {
            Some(value) => mapper(value),
            None => Ok(TMapped::default()),
        }
    }

    fn assert_none(&self) {
        runtime_assert(self.is_none());
    }

    fn is<TOther>(&self, other: TOther) -> (out: bool) where TValue: PartialEq<TOther> {
        match self {
            None => false,
            Some(value) => *value == other,
        }
    }

    fn if_is<TOther>(self, other: TOther) -> (out: Self) where TValue: PartialEq<TOther> {
        match self {
            Some(value) => if value == other {
                Some(value)
            } else {
                None
            },
            None => None,
        }
    }
}

/// Collections and strings that can tell whether they hold anything.
pub trait IsEmpty {
    /// Whether `self` holds nothing.
    spec fn holds_nothing(&self) -> bool;

    /// Whether `self` holds nothing.
    fn _is_empty(&self) -> (out: bool)
        ensures
            out == self.holds_nothing(),
    ;
}

impl IsEmpty for &str {
    open spec fn holds_nothing(&self) -> bool {
        self@.len() == 0
    }

    fn _is_empty(&self) -> (out: bool) {
        self.is_empty()
    }
}

impl IsEmpty for &String {
    open spec fn holds_nothing(&self) -> bool {
        self@.len() == 0
    }

    fn _is_empty(&self) -> (out: bool) {
        self.as_str().is_empty()
    }
}

impl IsEmpty for String {
    open spec fn holds_nothing(&self) -> bool {
        self@.len() == 0
    }

    fn _is_empty(&self) -> (out: bool) {
        self.as_str().is_empty()
    }
}

impl<TItem> IsEmpty for &[TItem] {
    open spec fn holds_nothing(&self) -> bool {
        self@.len() == 0
    }

    fn _is_empty(&self) -> (out: bool) {
        self.is_empty()
    }
}

impl<TItem> IsEmpty for &Vec<TItem> {
    open spec fn holds_nothing(&self) -> bool {
        self@.len() == 0
    }

    fn _is_empty(&self) -> (out: bool) {
        self.is_empty()
    }
}

impl<TItem> IsEmpty for Vec<TItem> {
    open spec fn holds_nothing(&self) -> bool {
        self@.len() == 0
    }

    fn _is_empty(&self) -> (out: bool) {
        self.is_empty()
    }
}

/// Turns what holds nothing into `None`.
pub trait NonEmpty: Sized {
    /// The optional form of `Self`.
    type Optional;

    /// Whether `self` holds something.
    spec fn holds_something(&self) -> bool;

    /// What [`NonEmpty::non_empty`] makes of `self`.
    spec fn kept_if_non_empty(self) -> Self::Optional;

    /// `self` where it holds something, and `None` where it does not.
    fn non_empty(self) -> (out: Self::Optional)
        ensures
            out == self.kept_if_non_empty(),
    ;

    /// Whether `self` holds something.
    fn is_non_empty(&self) -> (out: bool)
        ensures
            out == self.holds_something(),
    ;
}

impl<T> NonEmpty for T where T: IsEmpty {
    type Optional = Option<Self>;

    open spec fn holds_something(&self) -> bool {
        !self.holds_nothing()
    }

    open spec fn kept_if_non_empty(self) -> Option<Self> {
        if self.holds_nothing() {
            None
        } else {
            Some(self)
        }
    }

    fn non_empty(self) -> (out: Option<Self>) {
        if self._is_empty() {
            None
        } else {
            Some(self)
        }
    }

    fn is_non_empty(&self) -> (out: bool) {
        !self._is_empty()
    }
}

impl<T> NonEmpty for Option<T> where T: IsEmpty {
    type Optional = Self;

    open spec fn holds_something(&self) -> bool {
        self matches Some(value) && !value.holds_nothing()
    }

    open spec fn kept_if_non_empty(self) -> Option<T> {
        if self.holds_something() {
            self
        } else {
            None
        }
    }

    fn non_empty(self) -> (out: Option<T>) {
        match self {
            Some(value) => if value._is_empty() {
                None
            } else {
                Some(value)
            },
            None => None,
        }
    }

    fn is_non_empty(&self) -> (out: bool) {
        match self {
            Some(value) => !value._is_empty(),
            None => false,
        }
    }
}

/// Borrows what the value of an option points to, two pointers deep.
pub trait OptionExtDeref {
    /// What the value of the option points to after two dereferences.
    type Target: ?Sized;

    /// Whether the option holds a value.
    spec fn holds_pointer(&self) -> bool;

    /// Whether `target` is what two dereferences of the value of the option,
    /// one after the other, may give.
    spec fn leads_to(&self, target: &Self::Target) -> bool;

    /// A reference to what the value points to after two dereferences; `None`
    /// where the option is empty.
    fn as_double_deref(&self) -> (out: Option<&Self::Target>)
        ensures
            out is Some <==> self.holds_pointer(),
            out matches Some(target) ==> self.leads_to(target),
    ;
}

impl<T> OptionExtDeref for Option<T> where T: Deref, T::Target: Deref {
    type Target = <<T as Deref>::Target as Deref>::Target;

    open spec fn holds_pointer(&self) -> bool {
        self is Some
    }

    open spec fn leads_to(&self, target: &Self::Target) -> bool {
        self matches Some(outer) && exists|inner: &<T as Deref>::Target|
            call_ensures(T::deref, (&outer,), inner) && #[trigger] call_ensures(
                <<T as Deref>::Target as Deref>::deref,
                (inner,),
                target,
            )
    }

    fn as_double_deref(&self) -> (out: Option<&Self::Target>) {
        match self {
            Some(outer) => Some(outer.deref().deref()),
            None => None,
        }
    }
}

/// Iterates over nothing where an option holds no iterator.
pub trait OptionExtIterator: Sized {
    /// The iterator that the option may hold.
    type TIterator: Iterator;

    /// Whether `out` is what [`OptionExtIterator::unwrap_or_empty`] makes of the
    /// option: its iterator on the left, or an empty iterator on the right.
    spec fn unwraps_to(
        self,
        out: Either<Self::TIterator, Empty<<Self::TIterator as Iterator>::Item>>,
    ) -> bool;

    /// The iterator of the option on the left; an iterator that yields nothing
    /// on the right where the option is empty.
    fn unwrap_or_empty(self) -> (out: Either<
        Self::TIterator,
        Empty<<Self::TIterator as Iterator>::Item>,
    >)
        ensures
            self.unwraps_to(out),
    ;
}

impl<TIterator: Iterator> OptionExtIterator for Option<TIterator> {
    type TIterator = TIterator;

    open spec fn unwraps_to(
        self,
        out: Either<TIterator, Empty<<TIterator as Iterator>::Item>>,
    ) -> bool {
        match self {
            Some(iterator) => out == Either::<
                TIterator,
                Empty<<TIterator as Iterator>::Item>,
            >::Left(iterator),
            None => out is Right,
        }
    }

    fn unwrap_or_empty(self) -> (out: Either<TIterator, Empty<<TIterator as Iterator>::Item>>) {
        match self {
            Some(iterator) => Either::Left(iterator),
            None => Either::Right(nothing()),
        }
    }
}

} // verus!
