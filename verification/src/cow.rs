use crate::slice::{
    clone_items, equal_by_eq, is_clone_of, is_equal_by_eq, lemma_equal_by_eq_spec,
};
use crate::text::{is_slice_range, lemma_trim_idempotent, slice_of, substring, trim, trim_of};
use std::borrow::Cow;
use std::ops::Range;
use vstd::prelude::*;
use vstd::std_specs::cmp::PartialEqSpec;
use vstd::string::StringSliceAdditionalSpecFns;
use vstd::utf8::{encode_utf8, encode_utf8_decode_utf8};

verus! {

/// Whether two string slices hold the same characters: whether they are made
/// of the same bytes.
fn same_text(left: &str, right: &str) -> (same: bool)
    ensures
        same == (left@ == right@),
{
    let same = equal_by_eq(left.as_bytes(), right.as_bytes());
    proof {
        lemma_equal_by_eq_spec(left.spec_bytes(), right.spec_bytes(), same);
        if same {
            assert forall|i: int| 0 <= i < left.spec_bytes().len() implies left.spec_bytes()[i]
                == right.spec_bytes()[i] by {
                assert(left.spec_bytes()[i].eq_spec(&right.spec_bytes()[i]));
            }
            assert(left.spec_bytes() =~= right.spec_bytes());
            encode_utf8_decode_utf8(left@);
            encode_utf8_decode_utf8(right@);
        }
    }
    same
}

/// Combinators that transform the data of a borrowed-or-owned value and copy
/// it only where the transformation changed it.
pub trait CowExt<'a>: Sized {
    /// The borrowed form of the data.
    type Borrowed: 'a + ToOwned + ?Sized;

    /// Whether `data` is what the value hands to a transformation: the very
    /// reference that a borrowed value holds, or a borrow of what an owned
    /// value holds.
    spec fn lends(&self, data: &Self::Borrowed) -> bool;

    /// Whether `out` is what [`CowExt::map_borrowed`] makes of the value once the
    /// transformation has answered `mapped`.
    spec fn map_borrowed_gives(self, mapped: &Self::Borrowed, out: Cow<'a, Self::Borrowed>) -> bool;

    /// Whether `out` is what [`CowExt::map_borrowed_ref`] makes of the value once
    /// the transformation has answered `mapped`.
    spec fn map_borrowed_ref_gives(
        &self,
        mapped: &Self::Borrowed,
        out: Cow<'a, Self::Borrowed>,
    ) -> bool;

    /// Whether `out` is what [`CowExt::map_cow`] makes of the value once the
    /// transformation has answered `mapped`.
    spec fn map_cow_gives(
        self,
        mapped: Cow<'a, Self::Borrowed>,
        out: Cow<'a, Self::Borrowed>,
    ) -> bool;

    /// Whether `out` is what [`CowExt::map_cow_ref`] makes of the value once the
    /// transformation has answered `mapped`.
    spec fn map_cow_ref_gives(
        &self,
        mapped: Cow<'a, Self::Borrowed>,
        out: Cow<'a, Self::Borrowed>,
    ) -> bool;

    /// Applies `mapper` to the data. A borrowed value stays borrowed. An owned
    /// value stays owned, and keeps what it owns when `mapper` answered the
    /// whole of it.
    fn map_borrowed<F: FnOnce(&Self::Borrowed) -> &Self::Borrowed>(self, mapper: F) -> (out: Cow<
        'a,
        Self::Borrowed,
    >)
        requires
            forall|data: &Self::Borrowed|
                #![trigger self.lends(data)]
                #![trigger mapper.requires((data,))]
                self.lends(data) ==> mapper.requires((data,)),
        ensures
            exists|data: &Self::Borrowed, mapped: &Self::Borrowed|
                #![trigger self.lends(data), self.map_borrowed_gives(mapped, out)]
                #![trigger mapper.ensures((data,), mapped)]
                {
                    &&& self.lends(data)
                    &&& mapper.ensures((data,), mapped)
                    &&& self.map_borrowed_gives(mapped, out)
                },
    ;

    /// Applies `mapper` to the data and leaves the value as it is. A borrowed
    /// value gives a borrowed one; an owned value gives a copy of what `mapper`
    /// answered.
    fn map_borrowed_ref<F: FnOnce(&Self::Borrowed) -> &Self::Borrowed>(&self, mapper: F) -> (out:
        Cow<'a, Self::Borrowed>)
        requires
            forall|data: &Self::Borrowed|
                #![trigger self.lends(data)]
                #![trigger mapper.requires((data,))]
                self.lends(data) ==> mapper.requires((data,)),
        ensures
            exists|data: &Self::Borrowed, mapped: &Self::Borrowed|
                #![trigger self.lends(data), self.map_borrowed_ref_gives(mapped, out)]
                #![trigger mapper.ensures((data,), mapped)]
                {
                    &&& self.lends(data)
                    &&& mapper.ensures((data,), mapped)
                    &&& self.map_borrowed_ref_gives(mapped, out)
                },
    ;

    /// Applies `mapper`, which answers a borrowed-or-owned value of its own, and
    /// flattens the two. A borrowed value gives what `mapper` answered. An owned
    /// value stays owned: it takes over what `mapper` owns, keeps what it owns
    /// itself when `mapper` borrowed the whole of it, and copies otherwise.
    fn map_cow<F: FnOnce(&Self::Borrowed) -> Cow<'_, Self::Borrowed>>(self, mapper: F) -> (out:
        Cow<'a, Self::Borrowed>)
        requires
            forall|data: &Self::Borrowed|
                #![trigger self.lends(data)]
                #![trigger mapper.requires((data,))]
                self.lends(data) ==> mapper.requires((data,)),
        ensures
            exists|data: &Self::Borrowed, mapped: Cow<'a, Self::Borrowed>|
                #![trigger self.lends(data), self.map_cow_gives(mapped, out)]
                #![trigger mapper.ensures((data,), mapped)]
                {
                    &&& self.lends(data)
                    &&& mapper.ensures((data,), mapped)
                    &&& self.map_cow_gives(mapped, out)
                },
    ;

    /// Applies `mapper`, which answers a borrowed-or-owned value of its own, and
    /// leaves the value as it is. A borrowed value gives what `mapper` answered;
    /// an owned value gives an owned one, copied where `mapper` borrowed.
    fn map_cow_ref<F: FnOnce(&Self::Borrowed) -> Cow<'_, Self::Borrowed>>(&self, mapper: F) -> (out:
        Cow<'a, Self::Borrowed>)
        requires
            forall|data: &Self::Borrowed|
                #![trigger self.lends(data)]
                #![trigger mapper.requires((data,))]
                self.lends(data) ==> mapper.requires((data,)),
        ensures
            exists|data: &Self::Borrowed, mapped: Cow<'a, Self::Borrowed>|
                #![trigger self.lends(data), self.map_cow_ref_gives(mapped, out)]
                #![trigger mapper.ensures((data,), mapped)]
                {
                    &&& self.lends(data)
                    &&& mapper.ensures((data,), mapped)
                    &&& self.map_cow_ref_gives(mapped, out)
                },
    ;
}

impl<'a> CowExt<'a> for Cow<'a, str> {
    type Borrowed = str;

    open spec fn lends(&self, data: &str) -> bool {
        match self {
            Cow::Borrowed(borrowed) => data == *borrowed,
            Cow::Owned(owned) => data@ == owned@,
        }
    }

    open spec fn map_borrowed_gives(self, mapped: &str, out: Cow<'a, str>) -> bool {
        match self {
            Cow::Borrowed(_) => out == Cow::<'a, str>::Borrowed(mapped),
            Cow::Owned(owned) => if mapped@ == owned@ {
                out == Cow::<'a, str>::Owned(owned)
            } else {
                out matches Cow::Owned(copy) && copy@ == mapped@
            },
        }
    }

    open spec fn map_borrowed_ref_gives(&self, mapped: &str, out: Cow<'a, str>) -> bool {
        match self {
            Cow::Borrowed(_) => out == Cow::<'a, str>::Borrowed(mapped),
            Cow::Owned(_) => out matches Cow::Owned(copy) && copy@ == mapped@,
        }
    }

    open spec fn map_cow_gives(self, mapped: Cow<'a, str>, out: Cow<'a, str>) -> bool {
        match (self, mapped) {
            (Cow::Borrowed(_), _) => out == mapped,
            (Cow::Owned(_), Cow::Owned(_)) => out == mapped,
            (Cow::Owned(owned), Cow::Borrowed(part)) => if part@ == owned@ {
                out == Cow::<'a, str>::Owned(owned)
            } else {
                out matches Cow::Owned(copy) && copy@ == part@
            },
        }
    }

    open spec fn map_cow_ref_gives(&self, mapped: Cow<'a, str>, out: Cow<'a, str>) -> bool {
        match (self, mapped) {
            (Cow::Borrowed(_), _) => out == mapped,
            (Cow::Owned(_), Cow::Owned(_)) => out == mapped,
            (Cow::Owned(_), Cow::Borrowed(part)) => out matches Cow::Owned(copy) && copy@ == part@,
        }
    }

    fn map_borrowed<F: FnOnce(&str) -> &str>(self, mapper: F) -> (out: Cow<'a, str>) {
        match self {
            Cow::Borrowed(value) => Cow::Borrowed(mapper(value)),
            Cow::Owned(value) => {
                let value_ref = value.as_str();
                let mapped = mapper(value_ref);
                if same_text(value_ref, mapped) {
                    Cow::Owned(value)
                } else {
                    Cow::Owned(mapped.to_owned())
                }
            },
        }
    }

    fn map_borrowed_ref<F: FnOnce(&str) -> &str>(&self, mapper: F) -> (out: Cow<'a, str>) {
        match self {
            Cow::Borrowed(value) => Cow::Borrowed(mapper(value)),
            Cow::Owned(value) => Cow::Owned(mapper(value.as_str()).to_owned()),
        }
    }

    fn map_cow<F: FnOnce(&str) -> Cow<'_, str>>(self, mapper: F) -> (out: Cow<'a, str>) {
        match self {
            Cow::Borrowed(value) => mapper(value),
            Cow::Owned(value) => {
                let value_ref = value.as_str();
                match mapper(value_ref) {
                    Cow::Owned(mapped) => Cow::Owned(mapped),
                    Cow::Borrowed(mapped) => {
                        if same_text(value_ref, mapped) {
                            Cow::Owned(value)
                        } else {
                            Cow::Owned(mapped.to_owned())
                        }
                    },
                }
            },
        }
    }

    fn map_cow_ref<F: FnOnce(&str) -> Cow<'_, str>>(&self, mapper: F) -> (out: Cow<'a, str>) {
        match self {
            Cow::Borrowed(value) => mapper(value),
            Cow::Owned(value) => match mapper(value.as_str()) {
                Cow::Owned(mapped) => Cow::Owned(mapped),
                Cow::Borrowed(mapped) => Cow::Owned(mapped.to_owned()),
            },
        }
    }
}

impl<'a, T: Clone + PartialEq> CowExt<'a> for Cow<'a, [T]> {
    type Borrowed = [T];

    open spec fn lends(&self, data: &[T]) -> bool {
        match self {
            Cow::Borrowed(borrowed) => data == *borrowed,
            Cow::Owned(owned) => data@ == owned@,
        }
    }

    open spec fn map_borrowed_gives(self, mapped: &[T], out: Cow<'a, [T]>) -> bool {
        match self {
            Cow::Borrowed(_) => out == Cow::<'a, [T]>::Borrowed(mapped),
            Cow::Owned(owned) => exists|same: bool| #[trigger]
                is_equal_by_eq(owned@, mapped@, same) && if same {
                    out == Cow::<'a, [T]>::Owned(owned)
                } else {
                    out matches Cow::Owned(copy) && is_clone_of(copy@, mapped@)
                },
        }
    }

    open spec fn map_borrowed_ref_gives(&self, mapped: &[T], out: Cow<'a, [T]>) -> bool {
        match self {
            Cow::Borrowed(_) => out == Cow::<'a, [T]>::Borrowed(mapped),
            Cow::Owned(_) => out matches Cow::Owned(copy) && is_clone_of(copy@, mapped@),
        }
    }

    open spec fn map_cow_gives(self, mapped: Cow<'a, [T]>, out: Cow<'a, [T]>) -> bool {
        match (self, mapped) {
            (Cow::Borrowed(_), _) => out == mapped,
            (Cow::Owned(_), Cow::Owned(_)) => out == mapped,
            (Cow::Owned(owned), Cow::Borrowed(part)) => exists|same: bool| #[trigger]
                is_equal_by_eq(owned@, part@, same) && if same {
                    out == Cow::<'a, [T]>::Owned(owned)
                } else {
                    out matches Cow::Owned(copy) && is_clone_of(copy@, part@)
                },
        }
    }

    open spec fn map_cow_ref_gives(&self, mapped: Cow<'a, [T]>, out: Cow<'a, [T]>) -> bool {
        match (self, mapped) {
            (Cow::Borrowed(_), _) => out == mapped,
            (Cow::Owned(_), Cow::Owned(_)) => out == mapped,
            (Cow::Owned(_), Cow::Borrowed(part)) => out matches Cow::Owned(copy) && is_clone_of(
                copy@,
                part@,
            ),
        }
    }

    fn map_borrowed<F: FnOnce(&[T]) -> &[T]>(self, mapper: F) -> (out: Cow<'a, [T]>) {
        let ghost before = self;
        match self {
            Cow::Borrowed(value) => {
                assert(before.lends(value));
                let mapped = mapper(value);
                let out = Cow::Borrowed(mapped);
                assert(before.map_borrowed_gives(mapped, out));
                out
            },
            Cow::Owned(value) => {
                let value_ref = value.as_slice();
                assert(before.lends(value_ref));
                let mapped = mapper(value_ref);
                let out = if equal_by_eq(value_ref, mapped) {
                    Cow::Owned(value)
                } else {
                    Cow::Owned(clone_items(mapped))
                };
                assert(before.map_borrowed_gives(mapped, out));
                out
            },
        }
    }

    fn map_borrowed_ref<F: FnOnce(&[T]) -> &[T]>(&self, mapper: F) -> (out: Cow<'a, [T]>) {
        match self {
            Cow::Borrowed(value) => {
                assert(self.lends(value));
                let mapped = mapper(value);
                let out = Cow::Borrowed(mapped);
                assert(self.map_borrowed_ref_gives(mapped, out));
                out
            },
            Cow::Owned(value) => {
                let value_ref = value.as_slice();
                assert(self.lends(value_ref));
                let mapped = mapper(value_ref);
                let out = Cow::Owned(clone_items(mapped));
                assert(self.map_borrowed_ref_gives(mapped, out));
                out
            },
        }
    }

    fn map_cow<F: FnOnce(&[T]) -> Cow<'_, [T]>>(self, mapper: F) -> (out: Cow<'a, [T]>) {
        let ghost before = self;
        match self {
            Cow::Borrowed(value) => {
                assert(before.lends(value));
                let out = mapper(value);
                assert(before.map_cow_gives(out, out));
                out
            },
            Cow::Owned(value) => {
                let value_ref = value.as_slice();
                assert(before.lends(value_ref));
                let mapped = mapper(value_ref);
                let ghost made = mapped;
                let out = match mapped {
                    Cow::Owned(part) => Cow::Owned(part),
                    Cow::Borrowed(part) => {
                        if equal_by_eq(value_ref, part) {
                            Cow::Owned(value)
                        } else {
                            Cow::Owned(clone_items(part))
                        }
                    },
                };
                assert(before.map_cow_gives(made, out));
                out
            },
        }
    }

    fn map_cow_ref<F: FnOnce(&[T]) -> Cow<'_, [T]>>(&self, mapper: F) -> (out: Cow<'a, [T]>) {
        match self {
            Cow::Borrowed(value) => {
                assert(self.lends(value));
                let out = mapper(value);
                assert(self.map_cow_ref_gives(out, out));
                out
            },
            Cow::Owned(value) => {
                let value_ref = value.as_slice();
                assert(self.lends(value_ref));
                let mapped = mapper(value_ref);
                let ghost made = mapped;
                let out = match mapped {
                    Cow::Owned(part) => Cow::Owned(part),
                    Cow::Borrowed(part) => Cow::Owned(clone_items(part)),
                };
                assert(self.map_cow_ref_gives(made, out));
                out
            },
        }
    }
}

/// The data of `value`, borrowed.
fn lent<'s>(value: &'s Cow<'_, str>) -> (data: &'s str)
    ensures
        value.lends(data),
{
    match value {
        Cow::Borrowed(borrowed) => borrowed,
        Cow::Owned(owned) => owned.as_str(),
    }
}

/// Slicing and trimming of borrowed-or-owned text.
pub trait CowStrExt<'a>: CowExt<'a, Borrowed = str> {
    /// The characters of the text.
    spec fn text(&self) -> Seq<char>;

    /// Cuts out the bytes that `get_range` selects when it is told how many
    /// bytes the text has in its UTF-8 form, and leaves the value as it is.
    /// Borrowed text gives a borrowed part; owned text gives a copy of the part.
    /// The range has to lie within the text and on character boundaries.
    fn sliced<F: FnOnce(usize) -> Range<usize>>(&self, get_range: F) -> (out: Cow<'a, str>)
        requires
            forall|len: usize|
                len == encode_utf8(self.text()).len() ==> #[trigger] get_range.requires((len,)),
            forall|len: usize, range: Range<usize>|
                len == encode_utf8(self.text()).len() && #[trigger] get_range.ensures(
                    (len,),
                    range,
                ) ==> is_slice_range(self.text(), range.start as int, range.end as int),
        ensures
            exists|len: usize, range: Range<usize>, part: &str|
                {
                    &&& len == encode_utf8(self.text()).len()
                    &&& #[trigger] get_range.ensures((len,), range)
                    &&& part@ == slice_of(self.text(), range.start as int, range.end as int)
                    &&& #[trigger] self.map_borrowed_ref_gives(part, out)
                },
    ;

    /// Cuts out the bytes that `get_range` selects when it is told how many
    /// bytes the text has in its UTF-8 form. Borrowed text gives a borrowed part.
    /// Owned text stays owned, and keeps what it owns when the range covers the
    /// whole of it. The range has to lie within the text and on character
    /// boundaries.
    fn sliced_owned<F: FnOnce(usize) -> Range<usize>>(self, get_range: F) -> (out: Cow<'a, str>)
        requires
            forall|len: usize|
                len == encode_utf8(self.text()).len() ==> #[trigger] get_range.requires((len,)),
            forall|len: usize, range: Range<usize>|
                len == encode_utf8(self.text()).len() && #[trigger] get_range.ensures(
                    (len,),
                    range,
                ) ==> is_slice_range(self.text(), range.start as int, range.end as int),
        ensures
            exists|len: usize, range: Range<usize>, part: &str|
                {
                    &&& len == encode_utf8(self.text()).len()
                    &&& #[trigger] get_range.ensures((len,), range)
                    &&& part@ == slice_of(self.text(), range.start as int, range.end as int)
                    &&& #[trigger] self.map_borrowed_gives(part, out)
                },
    ;

    /// Removes leading and trailing whitespace. Borrowed text gives a borrowed
    /// part of itself. Owned text stays owned, and keeps what it owns when there
    /// was nothing to remove.
    fn trimmed(self) -> (out: Cow<'a, str>)
        ensures
            exists|part: &str|
                part@ == trim_of(self.text()) && #[trigger] self.map_borrowed_gives(part, out),
    ;

    /// Removes leading and trailing whitespace and leaves the value as it is.
    /// Borrowed text gives a borrowed part of itself; owned text gives a copy of
    /// what is left.
    fn trimmed_ref(&self) -> (out: Cow<'a, str>)
        ensures
            exists|part: &str|
                part@ == trim_of(self.text()) && #[trigger] self.map_borrowed_ref_gives(
                    part,
                    out,
                ),
    ;
}

impl<'a> CowStrExt<'a> for Cow<'a, str> {
    open spec fn text(&self) -> Seq<char> {
        self@
    }

    fn sliced<F: FnOnce(usize) -> Range<usize>>(&self, get_range: F) -> (out: Cow<'a, str>) {
        let range = get_range(lent(self).as_bytes().len());
        let start: usize = range.start;
        let end: usize = range.end;
        self.map_borrowed_ref(
            (|value: &str| -> (part: &str)
                requires
                    is_slice_range(value@, start as int, end as int),
                ensures
                    part@ == slice_of(value@, start as int, end as int),
                {
                    substring(value, start, end)
                }),
        )
    }

    fn sliced_owned<F: FnOnce(usize) -> Range<usize>>(self, get_range: F) -> (out: Cow<'a, str>) {
        let range = get_range(lent(&self).as_bytes().len());
        let start: usize = range.start;
        let end: usize = range.end;
        self.map_borrowed(
            (|value: &str| -> (part: &str)
                requires
                    is_slice_range(value@, start as int, end as int),
                ensures
                    part@ == slice_of(value@, start as int, end as int),
                {
                    substring(value, start, end)
                }),
        )
    }

    fn trimmed(self) -> (out: Cow<'a, str>) {
        self.map_borrowed(trim)
    }

    fn trimmed_ref(&self) -> (out: Cow<'a, str>) {
        self.map_borrowed_ref(trim)
    }
}

/// A transformation that answers the very data it was lent changes nothing:
/// by value, the result is the value that went in, borrowed or owned; by
/// reference, a borrowed value comes back as it was.
pub proof fn lemma_identity_keeps_value<'a>(value: Cow<'a, str>, data: &str, out: Cow<'a, str>)
    requires
        value.lends(data),
    ensures
        value.map_borrowed_gives(data, out) ==> out == value,
        value is Borrowed && value.map_borrowed_ref_gives(data, out) ==> out == value,
{
}

/// On slices too a transformation that answers the very data it was lent
/// leaves a borrowed value as it was.
pub proof fn lemma_identity_keeps_borrowed_slice<'a, T: Clone + PartialEq>(
    value: Cow<'a, [T]>,
    data: &[T],
    out: Cow<'a, [T]>,
)
    requires
        value is Borrowed,
        value.lends(data),
        value.map_borrowed_gives(data, out) || value.map_borrowed_ref_gives(data, out),
    ensures
        out == value,
{
}

/// Values with the same text give results with the same text, whatever their
/// states, where the transformation answers the same text for both.
pub proof fn lemma_equal_text_gives_equal_text<'a>(
    left: Cow<'a, str>,
    right: Cow<'a, str>,
    left_mapped: &str,
    right_mapped: &str,
    left_out: Cow<'a, str>,
    right_out: Cow<'a, str>,
)
    requires
        left_mapped@ == right_mapped@,
        left.map_borrowed_gives(left_mapped, left_out) || left.map_borrowed_ref_gives(
            left_mapped,
            left_out,
        ),
        right.map_borrowed_gives(right_mapped, right_out) || right.map_borrowed_ref_gives(
            right_mapped,
            right_out,
        ),
    ensures
        left_out@ == right_out@,
{
}

/// Whatever a combinator returns holds the text that the transformation
/// answered, and is borrowed exactly when the value was.
pub proof fn lemma_result_holds_mapped<'a>(value: Cow<'a, str>, mapped: &str, out: Cow<'a, str>)
    requires
        value.map_borrowed_gives(mapped, out) || value.map_borrowed_ref_gives(mapped, out),
    ensures
        out@ == mapped@,
        out is Borrowed <==> value is Borrowed,
{
}

/// Flattening returns the text that the transformation answered, and an owned
/// value stays owned.
pub proof fn lemma_flattened_holds_mapped<'a>(
    value: Cow<'a, str>,
    mapped: Cow<'a, str>,
    out: Cow<'a, str>,
)
    requires
        value.map_cow_gives(mapped, out) || value.map_cow_ref_gives(mapped, out),
    ensures
        out@ == mapped@,
        value is Owned ==> out is Owned,
        value is Borrowed ==> out == mapped,
{
}

/// Trimming owned text gives owned text: the very value that went in where
/// there was nothing to trim, and a value with the trimmed text otherwise.
pub proof fn lemma_trimmed_owned<'a>(value: Cow<'a, str>, out: Cow<'a, str>)
    requires
        value is Owned,
        exists|part: &str|
            part@ == trim_of(value.text()) && #[trigger] value.map_borrowed_gives(part, out),
    ensures
        out is Owned,
        out@ == trim_of(value@),
        trim_of(value@) == value@ ==> out == value,
{
}

/// Trimming borrowed text gives a borrowed value with the trimmed text.
pub proof fn lemma_trimmed_borrowed<'a>(value: Cow<'a, str>, out: Cow<'a, str>)
    requires
        value is Borrowed,
        exists|part: &str|
            part@ == trim_of(value.text()) && #[trigger] value.map_borrowed_gives(part, out),
    ensures
        out is Borrowed,
        out@ == trim_of(value@),
{
}

/// Trimming twice gives the text that trimming once gives, and on owned text
/// the second trimming hands back the very value it was given.
pub proof fn lemma_trimmed_twice<'a>(value: Cow<'a, str>, once: Cow<'a, str>, twice: Cow<'a, str>)
    requires
        exists|part: &str|
            part@ == trim_of(value.text()) && #[trigger] value.map_borrowed_gives(part, once),
        exists|part: &str|
            part@ == trim_of(once.text()) && #[trigger] once.map_borrowed_gives(part, twice),
    ensures
        twice@ == once@,
        once@ == trim_of(value@),
        once is Owned ==> twice == once,
{
    lemma_trim_idempotent(value@);
}

/// Trimming by reference twice gives the text that trimming once gives.
pub proof fn lemma_trimmed_ref_twice<'a>(
    value: Cow<'a, str>,
    once: Cow<'a, str>,
    twice: Cow<'a, str>,
)
    requires
        exists|part: &str|
            part@ == trim_of(value.text()) && #[trigger] value.map_borrowed_ref_gives(part, once),
        exists|part: &str|
            part@ == trim_of(once.text()) && #[trigger] once.map_borrowed_ref_gives(part, twice),
    ensures
        twice@ == once@,
        once@ == trim_of(value@),
{
    lemma_trim_idempotent(value@);
}

/// Turns a value into a borrowed-or-owned one: a reference into a borrowed
/// value, anything else into an owned one.
pub trait IntoCow<'a, T>: Sized where T: ToOwned + ?Sized {
    /// The borrowed-or-owned value that holds `self`.
    spec fn wrapped(self) -> Cow<'a, T>;

    /// Wraps `self` without copying it.
    fn into_cow(self) -> (out: Cow<'a, T>)
        ensures
            out == self.wrapped(),
    ;
}

impl<'a, T: ToOwned<Owned = T>> IntoCow<'a, T> for T {
    open spec fn wrapped(self) -> Cow<'a, T> {
        Cow::Owned(self)
    }

    fn into_cow(self) -> (out: Cow<'a, T>) {
        Cow::Owned(self)
    }
}

impl<'a, T: ToOwned + ?Sized> IntoCow<'a, T> for &'a T {
    open spec fn wrapped(self) -> Cow<'a, T> {
        Cow::Borrowed(self)
    }

    fn into_cow(self) -> (out: Cow<'a, T>) {
        Cow::Borrowed(self)
    }
}

} // verus!
