use vstd::prelude::*;

verus! {

/// The default value of the type that the caller asks for: what that type's
/// `Default::default` makes.
pub fn _d<TValue: Default>() -> (out: TValue)
    ensures
        call_ensures(TValue::default, (), out),
{
    TValue::default()
}

} // verus!
