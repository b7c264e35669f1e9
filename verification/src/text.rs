//! Text that is borrowed or owned.

use std::borrow::Cow;

use vstd::prelude::*;

verus! {

/// `Clone::clone` of `std::borrow::Cow<str>`: the copy holds the same text.
#[verifier::external_body]
pub(crate) fn clone_text<'a>(text: &Cow<'a, str>) -> (copy: Cow<'a, str>)
    ensures
        copy@ == text@,
{
    text.clone()
}

} // verus!
