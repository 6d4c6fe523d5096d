use convert_case::{Case, Casing};
use vstd::prelude::*;

verus! {

/// The letter cases that generated names are written in.
#[derive(Clone, Copy, Debug, PartialEq, Eq, Structural)]
pub enum IdentCase {
    /// `MyField`: the case of type and trait names.
    Pascal,
    /// `my_struct`: the case of module names.
    Snake,
}

/// What `convert_case` makes of `text` converted into `case`.
pub uninterp spec fn cased(text: Seq<char>, case: IdentCase) -> Seq<char>;

/// Converts `text` into `case` with `convert_case::Casing::to_case`.
///
/// Trusted: the result is what `to_case` returns for these arguments, named `cased`;
/// nothing is claimed of its letters.
#[verifier::external_body]
pub(crate) fn to_case(text: &str, case: IdentCase) -> (res: String)
    ensures
        res@ == cased(text@, case),
{
    let case = match case {
        IdentCase::Pascal => Case::Pascal,
        IdentCase::Snake => Case::Snake,
    };
    text.to_case(case)
}

} // verus!
