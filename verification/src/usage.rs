use darling::usage::{IdentSet, LifetimeSet, Purpose, UsesLifetimes, UsesTypeParams};
use vstd::prelude::*;

use crate::lexical::walkable_type;

verus! {

/// The set of lifetimes among `declared` that the Rust type written as `ty` uses, as darling's
/// `uses_lifetimes_cloned` finds them, each written as text; `None` where `ty` does not parse
/// as a type or a declared name does not parse as a lifetime.
pub uninterp spec fn lifetimes_used(ty: Seq<char>, declared: Seq<Seq<char>>) -> Option<Set<Seq<char>>>;

/// The set of type parameters among `declared` that the Rust type written as `ty` uses, as
/// darling's `uses_type_params_cloned` finds them, each written as text; `None` where `ty` does
/// not parse as a type or a declared name does not parse as an identifier.
pub uninterp spec fn type_params_used(ty: Seq<char>, declared: Seq<Seq<char>>) -> Option<Set<Seq<char>>>;

/// Parses `ty` and `declared` with syn and asks darling's `UsesLifetimes::uses_lifetimes_cloned`
/// (for the purpose of declaring a new type) which declared lifetimes the type uses.
///
/// Trusted: the result holds the set named `lifetimes_used`, each lifetime once (darling returns
/// a set, and two lifetimes of a set differ in their text). Its order is that of walking
/// darling's hash set, of which nothing is claimed; nor is it claimed that the text of each is
/// that of a declared name, since syn writes a name back in its own spelling (the library keeps
/// only the declared names that the set holds). `requires` leaves out the bounds on which
/// darling panics (see `walkable_type`).
#[verifier::external_body]
pub(crate) fn type_lifetimes(ty: &str, declared: &Vec<String>) -> (res: Option<Vec<String>>)
    requires
        walkable_type(ty@),
    ensures
        res is Some <==> lifetimes_used(ty@, declared.deep_view()) is Some,
        res matches Some(used) ==> {
            &&& used.deep_view().to_set() == lifetimes_used(ty@, declared.deep_view())->0
            &&& used.deep_view().no_duplicates()
        },
{
    let ty: syn::Type = syn::parse_str(ty).ok()?;
    let declared: LifetimeSet =
        declared.iter().map(|lt| syn::parse_str(lt)).collect::<Result<_, _>>().ok()?;
    let used = ty.uses_lifetimes_cloned(&Purpose::Declare.into(), &declared);
    Some(used.iter().map(|lt| lt.to_string()).collect())
}

/// Parses `ty` and `declared` with syn and asks darling's `UsesTypeParams::uses_type_params_cloned`
/// (for the purpose of declaring a new type) which declared type parameters the type uses.
///
/// Trusted: the result holds the set named `type_params_used`, each parameter once (darling
/// returns a set, and two identifiers of a set differ in their text). Its order is that of
/// walking darling's hash set, of which nothing is claimed; nor is it claimed that the text of
/// each is that of a declared name, since syn writes a name back in its own spelling (the
/// library keeps only the declared names that the set holds). `requires` leaves out the bounds
/// on which darling panics (see `walkable_type`).
#[verifier::external_body]
pub(crate) fn type_params(ty: &str, declared: &Vec<String>) -> (res: Option<Vec<String>>)
    requires
        walkable_type(ty@),
    ensures
        res is Some <==> type_params_used(ty@, declared.deep_view()) is Some,
        res matches Some(used) ==> {
            &&& used.deep_view().to_set() == type_params_used(ty@, declared.deep_view())->0
            &&& used.deep_view().no_duplicates()
        },
{
    let ty: syn::Type = syn::parse_str(ty).ok()?;
    let declared: IdentSet =
        declared.iter().map(|param| syn::parse_str(param)).collect::<Result<_, _>>().ok()?;
    let used = ty.uses_type_params_cloned(&Purpose::Declare.into(), &declared);
    Some(used.iter().map(|param| param.to_string()).collect())
}

/// The names of `declared` that `used` holds, in the order of `declared`.
pub open spec fn pick_declared(declared: Seq<Seq<char>>, used: Set<Seq<char>>) -> Seq<Seq<char>>
    decreases declared.len(),
{
    if declared.len() == 0 {
        Seq::empty()
    } else if used.contains(declared.last()) {
        pick_declared(declared.drop_last(), used).push(declared.last())
    } else {
        pick_declared(declared.drop_last(), used)
    }
}

/// Whether `names` holds `name`.
fn holds_name(names: &Vec<String>, name: &String) -> (res: bool)
    ensures
        res == names.deep_view().contains(name@),
{
    let mut i: usize = 0;
    while i < names.len()
        invariant
            i <= names.len(),
            forall|j: int| 0 <= j < i ==> names.deep_view()[j] != name@,
        decreases names.len() - i,
    {
        if names[i] == *name {
            assert(names.deep_view()[i as int] == name@);
            return true;
        }
        i = i + 1;
    }
    false
}

/// The names of `declared` that occur in `used`, in the order of `declared`.
pub fn in_declared_order(declared: &Vec<String>, used: &Vec<String>) -> (res: Vec<String>)
    ensures
        res.deep_view() == pick_declared(declared.deep_view(), used.deep_view().to_set()),
{
    let ghost used_set = used.deep_view().to_set();
    let mut res: Vec<String> = Vec::new();
    let mut i: usize = 0;
    while i < declared.len()
        invariant
            i <= declared.len(),
            used_set == used.deep_view().to_set(),
            res.deep_view() == pick_declared(declared.deep_view().take(i as int), used_set),
        decreases declared.len() - i,
    {
        let ghost prefix = declared.deep_view().take(i + 1);
        assert(prefix.drop_last() =~= declared.deep_view().take(i as int));
        assert(prefix.last() == declared[i as int]@);
        let ghost before = res.deep_view();
        if holds_name(used, &declared[i]) {
            res.push(declared[i].clone());
            assert(res.deep_view() =~= before.push(declared[i as int]@));
        }
        i = i + 1;
    }
    assert(declared.deep_view().take(declared.len() as int) =~= declared.deep_view());
    res
}

} // verus!
