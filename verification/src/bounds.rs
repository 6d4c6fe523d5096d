use vstd::prelude::*;

use crate::lexical::{chars_of, has_word_at, word_at};
use crate::parser::Generics;

verus! {

/// The bound that the struct declares on the type parameter `name` (the last declaration of
/// that name wins), or nothing.
pub open spec fn bound_in(names: Seq<Seq<char>>, bounds: Seq<Seq<char>>, name: Seq<char>) -> Seq<char>
    decreases names.len(),
{
    if names.len() == 0 {
        Seq::empty()
    } else if names.last() == name {
        if names.len() - 1 < bounds.len() {
            bounds[names.len() - 1]
        } else {
            Seq::empty()
        }
    } else {
        bound_in(names.drop_last(), bounds, name)
    }
}

/// Whether `name` stands as a word in `text`.
pub open spec fn mentions(text: Seq<char>, name: Seq<char>) -> bool {
    exists|i: int| word_at(text, name, i)
}

/// Whether `bound` mentions no declared parameter outside `scope`, so that an item which
/// declares only the parameters of `scope` can repeat it.
pub open spec fn closed_bound(bound: Seq<char>, declared: Seq<Seq<char>>, scope: Seq<Seq<char>>) -> bool {
    forall|k: int| 0 <= k < declared.len() && !scope.contains(declared[k]) ==> !mentions(bound, #[trigger] declared[k])
}

/// How an item that declares the parameters of `scope` declares the type parameter `name`:
/// with the struct's bound on it where the item can repeat that bound, and bare otherwise.
pub open spec fn param_decl(name: Seq<char>, bound: Seq<char>, declared: Seq<Seq<char>>, scope: Seq<Seq<char>>) -> Seq<char> {
    if bound.len() > 0 && closed_bound(bound, declared, scope) {
        name + ": "@ + bound
    } else {
        name
    }
}

/// The declarations of the type parameters `names` in an item that declares the parameters of
/// `scope`.
pub open spec fn declared_params(generics: Generics, names: Seq<Seq<char>>, scope: Seq<Seq<char>>) -> Seq<Seq<char>> {
    Seq::new(
        names.len(),
        |i: int|
            param_decl(
                names[i],
                bound_in(generics.type_params.deep_view(), generics.type_param_bounds.deep_view(), names[i]),
                generics.lifetimes.deep_view() + generics.type_params.deep_view(),
                scope,
            ),
    )
}

fn find_bound(generics: &Generics, name: &String) -> (res: String)
    ensures
        res@ == bound_in(generics.type_params.deep_view(), generics.type_param_bounds.deep_view(), name@),
{
    let names = &generics.type_params;
    let bounds = &generics.type_param_bounds;
    let mut found = String::new();
    let mut k: usize = 0;
    while k < names.len()
        invariant
            k <= names.len(),
            found@ == bound_in(names.deep_view().take(k as int), bounds.deep_view(), name@),
        decreases names.len() - k,
    {
        let ghost prefix = names.deep_view().take(k + 1);
        assert(prefix.drop_last() =~= names.deep_view().take(k as int));
        if names[k] == *name {
            if k < bounds.len() {
                found = bounds[k].clone();
            } else {
                found = String::new();
            }
        }
        k = k + 1;
    }
    assert(names.deep_view().take(names.len() as int) =~= names.deep_view());
    found
}

fn mentions_name(text: &Vec<char>, name: &Vec<char>) -> (res: bool)
    ensures
        res == mentions(text@, name@),
{
    let mut i: usize = 0;
    while i < text.len()
        invariant
            i <= text.len(),
            forall|j: int| 0 <= j < i ==> !word_at(text@, name@, j),
        decreases text.len() - i,
    {
        if has_word_at(text, name, i) {
            return true;
        }
        i = i + 1;
    }
    if has_word_at(text, name, text.len()) {
        return true;
    }
    assert forall|j: int| !word_at(text@, name@, j) by {
        if j > text.len() {
            assert(!(j + name@.len() <= text@.len()));
        }
    }
    false
}

fn in_scope(scope_lifetimes: &Vec<String>, scope_params: &Vec<String>, name: &String) -> (res: bool)
    ensures
        res == (scope_lifetimes.deep_view() + scope_params.deep_view()).contains(name@),
{
    let ghost scope = scope_lifetimes.deep_view() + scope_params.deep_view();
    let mut i: usize = 0;
    while i < scope_lifetimes.len()
        invariant
            i <= scope_lifetimes.len(),
            scope == scope_lifetimes.deep_view() + scope_params.deep_view(),
            forall|j: int| 0 <= j < i ==> scope[j] != name@,
        decreases scope_lifetimes.len() - i,
    {
        if scope_lifetimes[i] == *name {
            assert(scope[i as int] == name@);
            return true;
        }
        i = i + 1;
    }
    let mut i: usize = 0;
    while i < scope_params.len()
        invariant
            i <= scope_params.len(),
            scope == scope_lifetimes.deep_view() + scope_params.deep_view(),
            forall|j: int| 0 <= j < scope_lifetimes.len() + i ==> scope[j] != name@,
        decreases scope_params.len() - i,
    {
        if scope_params[i] == *name {
            assert(scope[scope_lifetimes.len() + i] == name@);
            return true;
        }
        i = i + 1;
    }
    false
}

fn bound_is_closed(bound: &String, generics: &Generics, scope_lifetimes: &Vec<String>, scope_params: &Vec<String>) -> (res: bool)
    ensures
        res == closed_bound(
            bound@,
            generics.lifetimes.deep_view() + generics.type_params.deep_view(),
            scope_lifetimes.deep_view() + scope_params.deep_view(),
        ),
{
    let ghost declared = generics.lifetimes.deep_view() + generics.type_params.deep_view();
    let ghost scope = scope_lifetimes.deep_view() + scope_params.deep_view();
    let text = chars_of(bound.as_str());
    let nl = generics.lifetimes.len();
    let mut k: usize = 0;
    while k < nl
        invariant
            nl == generics.lifetimes.len(),
            text@ == bound@,
            declared == generics.lifetimes.deep_view() + generics.type_params.deep_view(),
            scope == scope_lifetimes.deep_view() + scope_params.deep_view(),
            k <= nl,
            forall|j: int| 0 <= j < k && !scope.contains(declared[j]) ==> !mentions(bound@, #[trigger] declared[j]),
        decreases nl - k,
    {
        let name = &generics.lifetimes[k];
        assert(declared[k as int] == name@);
        if !in_scope(scope_lifetimes, scope_params, name) && mentions_name(&text, &chars_of(name.as_str())) {
            return false;
        }
        k = k + 1;
    }
    let np = generics.type_params.len();
    let mut k: usize = 0;
    while k < np
        invariant
            nl == generics.lifetimes.len(),
            np == generics.type_params.len(),
            text@ == bound@,
            declared == generics.lifetimes.deep_view() + generics.type_params.deep_view(),
            scope == scope_lifetimes.deep_view() + scope_params.deep_view(),
            k <= np,
            forall|j: int| 0 <= j < nl + k && !scope.contains(declared[j]) ==> !mentions(bound@, #[trigger] declared[j]),
        decreases np - k,
    {
        let name = &generics.type_params[k];
        assert(declared[nl + k] == name@);
        if !in_scope(scope_lifetimes, scope_params, name) && mentions_name(&text, &chars_of(name.as_str())) {
            return false;
        }
        k = k + 1;
    }
    true
}

/// The declarations of the type parameters `names`, with the struct's bounds where an item that
/// declares `scope_lifetimes` and `scope_params` can repeat them.
pub fn declare_params(
    generics: &Generics,
    names: &Vec<String>,
    scope_lifetimes: &Vec<String>,
    scope_params: &Vec<String>,
) -> (res: Vec<String>)
    ensures
        res.deep_view() == declared_params(*generics, names.deep_view(), scope_lifetimes.deep_view() + scope_params.deep_view()),
{
    let ghost expected = declared_params(*generics, names.deep_view(), scope_lifetimes.deep_view() + scope_params.deep_view());
    let mut res: Vec<String> = Vec::new();
    let mut i: usize = 0;
    while i < names.len()
        invariant
            i <= names.len(),
            expected == declared_params(*generics, names.deep_view(), scope_lifetimes.deep_view() + scope_params.deep_view()),
            res.deep_view() == expected.take(i as int),
        decreases names.len() - i,
    {
        let name = &names[i];
        let bound = find_bound(generics, name);
        let mut decl = name.clone();
        if bound.as_str().unicode_len() > 0 && bound_is_closed(&bound, generics, scope_lifetimes, scope_params) {
            decl.append(": ");
            decl.append(bound.as_str());
        }
        let ghost before = res.deep_view();
        res.push(decl);
        assert(res.deep_view() =~= before.push(expected[i as int]));
        assert(expected.take(i + 1) =~= expected.take(i as int).push(expected[i as int]));
        i = i + 1;
    }
    assert(expected.take(names.len() as int) =~= expected);
    res
}

} // verus!
