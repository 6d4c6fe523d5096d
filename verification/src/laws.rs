use vstd::prelude::*;

use crate::generator::{lemma_generator_holds_sections, module_ident};
use crate::lexical::{capture_at, comment_at, const_bound_at, const_word, other_space, use_word, walkable_type, word_at};
use crate::parser::DefaultValue;
use crate::plan::{
    planned_default_impl, planned_field_state, planned_getter, planned_getter_impl, planned_getter_impl_row,
    planned_state_trait,
};
use crate::text::{contains_text, joined, lemma_contains_prefix, lemma_contains_trans, lemma_contains_witness, lemma_joined_contains};
use crate::traits::{getter_trait_ident, setter_trait_ident, where_text};
use crate::parser::base_ident;
use crate::states::{field_state_ident, initial_state_code};
use crate::traits::{state_trait_code, state_trait_ident, state_trait_impl_code};
use crate::text::{comma_list, opt_text, plus_list};
use crate::parser::{field_readable, BuildError, Source, SourceData};
use crate::plan::{
    attrs_of, builder_code, effective_default, holds_own, plan_decl, plan_def, plan_name, planned_code, planned_setter,
    source_plans, FieldPlan,
};
use crate::traits::{build_field_line, getter_body, getter_fn_ident, getter_impl_code, inner_bound, missing_names, union_names};
use crate::usage::pick_declared;
use crate::bounds::declared_params;
use crate::parser::Generics;

verus! {

/// Whether the planned fields have pairwise different names.
pub open spec fn distinct_names(plans: Seq<FieldPlan>) -> bool {
    forall|i: int, j: int|
        0 <= i < plans.len() && 0 <= j < plans.len() && i != j
            ==> (#[trigger] plans[i]).ident != (#[trigger] plans[j]).ident
}

/// Where a builder gives the value of a field from.
pub enum ValueOrigin {
    /// From the state made by the setter call at this position of the chain of calls.
    SetAt(int),
    /// From the empty builder's impl of the getter: the field's default.
    Default,
    /// From nowhere: the builder does not implement the field's getter.
    Missing,
}

/// Where the generated impls take field `j`'s value from in a builder made by the setter calls
/// `chain` (field indices, first call first): the outermost state answers from its own field if
/// its impl of `j`'s getter holds its own field (`holds_own`), and otherwise asks the state it
/// wraps; the empty builder answers with the default, if the field has one.
pub open spec fn value_origin(plans: Seq<FieldPlan>, chain: Seq<int>, j: int) -> ValueOrigin
    decreases chain.len(),
{
    if chain.len() == 0 {
        if effective_default(plans[j]) is Some {
            ValueOrigin::Default
        } else {
            ValueOrigin::Missing
        }
    } else if holds_own(plans[chain.last()], plans[j]) {
        ValueOrigin::SetAt(chain.len() - 1)
    } else {
        value_origin(plans, chain.drop_last(), j)
    }
}

/// A builder gives a field the value of the last setter call of that field; a field that was
/// never set takes its default, and without one it has no value.
pub proof fn law_last_set_value_wins(plans: Seq<FieldPlan>, chain: Seq<int>, j: int)
    requires
        distinct_names(plans),
        0 <= j < plans.len(),
        forall|p: int| 0 <= p < chain.len() ==> 0 <= #[trigger] chain[p] < plans.len(),
    ensures
        match value_origin(plans, chain, j) {
            ValueOrigin::SetAt(p) => {
                &&& 0 <= p < chain.len()
                &&& chain[p] == j
                &&& forall|q: int| p < q < chain.len() ==> #[trigger] chain[q] != j
            },
            ValueOrigin::Default => !chain.contains(j) && effective_default(plans[j]) is Some,
            ValueOrigin::Missing => !chain.contains(j) && effective_default(plans[j]) is None,
        },
    decreases chain.len(),
{
    if chain.len() > 0 {
        let i = chain.last();
        let rest = chain.drop_last();
        assert(0 <= i < plans.len());
        if holds_own(plans[i], plans[j]) {
            if i != j {
                assert(plans[i].ident != plans[j].ident);
            }
        } else {
            assert(i != j);
            assert forall|p: int| 0 <= p < rest.len() implies 0 <= #[trigger] rest[p] < plans.len() by {
                assert(rest[p] == chain[p]);
            }
            law_last_set_value_wins(plans, rest, j);
            match value_origin(plans, rest, j) {
                ValueOrigin::SetAt(p) => {
                    assert(chain[p] == rest[p]);
                    assert forall|q: int| p < q < chain.len() implies #[trigger] chain[q] != j by {
                        if q < rest.len() {
                            assert(chain[q] == rest[q]);
                        }
                    }
                },
                _ => {
                    if chain.contains(j) {
                        let q = choose|q: int| 0 <= q < chain.len() && chain[q] == j;
                        assert(q < rest.len());
                        assert(rest[q] == j);
                        assert(rest.contains(j));
                    }
                },
            }
        }
    }
}

/// `build` can be called on a builder exactly when every field was set or has a default value.
pub proof fn law_build_needs_every_field(plans: Seq<FieldPlan>, chain: Seq<int>)
    requires
        distinct_names(plans),
        forall|p: int| 0 <= p < chain.len() ==> 0 <= #[trigger] chain[p] < plans.len(),
    ensures
        (forall|j: int| 0 <= j < plans.len() ==> !(#[trigger] value_origin(plans, chain, j) is Missing))
            <==> (forall|j: int| 0 <= j < plans.len()
                ==> chain.contains(j) || effective_default(#[trigger] plans[j]) is Some),
{
    let n: nat = plans.len();
    assert forall|j: int| 0 <= j < n implies
        (#[trigger] value_origin(plans, chain, j) is Missing) == !(chain.contains(j) || effective_default(plans[j]) is Some) by {
        law_last_set_value_wins(plans, chain, j);
        if let ValueOrigin::SetAt(p) = value_origin(plans, chain, j) {
            assert(chain.contains(j));
        }
    }
    if forall|j: int| 0 <= j < n ==> !(#[trigger] value_origin(plans, chain, j) is Missing) {
        assert forall|j: int| 0 <= j < n implies chain.contains(j) || effective_default(#[trigger] plans[j]) is Some by {
            assert(!(value_origin(plans, chain, j) is Missing));
        }
    }
    if forall|j: int| 0 <= j < n ==> chain.contains(j) || effective_default(#[trigger] plans[j]) is Some {
        assert forall|j: int| 0 <= j < n implies !(#[trigger] value_origin(plans, chain, j) is Missing) by {
            assert(chain.contains(j) || effective_default(plans[j]) is Some);
        }
    }
}

/// The fields of a struct have different names, so its builder's states answer as
/// `law_last_set_value_wins` says.
pub proof fn law_struct_fields_have_distinct_names(source: Source)
    requires
        source.named_struct(),
        forall|i: int, j: int|
            0 <= i < attrs_of(source).len() && 0 <= j < attrs_of(source).len() && i != j
                ==> (#[trigger] attrs_of(source)[i]).ident.deep_view() != (#[trigger] attrs_of(source)[j]).ident.deep_view(),
    ensures
        distinct_names(source_plans(source)),
{
    let plans = source_plans(source);
    assert forall|i: int, j: int| 0 <= i < plans.len() && 0 <= j < plans.len() && i != j
        implies (#[trigger] plans[i]).ident != (#[trigger] plans[j]).ident by {
        assert(attrs_of(source)[i].ident.deep_view() != attrs_of(source)[j].ident.deep_view());
    }
}

/// A skipped field gets no setter trait.
pub proof fn law_skipped_field_has_no_setter(source: Source, plan: FieldPlan)
    requires
        plan.skip,
    ensures
        planned_setter(source, plan) == Seq::<char>::empty(),
{
}

/// The parameters of an impl for a state and a getter hold every parameter of either, and name
/// none twice when neither does.
pub proof fn law_union_names(first: Seq<Seq<char>>, second: Seq<Seq<char>>)
    ensures
        forall|name: Seq<char>| #[trigger] union_names(first, second).contains(name)
            <==> first.contains(name) || second.contains(name),
        first.no_duplicates() && second.no_duplicates() ==> union_names(first, second).no_duplicates(),
        union_names(first, second).take(first.len() as int) == first,
{
    lemma_missing_names(first, second);
    let u = union_names(first, second);
    let m = missing_names(first, second);
    assert forall|name: Seq<char>| #[trigger] u.contains(name) <==> first.contains(name) || second.contains(name) by {
        if u.contains(name) {
            let i = choose|i: int| 0 <= i < u.len() && u[i] == name;
            if i >= first.len() {
                assert(m[i - first.len()] == name);
                assert(m.contains(name));
            } else {
                assert(first[i] == name);
                assert(first.contains(name));
            }
        }
        if first.contains(name) {
            let i = choose|i: int| 0 <= i < first.len() && first[i] == name;
            assert(u[i] == name);
            assert(u.contains(name));
        } else if second.contains(name) {
            assert(m.contains(name));
            let i = choose|i: int| 0 <= i < m.len() && m[i] == name;
            assert(u[first.len() + i] == name);
            assert(u.contains(name));
        }
    }
    if first.no_duplicates() && second.no_duplicates() {
        assert forall|i: int, j: int| 0 <= i < u.len() && 0 <= j < u.len() && i != j implies u[i] != u[j] by {
            if i < first.len() && j >= first.len() {
                assert(m.contains(u[j]));
            } else if j < first.len() && i >= first.len() {
                assert(m.contains(u[i]));
            } else if i >= first.len() && j >= first.len() {
                assert(m[i - first.len()] != m[j - first.len()]);
            }
        }
    }
    assert(u.take(first.len() as int) =~= first);
}

/// What `missing_names` holds: the names of `second` outside `first`, each once if `second` has
/// no repeats.
proof fn lemma_missing_names(first: Seq<Seq<char>>, second: Seq<Seq<char>>)
    ensures
        forall|name: Seq<char>| #[trigger] missing_names(first, second).contains(name)
            <==> second.contains(name) && !first.contains(name),
        second.no_duplicates() ==> missing_names(first, second).no_duplicates(),
    decreases second.len(),
{
    if second.len() > 0 {
        let rest = second.drop_last();
        lemma_missing_names(first, rest);
        let m = missing_names(first, second);
        let mr = missing_names(first, rest);
        assert forall|name: Seq<char>| #[trigger] m.contains(name) <==> second.contains(name) && !first.contains(name) by {
            if second.contains(name) && name != second.last() {
                let i = choose|i: int| 0 <= i < second.len() && second[i] == name;
                assert(rest[i] == name);
            }
            if rest.contains(name) {
                let i = choose|i: int| 0 <= i < rest.len() && rest[i] == name;
                assert(second[i] == name);
            }
            if !first.contains(second.last()) {
                assert(m[m.len() - 1] == second.last());
                if mr.contains(name) {
                    let i = choose|i: int| 0 <= i < mr.len() && mr[i] == name;
                    assert(m[i] == name);
                }
                if m.contains(name) {
                    let i = choose|i: int| 0 <= i < m.len() && m[i] == name;
                    if i < mr.len() {
                        assert(mr[i] == name);
                    }
                }
            }
        }
        if second.no_duplicates() {
            assert(rest.no_duplicates());
            if !first.contains(second.last()) {
                assert(!rest.contains(second.last()));
                assert(!mr.contains(second.last()));
            }
        }
    } else {
        assert(missing_names(first, second) =~= Seq::<Seq<char>>::empty());
    }
}

/// A field's generic parameters are the declared ones that darling found in its type, in
/// declaration order, each once when the struct declares each once.
pub proof fn law_used_params_in_declared_order(declared: Seq<Seq<char>>, used: Set<Seq<char>>)
    ensures
        forall|name: Seq<char>| #[trigger] pick_declared(declared, used).contains(name)
            <==> declared.contains(name) && used.contains(name),
        declared.no_duplicates() ==> pick_declared(declared, used).no_duplicates(),
    decreases declared.len(),
{
    if declared.len() > 0 {
        let rest = declared.drop_last();
        law_used_params_in_declared_order(rest, used);
        let p = pick_declared(declared, used);
        let pr = pick_declared(rest, used);
        assert forall|name: Seq<char>| #[trigger] p.contains(name) <==> declared.contains(name) && used.contains(name) by {
            if declared.contains(name) && name != declared.last() {
                let i = choose|i: int| 0 <= i < declared.len() && declared[i] == name;
                assert(rest[i] == name);
            }
            if rest.contains(name) {
                let i = choose|i: int| 0 <= i < rest.len() && rest[i] == name;
                assert(declared[i] == name);
            }
            if used.contains(declared.last()) {
                assert(p[p.len() - 1] == declared.last());
                if pr.contains(name) {
                    let i = choose|i: int| 0 <= i < pr.len() && pr[i] == name;
                    assert(p[i] == name);
                }
                if p.contains(name) {
                    let i = choose|i: int| 0 <= i < p.len() && p[i] == name;
                    if i < pr.len() {
                        assert(pr[i] == name);
                    }
                }
            }
        }
        if declared.no_duplicates() {
            assert(rest.no_duplicates());
            assert(!rest.contains(declared.last()));
            assert(!pr.contains(declared.last()));
            if used.contains(declared.last()) {
                assert forall|i: int, j: int| 0 <= i < p.len() && 0 <= j < p.len() && i != j implies p[i] != p[j] by {
                    if i < pr.len() && j < pr.len() {
                        assert(p[i] == pr[i] && p[j] == pr[j]);
                    } else if i < pr.len() {
                        assert(p[i] == pr[i]);
                        assert(pr.contains(p[i]));
                    } else if j < pr.len() {
                        assert(p[j] == pr[j]);
                        assert(pr.contains(p[j]));
                    }
                }
            }
        }
    } else {
        assert(pick_declared(declared, used) =~= Seq::<Seq<char>>::empty());
    }
}

/// Where an item declares a field's type parameters, it declares the same parameters, in the
/// same order, as its uses of the field's state name them: each declaration is the parameter's
/// name, bare or followed by `: ` and a bound.
pub proof fn law_declarations_name_the_used_parameters(generics: Generics, names: Seq<Seq<char>>, scope: Seq<Seq<char>>)
    ensures
        declared_params(generics, names, scope).len() == names.len(),
        forall|i: int| 0 <= i < names.len() ==> {
            ||| #[trigger] declared_params(generics, names, scope)[i] == names[i]
            ||| exists|bound: Seq<char>| declared_params(generics, names, scope)[i] == names[i] + ": "@ + bound
        },
{
    assert forall|i: int| 0 <= i < names.len() implies {
        ||| #[trigger] declared_params(generics, names, scope)[i] == names[i]
        ||| exists|bound: Seq<char>| declared_params(generics, names, scope)[i] == names[i] + ": "@ + bound
    } by {
        let bound = crate::bounds::bound_in(generics.type_params.deep_view(), generics.type_param_bounds.deep_view(), names[i]);
        if declared_params(generics, names, scope)[i] != names[i] {
            assert(declared_params(generics, names, scope)[i] == names[i] + ": "@ + bound);
        }
    }
}

/// Different fields get different getter methods.
pub proof fn law_getter_fns_differ(first: Seq<char>, second: Seq<char>)
    ensures
        getter_fn_ident(first) == getter_fn_ident(second) ==> first == second,
{
    if getter_fn_ident(first) == getter_fn_ident(second) {
        let prefix = "get_"@;
        assert(first =~= getter_fn_ident(first).skip(prefix.len() as int));
        assert(second =~= getter_fn_ident(second).skip(prefix.len() as int));
    }
}

/// A builder is written exactly for a struct whose fields all have names and readable types;
/// an enum is refused first, then a struct with an unnamed field.
pub proof fn law_when_a_builder_is_written(source: Source)
    ensures
        builder_code(source) is Ok <==> source.named_struct()
            && forall|k: int| 0 <= k < attrs_of(source).len() ==> field_readable(source, #[trigger] attrs_of(source)[k]),
        source.data is Enum ==> builder_code(source) == Err::<Seq<char>, BuildError>(BuildError::NotAStruct),
        source.data is Struct && !source.named_struct() ==> builder_code(source) == Err::<Seq<char>, BuildError>(BuildError::UnnamedField),
        builder_code(source) is Ok ==> builder_code(source) == Ok::<Seq<char>, BuildError>(
            planned_code(source, source_plans(source), module_ident(source.ident@)),
        ),
{
    if let SourceData::Struct(attrs) = source.data {
        if source.named_struct() {
            if exists|k: int| 0 <= k < attrs.len() && !field_readable(source, #[trigger] attrs[k]) {
                let k = choose|k: int| 0 <= k < attrs.len() && !field_readable(source, #[trigger] attrs[k]);
                assert(attrs_of(source)[k] == attrs[k]);
            } else {
                assert forall|k: int| 0 <= k < attrs_of(source).len() implies field_readable(source, #[trigger] attrs_of(source)[k]) by {
                    assert(attrs_of(source)[k] == attrs[k]);
                }
            }
        }
    }
}


/// The code written for a struct holds each of its sections: the state trait, and for every
/// field its state, setter, getter, the getter impls of its state and its default impl.
proof fn lemma_code_holds_sections(source: Source, plans: Seq<FieldPlan>, module: Seq<char>)
    ensures
        ({
            let code = planned_code(source, plans, module);
            let n = plans.len();
            &&& contains_text(code, planned_state_trait(source, plans))
            &&& contains_text(code, joined(Seq::new(n, |k: int| planned_setter(source, plans[k]))))
            &&& contains_text(code, joined(Seq::new(n, |i: int| planned_getter_impl_row(source, plans, i))))
            &&& contains_text(code, joined(Seq::new(n, |k: int| planned_default_impl(source, plans[k]))))
        }),
{
    let s = source.ident@;
    let n = plans.len();
    lemma_generator_holds_sections(
        module,
        s,
        source.generics.impl_generics@,
        source.generics.ty_generics@,
        opt_text(source.generics.where_clause.deep_view()),
        base_ident(s),
        planned_state_trait(source, plans),
        initial_state_code(base_ident(s)),
        state_trait_impl_code(state_trait_ident(s), base_ident(s)),
        joined(Seq::new(n, |k: int| planned_field_state(source, plans[k]))),
        joined(Seq::new(n, |k: int| planned_setter(source, plans[k]))),
        joined(Seq::new(n, |k: int| planned_getter(source, plans[k]))),
        joined(Seq::new(n, |i: int| planned_getter_impl_row(source, plans, i))),
        joined(Seq::new(n, |k: int| planned_default_impl(source, plans[k]))),
    );
}

/// The code of an impl of a getter trait for a state names the trait and the state.
#[verifier::spinoff_prover]
#[verifier::rlimit(50)]
proof fn lemma_getter_impl_header(
    own: bool,
    union_lifetimes: Seq<Seq<char>>,
    union_param_decls: Seq<Seq<char>>,
    state_trait: Seq<char>,
    getter_ident: Seq<char>,
    decl: Seq<char>,
    state_ident: Seq<char>,
    state_lifetimes: Seq<Seq<char>>,
    state_generics: Seq<Seq<char>>,
    getter_fn: Seq<char>,
    field_ty: Seq<char>,
    state_field: Seq<char>,
)
    ensures
        contains_text(getter_impl_code(
            own, union_lifetimes, union_param_decls, state_trait, getter_ident, decl, state_ident,
            state_lifetimes, state_generics, getter_fn, field_ty, state_field,
        ), "> "@ + getter_ident + decl + " for "@ + state_ident + "<"@),
{
    let lists = comma_list(union_lifetimes) + comma_list(union_param_decls);
    let bound = inner_bound(own, state_trait, getter_ident, decl);
    let rest = comma_list(state_lifetimes) + comma_list(state_generics) + "InnerBuilderState> {\n    fn "@
        + getter_fn + "(&mut self) -> "@ + field_ty + " {\n        "@ + getter_body(own, state_field, getter_fn)
        + "\n    }\n}\n"@;
    lemma_contains_witness(
        getter_impl_code(
            own, union_lifetimes, union_param_decls, state_trait, getter_ident, decl, state_ident,
            state_lifetimes, state_generics, getter_fn, field_ty, state_field,
        ),
        "impl<"@ + lists + "InnerBuilderState: "@ + bound,
        "> "@ + getter_ident + decl + " for "@ + state_ident + "<"@,
        rest,
    );
}

/// The code of an impl of a getter trait for a state holds the bound on the state it wraps.
#[verifier::spinoff_prover]
#[verifier::rlimit(50)]
proof fn lemma_getter_impl_bound(
    own: bool,
    union_lifetimes: Seq<Seq<char>>,
    union_param_decls: Seq<Seq<char>>,
    state_trait: Seq<char>,
    getter_ident: Seq<char>,
    decl: Seq<char>,
    state_ident: Seq<char>,
    state_lifetimes: Seq<Seq<char>>,
    state_generics: Seq<Seq<char>>,
    getter_fn: Seq<char>,
    field_ty: Seq<char>,
    state_field: Seq<char>,
)
    ensures
        contains_text(getter_impl_code(
            own, union_lifetimes, union_param_decls, state_trait, getter_ident, decl, state_ident,
            state_lifetimes, state_generics, getter_fn, field_ty, state_field,
        ), "InnerBuilderState: "@ + inner_bound(own, state_trait, getter_ident, decl) + "> "@),
{
    let lists = comma_list(union_lifetimes) + comma_list(union_param_decls);
    let bound = inner_bound(own, state_trait, getter_ident, decl);
    let rest = comma_list(state_lifetimes) + comma_list(state_generics) + "InnerBuilderState> {\n    fn "@
        + getter_fn + "(&mut self) -> "@ + field_ty + " {\n        "@ + getter_body(own, state_field, getter_fn)
        + "\n    }\n}\n"@;
    lemma_contains_witness(
        getter_impl_code(
            own, union_lifetimes, union_param_decls, state_trait, getter_ident, decl, state_ident,
            state_lifetimes, state_generics, getter_fn, field_ty, state_field,
        ),
        "impl<"@ + lists,
        "InnerBuilderState: "@ + bound + "> "@,
        getter_ident + decl + " for "@ + state_ident + "<"@ + rest,
    );
}

/// The code of an impl of a getter trait for a state holds the body that gives the value.
#[verifier::spinoff_prover]
#[verifier::rlimit(50)]
proof fn lemma_getter_impl_body(
    own: bool,
    union_lifetimes: Seq<Seq<char>>,
    union_param_decls: Seq<Seq<char>>,
    state_trait: Seq<char>,
    getter_ident: Seq<char>,
    decl: Seq<char>,
    state_ident: Seq<char>,
    state_lifetimes: Seq<Seq<char>>,
    state_generics: Seq<Seq<char>>,
    getter_fn: Seq<char>,
    field_ty: Seq<char>,
    state_field: Seq<char>,
)
    ensures
        contains_text(getter_impl_code(
            own, union_lifetimes, union_param_decls, state_trait, getter_ident, decl, state_ident,
            state_lifetimes, state_generics, getter_fn, field_ty, state_field,
        ), getter_body(own, state_field, getter_fn)),
{
    let lists = comma_list(union_lifetimes) + comma_list(union_param_decls);
    let bound = inner_bound(own, state_trait, getter_ident, decl);
    let head = "impl<"@ + lists + "InnerBuilderState: "@ + bound + "> "@ + getter_ident + decl + " for "@
        + state_ident + "<"@ + comma_list(state_lifetimes) + comma_list(state_generics) + "InnerBuilderState> {\n    fn "@
        + getter_fn + "(&mut self) -> "@ + field_ty + " {\n        "@;
    lemma_contains_witness(getter_impl_code(
            own, union_lifetimes, union_param_decls, state_trait, getter_ident, decl, state_ident,
            state_lifetimes, state_generics, getter_fn, field_ty, state_field,
        ), head, getter_body(own, state_field, getter_fn), "\n    }\n}\n"@);
}

/// The impl of a field's getter for a field's state names the getter trait and the state, and
/// gives the value from the state's own field when the names match; otherwise it asks the state
/// it wraps, which must implement that getter.
#[verifier::spinoff_prover]
#[verifier::rlimit(50)]
proof fn lemma_planned_getter_impl_parts(source: Source, state: FieldPlan, getter: FieldPlan)
    ensures
        ({
            let the_impl = planned_getter_impl(source, state, getter);
            let s = source.ident@;
            let getter_text = getter_trait_ident(s, getter.pascal) + plan_decl(getter);
            &&& contains_text(the_impl, "> "@ + getter_text + " for "@ + field_state_ident(s, state.pascal) + "<"@)
            &&& holds_own(state, getter) ==> contains_text(
                the_impl,
                "self."@ + plan_name(state) + ".take().expect(\"@TODO\")"@,
            )
            &&& !holds_own(state, getter) ==> contains_text(
                the_impl,
                "InnerBuilderState: "@ + state_trait_ident(s) + " + "@ + getter_text + "> "@,
            )
            &&& !holds_own(state, getter) ==> contains_text(
                the_impl,
                "self.inner."@ + getter_fn_ident(plan_name(getter)) + "()"@,
            )
        }),
{
    let s = source.ident@;
    let own = holds_own(state, getter);
    let lifetimes = union_names(state.lifetimes, getter.lifetimes);
    let decls = declared_params(
        source.generics,
        union_names(state.generics, getter.generics),
        union_names(state.lifetimes, getter.lifetimes) + union_names(state.generics, getter.generics),
    );
    let st = state_trait_ident(s);
    let gi = getter_trait_ident(s, getter.pascal);
    let decl = plan_decl(getter);
    let si = field_state_ident(s, state.pascal);
    let gf = getter_fn_ident(plan_name(getter));
    let sf = plan_name(state);
    assert(planned_getter_impl(source, state, getter) == getter_impl_code(
        own, lifetimes, decls, st, gi, decl, si, state.lifetimes, state.generics, gf, getter.ty, sf,
    ));
    lemma_getter_impl_header(own, lifetimes, decls, st, gi, decl, si, state.lifetimes, state.generics, gf, getter.ty, sf);
    lemma_getter_impl_bound(own, lifetimes, decls, st, gi, decl, si, state.lifetimes, state.generics, gf, getter.ty, sf);
    lemma_getter_impl_body(own, lifetimes, decls, st, gi, decl, si, state.lifetimes, state.generics, gf, getter.ty, sf);
    assert("> "@ + gi + decl + " for "@ + si + "<"@ =~= "> "@ + (gi + decl) + " for "@ + si + "<"@);
    if !own {
        assert("InnerBuilderState: "@ + (st + " + "@ + gi + decl) + "> "@ =~= "InnerBuilderState: "@ + st + " + "@ + (gi + decl) + "> "@);
    }
}

/// Every builder state implements every field's getter: for all fields `i` and `j`, the code
/// written for the struct holds the impl of `j`'s getter for `i`'s state, which answers from
/// `i`'s own field when the names match and otherwise asks the state it wraps, bound to
/// implement that getter. This is what `value_origin` takes of the written code.
#[verifier::spinoff_prover]
#[verifier::rlimit(50)]
pub proof fn law_every_state_implements_every_getter(source: Source, plans: Seq<FieldPlan>, module: Seq<char>, i: int, j: int)
    requires
        0 <= i < plans.len(),
        0 <= j < plans.len(),
    ensures
        ({
            let code = planned_code(source, plans, module);
            let s = source.ident@;
            let getter = getter_trait_ident(s, plans[j].pascal) + plan_decl(plans[j]);
            &&& contains_text(code, planned_getter_impl(source, plans[i], plans[j]))
            &&& contains_text(code, "> "@ + getter + " for "@ + field_state_ident(s, plans[i].pascal) + "<"@)
            &&& holds_own(plans[i], plans[j]) ==> contains_text(
                code,
                "self."@ + plan_name(plans[i]) + ".take().expect(\"@TODO\")"@,
            )
            &&& !holds_own(plans[i], plans[j]) ==> contains_text(
                code,
                "InnerBuilderState: "@ + state_trait_ident(s) + " + "@ + getter + "> "@,
            )
            &&& !holds_own(plans[i], plans[j]) ==> contains_text(
                code,
                "self.inner."@ + getter_fn_ident(plan_name(plans[j])) + "()"@,
            )
        }),
{
    let s = source.ident@;
    let state = plans[i];
    let getter = plans[j];
    let n = plans.len();
    let code = planned_code(source, plans, module);
    let the_impl = planned_getter_impl(source, state, getter);
    let cells = Seq::new(n, |c: int| planned_getter_impl(source, plans[i], plans[c]));
    lemma_joined_contains(cells, j);
    assert(joined(cells) == planned_getter_impl_row(source, plans, i));
    let rows = Seq::new(n, |r: int| planned_getter_impl_row(source, plans, r));
    lemma_joined_contains(rows, i);
    lemma_code_holds_sections(source, plans, module);
    lemma_contains_trans(joined(rows), rows[i], cells[j]);
    lemma_contains_trans(code, joined(rows), the_impl);
    lemma_planned_getter_impl_parts(source, state, getter);
    let getter_text = getter_trait_ident(s, getter.pascal) + plan_decl(getter);
    lemma_contains_trans(code, the_impl, "> "@ + getter_text + " for "@ + field_state_ident(s, state.pascal) + "<"@);
    if holds_own(state, getter) {
        lemma_contains_trans(code, the_impl, "self."@ + plan_name(state) + ".take().expect(\"@TODO\")"@);
    } else {
        lemma_contains_trans(code, the_impl, "InnerBuilderState: "@ + state_trait_ident(s) + " + "@ + getter_text + "> "@);
        lemma_contains_trans(code, the_impl, "self.inner."@ + getter_fn_ident(plan_name(getter)) + "()"@);
    }
}

/// The code of a state trait holds the `where` text of its `build`.
#[verifier::spinoff_prover]
#[verifier::rlimit(50)]
proof fn lemma_state_trait_holds_where(
    ident: Seq<char>,
    source_ident: Seq<char>,
    impl_generics: Seq<char>,
    ty_generics: Seq<char>,
    where_clause: Seq<char>,
    bounds: Seq<Seq<char>>,
    field_lines: Seq<Seq<char>>,
)
    ensures
        contains_text(
            state_trait_code(ident, source_ident, impl_generics, ty_generics, where_clause, bounds, field_lines),
            where_clause,
        ),
{
    let before = "pub trait "@ + ident + " {\n    fn build"@ + impl_generics + "(mut self) -> "@ + source_ident
        + ty_generics + "\n    "@;
    let after = "\n    Self: "@ + plus_list(bounds) + "Sized,\n    {\n        "@ + source_ident + " {\n"@
        + joined(field_lines) + "        }\n    }\n}\n"@;
    lemma_contains_witness(
        state_trait_code(ident, source_ident, impl_generics, ty_generics, where_clause, bounds, field_lines),
        before,
        where_clause,
        after,
    );
}

/// The `where` text of a non-empty clause is the clause, with a comma added unless it ends
/// with one.
#[verifier::spinoff_prover]
#[verifier::rlimit(50)]
proof fn lemma_where_text_holds_clause(where_clause: Option<String>)
    requires
        where_clause matches Some(clause) && clause@.len() > 0,
    ensures
        ({
            let clause = where_clause->0@;
            let text = where_text(where_clause);
            &&& text == if clause.last() == ',' { clause } else { clause + ","@ }
            &&& clause.len() <= text.len() <= clause.len() + 1
            &&& text.take(clause.len() as int) == clause
            &&& text.last() == ','
            &&& contains_text(text, clause)
        }),
{
    let clause = where_clause->0@;
    let text = where_text(where_clause);
    reveal_strlit(",");
    assert(text.take(clause.len() as int) =~= clause);
    if text == clause {
        lemma_contains_witness(text, Seq::empty(), clause, Seq::empty());
    } else {
        lemma_contains_prefix(clause, ","@);
    }
}

/// `build` keeps the struct's whole `where` clause: the text it writes before its own bound is
/// the clause itself when it ends with a comma and the clause with a comma added otherwise, so it
/// begins with the clause and adds at most that comma; and the state trait
/// written for the struct holds the clause.
#[verifier::spinoff_prover]
#[verifier::rlimit(50)]
pub proof fn law_build_keeps_the_where_clause(source: Source, plans: Seq<FieldPlan>, module: Seq<char>)
    requires
        source.generics.where_clause matches Some(clause) && clause@.len() > 0,
    ensures
        ({
            let clause = source.generics.where_clause->0@;
            let text = where_text(source.generics.where_clause);
            &&& text == if clause.last() == ',' { clause } else { clause + ","@ }
            &&& clause.len() <= text.len() <= clause.len() + 1
            &&& text.take(clause.len() as int) == clause
            &&& text.last() == ','
            &&& contains_text(planned_state_trait(source, plans), clause)
            &&& contains_text(planned_code(source, plans, module), clause)
        }),
{
    let clause = source.generics.where_clause->0@;
    let text = where_text(source.generics.where_clause);
    lemma_where_text_holds_clause(source.generics.where_clause);
    let s = source.ident@;
    let n = plans.len();
    lemma_state_trait_holds_where(
        state_trait_ident(s),
        s,
        source.generics.impl_generics@,
        source.generics.ty_generics@,
        text,
        Seq::new(n, |k: int| getter_trait_ident(s, plans[k].pascal) + plan_decl(plans[k])),
        Seq::new(n, |k: int| build_field_line(plan_name(plans[k]), getter_fn_ident(plan_name(plans[k])))),
    );
    lemma_contains_trans(planned_state_trait(source, plans), text, clause);
    lemma_code_holds_sections(source, plans, module);
    lemma_contains_trans(planned_code(source, plans, module), planned_state_trait(source, plans), clause);
}

/// Without a `where` clause, or with an empty one, `build` opens its own: the text before its
/// bound is the word `where`, and the state trait holds `where` right before that bound.
#[verifier::spinoff_prover]
#[verifier::rlimit(50)]
pub proof fn law_build_opens_a_where_clause(source: Source, plans: Seq<FieldPlan>)
    requires
        source.generics.where_clause matches Some(clause) ==> clause@.len() == 0,
    ensures
        where_text(source.generics.where_clause) == "where"@,
        contains_text(planned_state_trait(source, plans), "where"@ + "\n    Self: "@),
{
    let s = source.ident@;
    let n = plans.len();
    let bounds = Seq::new(n, |k: int| getter_trait_ident(s, plans[k].pascal) + plan_decl(plans[k]));
    let lines = Seq::new(n, |k: int| build_field_line(plan_name(plans[k]), getter_fn_ident(plan_name(plans[k]))));
    let code = state_trait_code(
        state_trait_ident(s), s, source.generics.impl_generics@, source.generics.ty_generics@, "where"@, bounds, lines,
    );
    assert(code == planned_state_trait(source, plans));
    let before = "pub trait "@ + state_trait_ident(s) + " {\n    fn build"@ + source.generics.impl_generics@
        + "(mut self) -> "@ + s + source.generics.ty_generics@ + "\n    "@;
    let after = plus_list(bounds) + "Sized,\n    {\n        "@ + s + " {\n"@ + joined(lines) + "        }\n    }\n}\n"@;
    lemma_contains_witness(code, before, "where"@ + "\n    Self: "@, after);
}

/// A field with a default gets an impl of its getter for the empty builder, whose getter returns
/// the default: the given expression exactly, or the type's `Default` value; a field without one
/// gets none. The code written for the struct holds that impl.
#[verifier::spinoff_prover]
#[verifier::rlimit(50)]
pub proof fn law_default_value_is_written(source: Source, plans: Seq<FieldPlan>, module: Seq<char>, k: int)
    requires
        0 <= k < plans.len(),
    ensures
        ({
            let s = source.ident@;
            let plan = plans[k];
            let the_impl = planned_default_impl(source, plan);
            let head = getter_trait_ident(s, plan.pascal) + plan_decl(plan) + " for "@ + base_ident(s)
                + " {\n    fn "@ + getter_fn_ident(plan_name(plan)) + "(&mut self) -> "@ + plan.ty
                + " {\n        "@;
            &&& plan.default is None ==> the_impl == Seq::<char>::empty()
            &&& plan.default == Some(DefaultValue::Trait) ==> exists|before: Seq<char>|
                #[trigger] (before + head + "::core::default::Default::default()"@ + "\n    }\n}\n"@) == the_impl
            &&& plan.default matches Some(DefaultValue::Expr(expr)) ==> exists|before: Seq<char>|
                #[trigger] (before + head + expr@ + "\n    }\n}\n"@) == the_impl
            &&& contains_text(planned_code(source, plans, module), the_impl)
        }),
{
    let n = plans.len();
    let s = source.ident@;
    let plan = plans[k];
    if let Some(default) = plan.default {
        let expr = match default {
            DefaultValue::Trait => "::core::default::Default::default()"@,
            DefaultValue::Expr(e) => e@,
        };
        let before = "impl"@ + plan_def(source, plan) + " "@;
        let head = getter_trait_ident(s, plan.pascal) + plan_decl(plan) + " for "@ + base_ident(s)
            + " {\n    fn "@ + getter_fn_ident(plan_name(plan)) + "(&mut self) -> "@ + plan.ty
            + " {\n        "@;
        assert(before + head + expr + "\n    }\n}\n"@ =~= planned_default_impl(source, plan));
    }
    let items = Seq::new(n, |c: int| planned_default_impl(source, plans[c]));
    lemma_joined_contains(items, k);
    lemma_code_holds_sections(source, plans, module);
    lemma_contains_trans(planned_code(source, plans, module), joined(items), items[k]);
}

/// A field gets a setter trait exactly when it is not skipped, whatever its default: the
/// setter of a field that is not skipped declares the trait `{Struct}BuilderSet{Field}` over the
/// state trait, whose method, named as the field, takes a value of the field's type and gives the
/// field's state; the code written for the struct holds it.
#[verifier::spinoff_prover]
#[verifier::rlimit(50)]
pub proof fn law_setter_unless_skipped(source: Source, plans: Seq<FieldPlan>, module: Seq<char>, k: int)
    requires
        0 <= k < plans.len(),
    ensures
        planned_setter(source, plans[k]).len() == 0 <==> plans[k].skip,
        !plans[k].skip ==> contains_text(
            planned_setter(source, plans[k]),
            "pub trait "@ + setter_trait_ident(source.ident@, plans[k].pascal) + ": Sized + "@,
        ),
        !plans[k].skip ==> contains_text(
            planned_setter(source, plans[k]),
            "pub trait "@ + setter_trait_ident(source.ident@, plans[k].pascal) + ": Sized + "@
                + state_trait_ident(source.ident@) + " {\n    fn "@ + plan_name(plans[k])
                + plan_def(source, plans[k]) + "(self, value: "@ + plans[k].ty + ") -> "@
                + field_state_ident(source.ident@, plans[k].pascal) + "<"@,
        ),
        contains_text(planned_code(source, plans, module), planned_setter(source, plans[k])),
{
    let n = plans.len();
    let plan = plans[k];
    let setter = planned_setter(source, plan);
    if !plan.skip {
        let s = source.ident@;
        let head = "pub trait "@ + setter_trait_ident(s, plan.pascal) + ": Sized + "@;
        let longer = head + state_trait_ident(s) + " {\n    fn "@ + plan_name(plan)
            + plan_def(source, plan) + "(self, value: "@ + plan.ty + ") -> "@
            + field_state_ident(s, plan.pascal) + "<"@;
        let tail = setter.skip(longer.len() as int);
        assert(setter =~= Seq::<char>::empty() + longer + tail) by {
            assert(setter.take(longer.len() as int) =~= longer);
        }
        lemma_contains_witness(setter, Seq::empty(), longer, tail);
        lemma_contains_witness(longer, Seq::empty(), head, longer.skip(head.len() as int));
        lemma_contains_trans(setter, longer, head);
        reveal_strlit("pub trait ");
        assert(setter.len() >= head.len());
    }
    let items = Seq::new(n, |c: int| planned_setter(source, plans[c]));
    lemma_joined_contains(items, k);
    lemma_code_holds_sections(source, plans, module);
    lemma_contains_trans(planned_code(source, plans, module), joined(items), items[k]);
}

/// A field type is refused exactly for what darling cannot search, or what could hide it: it is
/// walkable exactly when no comment, no whitespace other than spaces, tabs and line breaks, no
/// precise-capturing bound and no `const` bound may stand in it.
pub proof fn law_walkable_exactly_without_unsearchable_bounds(text: Seq<char>)
    ensures
        walkable_type(text) <==> {
            &&& forall|i: int| !#[trigger] comment_at(text, i)
            &&& forall|i: int| 0 <= i < text.len() ==> !other_space(#[trigger] text[i])
            &&& forall|i: int| !#[trigger] capture_at(text, i)
            &&& forall|i: int| !#[trigger] const_bound_at(text, i)
        },
{
}

/// A field type without the words `use` and `const`, without comments and with plain whitespace
/// is read, whatever else it holds (`dyn`, closures, array lengths with `/`, ...).
pub proof fn law_types_without_the_keywords_are_walkable(text: Seq<char>)
    requires
        forall|i: int| !#[trigger] word_at(text, use_word(), i),
        forall|i: int| !#[trigger] word_at(text, const_word(), i),
        forall|i: int| !#[trigger] comment_at(text, i),
        forall|i: int| 0 <= i < text.len() ==> !other_space(#[trigger] text[i]),
    ensures
        walkable_type(text),
{
    assert forall|i: int| !#[trigger] capture_at(text, i) by {
        assert(!word_at(text, use_word(), i));
    }
    assert forall|i: int| !#[trigger] const_bound_at(text, i) by {
        assert(!word_at(text, const_word(), i));
    }
}

/// A field type written in printable ASCII and plain whitespace, with no `/` that opens a
/// comment and without the words `use` and `const`, is read, whatever else it holds (`dyn`,
/// closures, references, arrays, tuples, paths, ...).
pub proof fn law_plain_types_without_the_keywords_are_walkable(text: Seq<char>)
    requires
        forall|i: int| !#[trigger] word_at(text, use_word(), i),
        forall|i: int| !#[trigger] word_at(text, const_word(), i),
        forall|i: int| 0 <= i < text.len() ==> {
            let c = #[trigger] text[i];
            c == ' ' || c == '\t' || c == '\n' || c == '\r' || ('!' <= c && c <= '~')
        },
        forall|i: int| 0 <= i < text.len() - 1 && #[trigger] text[i] == '/' ==> text[i + 1] != '/' && text[i + 1] != '*',
    ensures
        walkable_type(text),
{
    assert forall|i: int| !#[trigger] comment_at(text, i) by {
        if comment_at(text, i) {
            assert(text[i] == '/');
        }
    }
    assert forall|i: int| 0 <= i < text.len() implies !other_space(#[trigger] text[i]) by {
        let c = text[i];
        assert(c == ' ' || c == '\t' || c == '\n' || c == '\r' || ('!' <= c && c <= '~'));
    }
    law_types_without_the_keywords_are_walkable(text);
}

} // verus!
