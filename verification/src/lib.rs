//! Planning and writing the code of a type-state builder for a struct with named fields.

mod bounds;
mod case;
mod generator;
mod laws;
mod lexical;
mod parser;
mod plan;
mod states;
mod text;
mod traits;
mod usage;

use vstd::prelude::*;

pub use case::{cased, IdentCase};
pub use generator::{generator_code, imports_code, module_ident, module_name, Generator, Imports};
pub use laws::{
    distinct_names, law_build_needs_every_field, law_declarations_name_the_used_parameters, law_getter_fns_differ, law_last_set_value_wins,
    law_skipped_field_has_no_setter, law_struct_fields_have_distinct_names, law_union_names,
    law_used_params_in_declared_order, law_when_a_builder_is_written, value_origin, ValueOrigin,
    law_every_state_implements_every_getter, law_build_keeps_the_where_clause, law_build_opens_a_where_clause, law_default_value_is_written,
    law_setter_unless_skipped, law_walkable_exactly_without_unsearchable_bounds,
    law_types_without_the_keywords_are_walkable, law_plain_types_without_the_keywords_are_walkable,
};
pub use parser::{
    base_ident, error_message, field_generics, field_lifetimes, field_readable, generics_decl,
    ident_text, name_text, BuildError, DefaultValue, Field, FieldAttributes, Generics, Source,
    SourceData,
};
pub use plan::{
    attrs_of, builder_code, effective_default, field_plan, holds_own, plan_decl, plan_name,
    planned_code, planned_default_impl, planned_field_state, planned_getter, planned_getter_impl,
    planned_getter_impl_row, planned_setter, planned_state_trait, plans_of, source_plan,
    source_plans, FieldPlan,
};
pub use states::{field_state_code, field_state_ident, initial_state_code, FieldState, InitialState};
pub use text::{all_code, code_of_all, comma_list, comma_list_text, contains_text, joined, opt_text, plus_list, EmitCode};
pub use traits::{
    build_field_line, contains_name, default_getter_code, default_text, getter_body,
    getter_fn_ident, getter_impl_code, getter_trait_code, getter_trait_ident, inner_bound,
    missing_names, opt_string, same_ident, setter_trait_code, setter_trait_ident,
    state_trait_code, state_trait_ident, state_trait_impl_code, union, union_names, where_text,
    FieldGetterTrait, FieldGetterTraitDefaultImpl, FieldGetterTraitImpl, FieldSetterTrait,
    StateTrait, StateTraitImpl,
};
pub use lexical::{
    capture_at, comment_at, const_bound_at, const_word, ident_char, next_significant,
    no_bound_after, other_space, plain_space, prev_significant, raw_word_at, token_start_before,
    use_word, walkable_type, word_at,
};
pub use usage::{in_declared_order, lifetimes_used, pick_declared, type_params_used};

use text::lemma_all_code_texts;

verus! {

/// Whether `fields` were read from `source` and all have names.
pub open spec fn fields_from(source: Source, fields: Seq<Field>) -> bool {
    forall|k: int| 0 <= k < fields.len() ==> {
        &&& *(#[trigger] fields[k]).source == source
        &&& fields[k].attributes.ident is Some
    }
}

/// Whether `getters` are the getter traits of `fields`, in order.
pub open spec fn getters_of(source: Source, fields: Seq<Field>, getters: Seq<FieldGetterTrait>) -> bool {
    &&& getters.len() == fields.len()
    &&& forall|j: int| 0 <= j < getters.len() ==> {
        &&& *(#[trigger] getters[j]).field == fields[j]
        &&& getters[j].ident@ == getter_trait_ident(source.ident@, fields[j].pascal@)
        &&& getters[j].fn_ident@ == getter_fn_ident(name_text(fields[j].attributes.ident))
    }
}

/// Whether `states` are the builder states of `fields`, in order.
pub open spec fn states_of(source: Source, fields: Seq<Field>, state_trait: StateTrait, states: Seq<FieldState>) -> bool {
    &&& states.len() == fields.len()
    &&& forall|j: int| 0 <= j < states.len() ==> {
        &&& *(#[trigger] states[j]).field == fields[j]
        &&& *states[j].state_trait == state_trait
        &&& states[j].ident@ == field_state_ident(source.ident@, fields[j].pascal@)
    }
}

fn make_getter_traits<'a>(source: &'a Source, fields: &'a Vec<Field<'a>>) -> (res: Vec<FieldGetterTrait<'a>>)
    requires
        fields_from(*source, fields@),
    ensures
        getters_of(*source, fields@, res@),
{
    let mut getters: Vec<FieldGetterTrait> = Vec::new();
    let mut k: usize = 0;
    while k < fields.len()
        invariant
            fields_from(*source, fields@),
            k <= fields.len(),
            getters.len() == k,
            forall|j: int| 0 <= j < k ==> {
                &&& *(#[trigger] getters[j]).field == fields[j]
                &&& getters[j].ident@ == getter_trait_ident(source.ident@, fields[j].pascal@)
                &&& getters[j].fn_ident@ == getter_fn_ident(name_text(fields[j].attributes.ident))
            },
        decreases fields.len() - k,
    {
        getters.push(FieldGetterTrait::new(source, &fields[k]));
        k = k + 1;
    }
    getters
}

fn make_state_trait<'a>(source: &'a Source, fields: &'a Vec<Field<'a>>, getters: &'a Vec<FieldGetterTrait<'a>>) -> (res: StateTrait<'a>)
    requires
        getters_of(*source, fields@, getters@),
    ensures
        res.ident@ == state_trait_ident(source.ident@),
        res.code() == planned_state_trait(*source, plans_of(fields@)),
{
    let mut getter_refs: Vec<&FieldGetterTrait> = Vec::new();
    let mut k: usize = 0;
    while k < getters.len()
        invariant
            k <= getters.len(),
            getter_refs.len() == k,
            forall|j: int| 0 <= j < k ==> *(#[trigger] getter_refs[j]) == getters[j],
        decreases getters.len() - k,
    {
        getter_refs.push(&getters[k]);
        k = k + 1;
    }
    let state_trait = StateTrait::new(source, getter_refs);
    let ghost s = source.ident@;
    let ghost plans = plans_of(fields@);
    assert(state_trait.bounds() =~= Seq::new(plans.len(), |c: int| getter_trait_ident(s, plans[c].pascal) + plan_decl(plans[c])));
    assert(state_trait.field_lines() =~= Seq::new(plans.len(), |c: int| build_field_line(plan_name(plans[c]), getter_fn_ident(plan_name(plans[c])))));
    state_trait
}

fn make_field_states<'a>(source: &'a Source, fields: &'a Vec<Field<'a>>, state_trait: &'a StateTrait<'a>) -> (res: Vec<FieldState<'a>>)
    requires
        fields_from(*source, fields@),
        state_trait.ident@ == state_trait_ident(source.ident@),
    ensures
        states_of(*source, fields@, *state_trait, res@),
        all_code(res@) == joined(Seq::new(fields.len() as nat, |c: int| planned_field_state(*source, plans_of(fields@)[c]))),
{
    let mut states: Vec<FieldState> = Vec::new();
    let mut k: usize = 0;
    while k < fields.len()
        invariant
            fields_from(*source, fields@),
            k <= fields.len(),
            states.len() == k,
            forall|j: int| 0 <= j < k ==> {
                &&& *(#[trigger] states[j]).field == fields[j]
                &&& *states[j].state_trait == *state_trait
                &&& states[j].ident@ == field_state_ident(source.ident@, fields[j].pascal@)
            },
        decreases fields.len() - k,
    {
        states.push(FieldState::new(source, &fields[k], state_trait));
        k = k + 1;
    }
    let ghost texts = Seq::new(fields.len() as nat, |c: int| planned_field_state(*source, plans_of(fields@)[c]));
    assert forall|c: int| 0 <= c < fields.len() implies #[trigger] states@[c].code() == texts[c] by {}
    proof {
        lemma_all_code_texts(states@, texts);
    }
    states
}

proof fn lemma_getters_code(source: Source, fields: Seq<Field>, getters: Seq<FieldGetterTrait>)
    requires
        fields_from(source, fields),
        getters_of(source, fields, getters),
    ensures
        all_code(getters) == joined(Seq::new(fields.len(), |c: int| planned_getter(source, plans_of(fields)[c]))),
{
    let texts = Seq::new(fields.len(), |c: int| planned_getter(source, plans_of(fields)[c]));
    assert forall|c: int| 0 <= c < fields.len() implies #[trigger] getters[c].code() == texts[c] by {}
    lemma_all_code_texts(getters, texts);
}

proof fn lemma_getter_impl_code(
    source: Source,
    fields: Seq<Field>,
    getters: Seq<FieldGetterTrait>,
    state_trait: StateTrait,
    states: Seq<FieldState>,
    i: int,
    j: int,
    item: FieldGetterTraitImpl,
)
    requires
        fields_from(source, fields),
        getters_of(source, fields, getters),
        states_of(source, fields, state_trait, states),
        0 <= i < fields.len(),
        0 <= j < fields.len(),
        *item.getter_trait == getters[j],
        *item.state == states[i],
        item.state_trait_ident@ == state_trait_ident(getters[j].field.source.ident@),
    ensures
        item.code() == planned_getter_impl(source, plans_of(fields)[i], plans_of(fields)[j]),
{
    assert(plans_of(fields)[i] == field_plan(fields[i]));
    assert(plans_of(fields)[j] == field_plan(fields[j]));
}

#[verifier::rlimit(40)]
fn push_getter_impl_row<'a>(
    source: &'a Source,
    fields: &'a Vec<Field<'a>>,
    getters: &'a Vec<FieldGetterTrait<'a>>,
    state_trait: &'a StateTrait<'a>,
    states: &'a Vec<FieldState<'a>>,
    i: usize,
    impls: &mut Vec<FieldGetterTraitImpl<'a>>,
)
    requires
        fields_from(*source, fields@),
        getters_of(*source, fields@, getters@),
        states_of(*source, fields@, *state_trait, states@),
        state_trait.ident@ == state_trait_ident(source.ident@),
        i < fields.len(),
    ensures
        all_code(final(impls)@) == all_code(old(impls)@) + planned_getter_impl_row(*source, plans_of(fields@), i as int),
{
    let n: usize = fields.len();
    let ghost plans = plans_of(fields@);
    let ghost start = all_code(impls@);
    let ghost cells = Seq::new(n as nat, |c: int| planned_getter_impl(*source, plans[i as int], plans[c]));
    assert(start + joined(cells.take(0)) =~= start);
    let mut j: usize = 0;
    while j < n
        invariant
            fields_from(*source, fields@),
            getters_of(*source, fields@, getters@),
            states_of(*source, fields@, *state_trait, states@),
            state_trait.ident@ == state_trait_ident(source.ident@),
            n == fields.len(),
            plans == plans_of(fields@),
            i < n,
            cells == Seq::new(n as nat, |c: int| planned_getter_impl(*source, plans[i as int], plans[c])),
            j <= n,
            all_code(impls@) == start + joined(cells.take(j as int)),
        decreases n - j,
    {
        let item = FieldGetterTraitImpl::new(&getters[j], &states[i]);
        proof {
            lemma_getter_impl_code(*source, fields@, getters@, *state_trait, states@, i as int, j as int, item);
        }
        let ghost before = impls@;
        impls.push(item);
        assert(impls@.drop_last() =~= before);
        assert(cells.take(j + 1).drop_last() =~= cells.take(j as int));
        assert(start + joined(cells.take(j as int)) + item.code() =~= start + joined(cells.take(j + 1)));
        j = j + 1;
    }
    assert(cells.take(n as int) =~= cells);
}

fn make_getter_impls<'a>(
    source: &'a Source,
    fields: &'a Vec<Field<'a>>,
    getters: &'a Vec<FieldGetterTrait<'a>>,
    state_trait: &'a StateTrait<'a>,
    states: &'a Vec<FieldState<'a>>,
) -> (res: Vec<FieldGetterTraitImpl<'a>>)
    requires
        fields_from(*source, fields@),
        getters_of(*source, fields@, getters@),
        states_of(*source, fields@, *state_trait, states@),
        state_trait.ident@ == state_trait_ident(source.ident@),
    ensures
        all_code(res@) == joined(Seq::new(fields.len() as nat, |r: int| planned_getter_impl_row(*source, plans_of(fields@), r))),
{
    let n: usize = fields.len();
    let ghost rows = Seq::new(n as nat, |r: int| planned_getter_impl_row(*source, plans_of(fields@), r));
    let mut impls: Vec<FieldGetterTraitImpl> = Vec::new();
    let mut i: usize = 0;
    while i < n
        invariant
            fields_from(*source, fields@),
            getters_of(*source, fields@, getters@),
            states_of(*source, fields@, *state_trait, states@),
            state_trait.ident@ == state_trait_ident(source.ident@),
            n == fields.len(),
            rows == Seq::new(n as nat, |r: int| planned_getter_impl_row(*source, plans_of(fields@), r)),
            i <= n,
            all_code(impls@) == joined(rows.take(i as int)),
        decreases n - i,
    {
        push_getter_impl_row(source, fields, getters, state_trait, states, i, &mut impls);
        assert(rows.take(i + 1).drop_last() =~= rows.take(i as int));
        i = i + 1;
    }
    assert(rows.take(n as int) =~= rows);
    impls
}

fn make_setter_traits<'a>(
    source: &'a Source,
    fields: &'a Vec<Field<'a>>,
    state_trait: &'a StateTrait<'a>,
    states: &'a Vec<FieldState<'a>>,
) -> (res: Vec<FieldSetterTrait<'a>>)
    requires
        fields_from(*source, fields@),
        states_of(*source, fields@, *state_trait, states@),
        state_trait.ident@ == state_trait_ident(source.ident@),
    ensures
        all_code(res@) == joined(Seq::new(fields.len() as nat, |c: int| planned_setter(*source, plans_of(fields@)[c]))),
{
    let n: usize = fields.len();
    let ghost pieces = Seq::new(n as nat, |c: int| planned_setter(*source, plans_of(fields@)[c]));
    let mut setters: Vec<FieldSetterTrait> = Vec::new();
    let mut k: usize = 0;
    while k < n
        invariant
            fields_from(*source, fields@),
            states_of(*source, fields@, *state_trait, states@),
            state_trait.ident@ == state_trait_ident(source.ident@),
            n == fields.len(),
            pieces == Seq::new(n as nat, |c: int| planned_setter(*source, plans_of(fields@)[c])),
            k <= n,
            all_code(setters@) == joined(pieces.take(k as int)),
        decreases n - k,
    {
        assert(pieces.take(k + 1).drop_last() =~= pieces.take(k as int));
        if !fields[k].attributes.skip {
            let item = FieldSetterTrait::new(source, &fields[k], state_trait, &states[k]);
            assert(item.code() == pieces[k as int]);
            let ghost before = setters@;
            setters.push(item);
            assert(setters@.drop_last() =~= before);
        } else {
            assert(joined(pieces.take(k as int)) + Seq::<char>::empty() =~= joined(pieces.take(k as int)));
        }
        k = k + 1;
    }
    assert(pieces.take(n as int) =~= pieces);
    setters
}

fn make_default_impls<'a>(
    source: &'a Source,
    fields: &'a Vec<Field<'a>>,
    getters: &'a Vec<FieldGetterTrait<'a>>,
    initial_state: &'a InitialState,
) -> (res: Vec<FieldGetterTraitDefaultImpl<'a>>)
    requires
        fields_from(*source, fields@),
        getters_of(*source, fields@, getters@),
        initial_state.ident@ == base_ident(source.ident@),
    ensures
        all_code(res@) == joined(Seq::new(fields.len() as nat, |c: int| planned_default_impl(*source, plans_of(fields@)[c]))),
{
    let n: usize = fields.len();
    let ghost pieces = Seq::new(n as nat, |c: int| planned_default_impl(*source, plans_of(fields@)[c]));
    let mut impls: Vec<FieldGetterTraitDefaultImpl> = Vec::new();
    let mut k: usize = 0;
    while k < n
        invariant
            fields_from(*source, fields@),
            getters_of(*source, fields@, getters@),
            initial_state.ident@ == base_ident(source.ident@),
            n == fields.len(),
            pieces == Seq::new(n as nat, |c: int| planned_default_impl(*source, plans_of(fields@)[c])),
            k <= n,
            all_code(impls@) == joined(pieces.take(k as int)),
        decreases n - k,
    {
        assert(pieces.take(k + 1).drop_last() =~= pieces.take(k as int));
        let getter = &getters[k];
        match &getter.field.attributes.default {
            Some(default) => {
                let item = FieldGetterTraitDefaultImpl::new(getter, initial_state, default);
                assert(*fields@[k as int].source == *source);
                assert(item.code() == pieces[k as int]);
                let ghost before = impls@;
                impls.push(item);
                assert(impls@.drop_last() =~= before);
            },
            None => {
                assert(joined(pieces.take(k as int)) + Seq::<char>::empty() =~= joined(pieces.take(k as int)));
            },
        }
        k = k + 1;
    }
    assert(pieces.take(n as int) =~= pieces);
    impls
}

/// Writes the code of the builder of the struct `source` whose fields were read as `fields`, in
/// the module `module`: the empty builder, the state of each field, the state trait with
/// `build`, the setter and getter traits, and the getter impls of every state and of the empty
/// builder.
pub fn write_builder(source: &Source, fields: &Vec<Field>, module: String) -> (res: String)
    requires
        fields_from(*source, fields@),
    ensures
        res@ == planned_code(*source, plans_of(fields@), module@),
{
    let field_getter_traits = make_getter_traits(source, fields);
    let state_trait = make_state_trait(source, fields, &field_getter_traits);
    let initial_state = InitialState::new(source);
    let field_states = make_field_states(source, fields, &state_trait);
    let fields_getter_trait_impls = make_getter_impls(source, fields, &field_getter_traits, &state_trait, &field_states);
    let field_setter_traits = make_setter_traits(source, fields, &state_trait, &field_states);
    let default_getters_impls = make_default_impls(source, fields, &field_getter_traits, &initial_state);
    proof {
        lemma_getters_code(*source, fields@, field_getter_traits@);
    }
    let ghost module_text = module@;
    let generator = Generator::new(
        source,
        module,
        &state_trait,
        &initial_state,
        &field_states,
        &field_setter_traits,
        &field_getter_traits,
        &fields_getter_trait_impls,
        &default_getters_impls,
    ).unwrap();
    let mut code = String::new();
    generator.to_tokens(&mut code);
    assert(code@ =~= planned_code(*source, plans_of(fields@), module_text));
    code
}

/// Writes the code of the builder of `source`, or says why there is none: the input is not a
/// struct, a field has no name, or a field's type cannot be read.
pub fn derive_imp(source: &Source) -> (res: Result<String, BuildError>)
    ensures
        match res {
            Ok(code) => builder_code(*source) == Ok::<Seq<char>, BuildError>(code@),
            Err(error) => builder_code(*source) == Err::<Seq<char>, BuildError>(error),
        },
{
    let fields = match source.struct_fields() {
        Ok(fields) => fields,
        Err(error) => return Err(error),
    };
    proof {
        assert forall|k: int| 0 <= k < fields.len() implies field_readable(*source, #[trigger] attrs_of(*source)[k]) by {
            assert(fields[k].reads(*source, attrs_of(*source)[k]));
        }
        assert forall|k: int| 0 <= k < fields.len() implies #[trigger] plans_of(fields@)[k] == source_plans(*source)[k] by {
            assert(fields[k].reads(*source, attrs_of(*source)[k]));
        }
        assert(plans_of(fields@) =~= source_plans(*source));
        assert forall|k: int| 0 <= k < fields.len() implies
            *(#[trigger] fields@[k]).source == *source && fields@[k].attributes.ident is Some by {
            assert(fields[k].reads(*source, attrs_of(*source)[k]));
        }
    }
    let module = module_name(source);
    Ok(write_builder(source, &fields, module))
}

} // verus!
