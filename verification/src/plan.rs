use vstd::prelude::*;

use crate::case::{cased, IdentCase};
use crate::generator::{generator_code, module_ident};
use crate::parser::{
    base_ident, field_generics, field_lifetimes, field_readable, generics_decl, name_text, BuildError,
    DefaultValue, Field, FieldAttributes, Source, SourceData,
};
use crate::states::{field_state_code, field_state_ident, initial_state_code};
use crate::text::{joined, opt_text};
use crate::usage::pick_declared;
use crate::bounds::declared_params;
use crate::traits::{
    build_field_line, default_getter_code, default_text, getter_fn_ident, getter_impl_code,
    getter_trait_code, getter_trait_ident, setter_trait_code, setter_trait_ident, state_trait_code,
    state_trait_ident, state_trait_impl_code, union_names, where_text,
};

verus! {

/// What the builder's code needs to know of one field.
pub struct FieldPlan {
    /// The field's name, if it has one.
    pub ident: Option<Seq<char>>,
    /// The field's name in Pascal case.
    pub pascal: Seq<char>,
    /// The field's type, as written.
    pub ty: Seq<char>,
    /// The struct's lifetimes that the field's type uses.
    pub lifetimes: Seq<Seq<char>>,
    /// The struct's type parameters that the field's type uses.
    pub generics: Seq<Seq<char>>,
    /// The field's `default` option.
    pub default: Option<DefaultValue>,
    /// The field's `skip` option.
    pub skip: bool,
}

/// The field's name as text.
pub open spec fn plan_name(plan: FieldPlan) -> Seq<char> {
    opt_text(plan.ident)
}

/// `<'a, T, >` for the parameters that the field uses, or nothing.
pub open spec fn plan_decl(plan: FieldPlan) -> Seq<char> {
    opt_text(generics_decl(plan.lifetimes, plan.generics))
}

/// How items that declare the field's parameters declare its type parameters.
pub open spec fn plan_param_decls(source: Source, plan: FieldPlan) -> Seq<Seq<char>> {
    declared_params(source.generics, plan.generics, plan.lifetimes + plan.generics)
}

/// `<'a, T: Bound, >`: how an item declares the parameters that the field uses, or nothing.
pub open spec fn plan_def(source: Source, plan: FieldPlan) -> Seq<char> {
    opt_text(generics_decl(plan.lifetimes, plan_param_decls(source, plan)))
}

/// The plan of a field as read.
pub open spec fn field_plan(field: Field) -> FieldPlan {
    FieldPlan {
        ident: field.attributes.ident.deep_view(),
        pascal: field.pascal@,
        ty: field.attributes.ty@,
        lifetimes: field.lifetimes.deep_view(),
        generics: field.generics.deep_view(),
        default: field.attributes.default,
        skip: field.attributes.skip,
    }
}

/// The plans of fields as read.
pub open spec fn plans_of(fields: Seq<Field>) -> Seq<FieldPlan> {
    fields.map_values(|field: Field| field_plan(field))
}

/// The fields of a struct input.
pub open spec fn attrs_of(source: Source) -> Seq<FieldAttributes> {
    source.data->Struct_0@
}

/// The plan of field `k` of `source`, from what `convert_case` and darling give for it.
pub open spec fn source_plan(source: Source, k: int) -> FieldPlan {
    let attributes = attrs_of(source)[k];
    FieldPlan {
        ident: attributes.ident.deep_view(),
        pascal: cased(name_text(attributes.ident), IdentCase::Pascal),
        ty: attributes.ty@,
        lifetimes: pick_declared(source.generics.lifetimes.deep_view(), field_lifetimes(source, attributes)->0),
        generics: pick_declared(source.generics.type_params.deep_view(), field_generics(source, attributes)->0),
        default: attributes.default,
        skip: attributes.skip,
    }
}

/// The plans of all fields of `source`.
pub open spec fn source_plans(source: Source) -> Seq<FieldPlan> {
    Seq::new(attrs_of(source).len(), |k: int| source_plan(source, k))
}

/// The value a field takes when it is not set: its `default` option, if it has one.
pub open spec fn effective_default(plan: FieldPlan) -> Option<DefaultValue> {
    plan.default
}

/// The state trait of the builder.
pub open spec fn planned_state_trait(source: Source, plans: Seq<FieldPlan>) -> Seq<char> {
    let s = source.ident@;
    state_trait_code(
        state_trait_ident(s),
        s,
        source.generics.impl_generics@,
        source.generics.ty_generics@,
        where_text(source.generics.where_clause),
        Seq::new(plans.len(), |k: int| getter_trait_ident(s, plans[k].pascal) + plan_decl(plans[k])),
        Seq::new(plans.len(), |k: int| build_field_line(plan_name(plans[k]), getter_fn_ident(plan_name(plans[k])))),
    )
}

/// The state of a field.
pub open spec fn planned_field_state(source: Source, plan: FieldPlan) -> Seq<char> {
    let s = source.ident@;
    field_state_code(
        field_state_ident(s, plan.pascal),
        state_trait_ident(s),
        plan.lifetimes,
        plan.generics,
        plan_param_decls(source, plan),
        plan_name(plan),
        plan.ty,
    )
}

/// The setter trait of a field; nothing for a skipped field.
pub open spec fn planned_setter(source: Source, plan: FieldPlan) -> Seq<char> {
    let s = source.ident@;
    if plan.skip {
        Seq::empty()
    } else {
        setter_trait_code(
            setter_trait_ident(s, plan.pascal),
            state_trait_ident(s),
            plan_name(plan),
            plan_def(source, plan),
            plan.ty,
            field_state_ident(s, plan.pascal),
            plan.lifetimes,
            plan.generics,
        )
    }
}

/// The getter trait of a field.
pub open spec fn planned_getter(source: Source, plan: FieldPlan) -> Seq<char> {
    getter_trait_code(
        getter_trait_ident(source.ident@, plan.pascal),
        plan_def(source, plan),
        getter_fn_ident(plan_name(plan)),
        plan.ty,
        plan_name(plan),
        source.ident@,
    )
}

/// Whether the state of field `state` gives the getter of field `getter` from its own field:
/// the two names are the same.
pub open spec fn holds_own(state: FieldPlan, getter: FieldPlan) -> bool {
    getter.ident == state.ident
}

/// The impl of the getter trait of field `getter` for the state of field `state`.
pub open spec fn planned_getter_impl(source: Source, state: FieldPlan, getter: FieldPlan) -> Seq<char> {
    let s = source.ident@;
    getter_impl_code(
        holds_own(state, getter),
        union_names(state.lifetimes, getter.lifetimes),
        declared_params(
            source.generics,
            union_names(state.generics, getter.generics),
            union_names(state.lifetimes, getter.lifetimes) + union_names(state.generics, getter.generics),
        ),
        state_trait_ident(s),
        getter_trait_ident(s, getter.pascal),
        plan_decl(getter),
        field_state_ident(s, state.pascal),
        state.lifetimes,
        state.generics,
        getter_fn_ident(plan_name(getter)),
        getter.ty,
        plan_name(state),
    )
}

/// The impls of every getter trait for the state of field `i`, in field order.
pub open spec fn planned_getter_impl_row(source: Source, plans: Seq<FieldPlan>, i: int) -> Seq<char> {
    joined(Seq::new(plans.len(), |j: int| planned_getter_impl(source, plans[i], plans[j])))
}

/// The impl of a field's getter trait for the empty builder; nothing for a field without default.
pub open spec fn planned_default_impl(source: Source, plan: FieldPlan) -> Seq<char> {
    let s = source.ident@;
    match effective_default(plan) {
        Some(default) => default_getter_code(
            plan_def(source, plan),
            plan_decl(plan),
            getter_trait_ident(s, plan.pascal),
            base_ident(s),
            getter_fn_ident(plan_name(plan)),
            plan.ty,
            default_text(default),
        ),
        None => Seq::empty(),
    }
}

/// The whole code written for the struct `source` with fields planned as `plans`, in the module
/// `module`.
pub open spec fn planned_code(source: Source, plans: Seq<FieldPlan>, module: Seq<char>) -> Seq<char> {
    let s = source.ident@;
    let n: nat = plans.len();
    generator_code(
        module,
        s,
        source.generics.impl_generics@,
        source.generics.ty_generics@,
        opt_text(source.generics.where_clause.deep_view()),
        base_ident(s),
        planned_state_trait(source, plans),
        initial_state_code(base_ident(s)),
        state_trait_impl_code(state_trait_ident(s), base_ident(s)),
        joined(Seq::new(n, |k: int| planned_field_state(source, plans[k]))),
        joined(Seq::new(n, |k: int| planned_setter(source, plans[k]))),
        joined(Seq::new(n, |k: int| planned_getter(source, plans[k]))),
        joined(Seq::new(n, |i: int| planned_getter_impl_row(source, plans, i))),
        joined(Seq::new(n, |k: int| planned_default_impl(source, plans[k]))),
    )
}

/// What the derive gives for `source`: the builder's code, or why there is none.
pub open spec fn builder_code(source: Source) -> Result<Seq<char>, BuildError> {
    match source.data {
        SourceData::Enum => Err(BuildError::NotAStruct),
        SourceData::Struct(attrs) => if !source.named_struct() {
            Err(BuildError::UnnamedField)
        } else if exists|k: int| 0 <= k < attrs.len() && !field_readable(source, #[trigger] attrs[k]) {
            Err(BuildError::FieldType)
        } else {
            Ok(planned_code(source, source_plans(source), module_ident(source.ident@)))
        },
    }
}

} // verus!
