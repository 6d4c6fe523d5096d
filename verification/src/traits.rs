use vstd::prelude::*;

use crate::bounds::{declare_params, declared_params};
use crate::parser::{base_ident, generics_decl, ident_text, name_text, DefaultValue, Field, Source};
use crate::states::{FieldState, InitialState};
use crate::text::{comma_list, comma_list_text, joined, opt_text, plus_list, EmitCode};

verus! {

/// `{Struct}BuilderState`: the trait that every builder state implements.
pub open spec fn state_trait_ident(source_ident: Seq<char>) -> Seq<char> {
    base_ident(source_ident) + "State"@
}

/// `{Struct}BuilderSet{Field}`: the trait whose method sets a field, named with the field's name
/// in Pascal case.
pub open spec fn setter_trait_ident(source_ident: Seq<char>, pascal: Seq<char>) -> Seq<char> {
    source_ident + "BuilderSet"@ + pascal
}

/// `{Struct}BuilderGet{Field}`: the trait whose method takes a field's value out of a state,
/// named with the field's name in Pascal case.
pub open spec fn getter_trait_ident(source_ident: Seq<char>, pascal: Seq<char>) -> Seq<char> {
    base_ident(source_ident) + "Get"@ + pascal
}

/// `get_{field}`: the method of a getter trait.
pub open spec fn getter_fn_ident(field_name: Seq<char>) -> Seq<char> {
    "get_"@ + field_name
}

/// The `where` keyword and the struct's own predicates, ending in a comma, before the bound
/// that `build` puts on the state.
pub open spec fn where_text(where_clause: Option<String>) -> Seq<char> {
    match where_clause {
        Some(clause) => if clause@.len() == 0 {
            "where"@
        } else if clause@.last() == ',' {
            clause@
        } else {
            clause@ + ","@
        },
        None => "where"@,
    }
}

/// One field of the struct literal that `build` returns: `field: self.get_field(),`.
pub open spec fn build_field_line(field_name: Seq<char>, getter_fn: Seq<char>) -> Seq<char> {
    "            "@ + field_name + ": self."@ + getter_fn + "(),\n"@
}

/// The code of the state trait: its `build` method, which any state that can give every
/// field's value can call, and which makes the struct from those values.
pub open spec fn state_trait_code(
    ident: Seq<char>,
    source_ident: Seq<char>,
    impl_generics: Seq<char>,
    ty_generics: Seq<char>,
    where_clause: Seq<char>,
    bounds: Seq<Seq<char>>,
    field_lines: Seq<Seq<char>>,
) -> Seq<char> {
    "pub trait "@ + ident + " {\n    fn build"@ + impl_generics + "(mut self) -> "@ + source_ident
        + ty_generics + "\n    "@ + where_clause + "\n    Self: "@ + plus_list(bounds)
        + "Sized,\n    {\n        "@ + source_ident + " {\n"@ + joined(field_lines)
        + "        }\n    }\n}\n"@
}

/// The code of the impl of the state trait for the empty builder.
pub open spec fn state_trait_impl_code(trait_ident: Seq<char>, implementor: Seq<char>) -> Seq<char> {
    "impl "@ + trait_ident + " for "@ + implementor + " {}\n"@
}

/// The code of a setter trait: its method moves a state into the state of the field, holding the
/// given value; every state implements it.
pub open spec fn setter_trait_code(
    ident: Seq<char>,
    state_trait: Seq<char>,
    field_name: Seq<char>,
    decl: Seq<char>,
    field_ty: Seq<char>,
    state_ident: Seq<char>,
    lifetimes: Seq<Seq<char>>,
    generics: Seq<Seq<char>>,
) -> Seq<char> {
    "pub trait "@ + ident + ": Sized + "@ + state_trait + " {\n    fn "@ + field_name + decl
        + "(self, value: "@ + field_ty + ") -> "@ + state_ident + "<"@ + comma_list(lifetimes)
        + comma_list(generics) + "Self> {\n        "@ + state_ident
        + " {\n            inner: self,\n            "@ + field_name
        + ": Some(value),\n        }\n    }\n}\nimpl<T: "@ + state_trait + "> "@ + ident
        + " for T {}\n"@
}

/// The code of a getter trait, whose error names the field that was not set and the builder.
pub open spec fn getter_trait_code(
    ident: Seq<char>,
    decl: Seq<char>,
    getter_fn: Seq<char>,
    field_ty: Seq<char>,
    field_name: Seq<char>,
    source_ident: Seq<char>,
) -> Seq<char> {
    "#[diagnostic::on_unimplemented(\n    message = \"the builder `{Self}` has no value for the field `"@
        + field_name + "` of `"@ + source_ident + "`\",\n    label = \"`"@ + field_name
        + "` is not set\",\n    note = \"set it with `."@ + field_name + "(..)` on the `"@
        + base_ident(source_ident) + "` before calling `build()`\"\n)]\npub trait "@ + ident + decl
        + " {\n    fn "@ + getter_fn + "(&mut self) -> "@ + field_ty + ";\n}\n"@
}

/// How a state gives the value of a field: its own field, or by asking the state it was made from.
pub open spec fn getter_body(own: bool, state_field: Seq<char>, getter_fn: Seq<char>) -> Seq<char> {
    if own {
        "self."@ + state_field + ".take().expect(\"@TODO\")"@
    } else {
        "self.inner."@ + getter_fn + "()"@
    }
}

/// The bound on the inner state of an impl of a getter trait for a state: a state of its own
/// field needs nothing of it, any other state needs it to give the value.
pub open spec fn inner_bound(own: bool, state_trait: Seq<char>, getter_ident: Seq<char>, decl: Seq<char>) -> Seq<char> {
    if own {
        state_trait
    } else {
        state_trait + " + "@ + getter_ident + decl
    }
}

/// The code of the impl of a getter trait for a state.
pub open spec fn getter_impl_code(
    own: bool,
    union_lifetimes: Seq<Seq<char>>,
    union_param_decls: Seq<Seq<char>>,
    state_trait: Seq<char>,
    getter_ident: Seq<char>,
    decl: Seq<char>,
    state_ident: Seq<char>,
    state_lifetimes: Seq<Seq<char>>,
    state_generics: Seq<Seq<char>>,
    getter_fn: Seq<char>,
    field_ty: Seq<char>,
    state_field: Seq<char>,
) -> Seq<char> {
    "impl<"@ + comma_list(union_lifetimes) + comma_list(union_param_decls) + "InnerBuilderState: "@
        + inner_bound(own, state_trait, getter_ident, decl) + "> "@ + getter_ident + decl
        + " for "@ + state_ident + "<"@ + comma_list(state_lifetimes) + comma_list(state_generics)
        + "InnerBuilderState> {\n    fn "@ + getter_fn + "(&mut self) -> "@ + field_ty
        + " {\n        "@ + getter_body(own, state_field, getter_fn) + "\n    }\n}\n"@
}

/// The expression that gives a default value.
pub open spec fn default_text(default: DefaultValue) -> Seq<char> {
    match default {
        DefaultValue::Trait => "::core::default::Default::default()"@,
        DefaultValue::Expr(expr) => expr@,
    }
}

/// The code of the impl of a getter trait for the empty builder, which gives the default value.
pub open spec fn default_getter_code(
    definition: Seq<char>,
    decl: Seq<char>,
    getter_ident: Seq<char>,
    initial_ident: Seq<char>,
    getter_fn: Seq<char>,
    field_ty: Seq<char>,
    default: Seq<char>,
) -> Seq<char> {
    "impl"@ + definition + " "@ + getter_ident + decl + " for "@ + initial_ident + " {\n    fn "@
        + getter_fn + "(&mut self) -> "@ + field_ty + " {\n        "@ + default
        + "\n    }\n}\n"@
}

/// The names of `second` that `first` does not hold, in order.
pub open spec fn missing_names(first: Seq<Seq<char>>, second: Seq<Seq<char>>) -> Seq<Seq<char>>
    decreases second.len(),
{
    if second.len() == 0 {
        Seq::empty()
    } else if first.contains(second.last()) {
        missing_names(first, second.drop_last())
    } else {
        missing_names(first, second.drop_last()).push(second.last())
    }
}

/// The names of `first`, then those of `second` that `first` does not hold.
pub open spec fn union_names(first: Seq<Seq<char>>, second: Seq<Seq<char>>) -> Seq<Seq<char>> {
    first + missing_names(first, second)
}

/// Whether `names` holds `name`.
pub fn contains_name(names: &Vec<String>, name: &String) -> (res: bool)
    ensures
        res == names.deep_view().contains(name@),
{
    let mut i: usize = 0;
    while i < names.len()
        invariant
            i <= names.len(),
            forall|j: int| 0 <= j < i ==> names.deep_view()[j] != name@,
        decreases names.len() - i,
    {
        if names[i] == *name {
            assert(names.deep_view()[i as int] == name@);
            return true;
        }
        i = i + 1;
    }
    false
}

/// The names of `first`, then those of `second` that `first` does not hold.
pub fn union(first: &Vec<String>, second: &Vec<String>) -> (res: Vec<String>)
    ensures
        res.deep_view() == union_names(first.deep_view(), second.deep_view()),
{
    let mut res: Vec<String> = Vec::new();
    let mut i: usize = 0;
    while i < first.len()
        invariant
            i <= first.len(),
            res.deep_view() == first.deep_view().take(i as int),
        decreases first.len() - i,
    {
        let ghost before = res.deep_view();
        res.push(first[i].clone());
        assert(res.deep_view() =~= before.push(first[i as int]@));
        assert(first.deep_view().take(i + 1) =~= first.deep_view().take(i as int).push(first[i as int]@));
        i = i + 1;
    }
    assert(first.deep_view().take(first.len() as int) =~= first.deep_view());
    assert(first.deep_view() + missing_names(first.deep_view(), second.deep_view().take(0)) =~= first.deep_view());
    let mut j: usize = 0;
    while j < second.len()
        invariant
            j <= second.len(),
            res.deep_view() == first.deep_view() + missing_names(first.deep_view(), second.deep_view().take(j as int)),
        decreases second.len() - j,
    {
        let ghost before = res.deep_view();
        let ghost taken = second.deep_view().take(j + 1);
        assert(taken.drop_last() =~= second.deep_view().take(j as int));
        assert(taken.last() == second[j as int]@);
        if !contains_name(first, &second[j]) {
            res.push(second[j].clone());
            assert(res.deep_view() =~= before.push(second[j as int]@));
            assert(res.deep_view() =~= first.deep_view() + missing_names(first.deep_view(), taken));
        }
        j = j + 1;
    }
    assert(second.deep_view().take(second.len() as int) =~= second.deep_view());
    res
}

/// The `where` keyword and the struct's own predicates, ending in a comma.
pub fn where_predicates(where_clause: &Option<String>) -> (res: String)
    ensures
        res@ == where_text(*where_clause),
{
    match where_clause {
        Some(clause) => {
            let len = clause.as_str().unicode_len();
            if len == 0 {
                String::from_str("where")
            } else if clause.as_str().get_char(len - 1) == ',' {
                clause.clone()
            } else {
                let mut text = clause.clone();
                text.append(",");
                text
            }
        },
        None => String::from_str("where"),
    }
}

/// An optional piece of text, or nothing.
pub fn opt_string(piece: Option<String>) -> (res: String)
    ensures
        res@ == opt_text(piece.deep_view()),
{
    match piece {
        Some(text) => text,
        None => String::new(),
    }
}

/// The trait that every builder state implements; its `build` method makes the struct.
#[derive(Debug)]
pub struct StateTrait<'a> {
    pub source: &'a Source,
    pub field_getter_traits: Vec<&'a FieldGetterTrait<'a>>,
    pub ident: String,
}

impl<'a> StateTrait<'a> {
    /// Names the state trait `{Struct}BuilderState`.
    pub fn new(source: &'a Source, field_getter_traits: Vec<&'a FieldGetterTrait<'a>>) -> (res: Self)
        ensures
            res.source == source,
            res.field_getter_traits@ == field_getter_traits@,
            res.ident@ == state_trait_ident(source.ident@),
    {
        let mut ident = source.base_ident();
        ident.append("State");
        StateTrait { source, ident, field_getter_traits }
    }

    /// The impl of this trait for the empty builder.
    pub fn impl_for(&'a self, state: &'a InitialState) -> (res: StateTraitImpl<'a>)
        ensures
            res.trt == self,
            res.implementor == state,
    {
        StateTraitImpl::new(self, state)
    }

    /// The bounds that `build` puts on the state: one getter trait per field.
    pub open spec fn bounds(&self) -> Seq<Seq<char>> {
        self.field_getter_traits@.map_values(|getter: &FieldGetterTrait<'a>| getter.ty_text())
    }

    /// The fields of the struct literal that `build` returns.
    pub open spec fn field_lines(&self) -> Seq<Seq<char>> {
        self.field_getter_traits@.map_values(
            |getter: &FieldGetterTrait<'a>| build_field_line(name_text(getter.field.attributes.ident), getter.fn_ident@),
        )
    }
}

impl<'a> EmitCode for StateTrait<'a> {
    open spec fn code(&self) -> Seq<char> {
        state_trait_code(
            self.ident@,
            self.source.ident@,
            self.source.generics.impl_generics@,
            self.source.generics.ty_generics@,
            where_text(self.source.generics.where_clause),
            self.bounds(),
            self.field_lines(),
        )
    }

    fn to_tokens(&self, tokens: &mut String) {
        let getters = &self.field_getter_traits;
        let mut bounds = String::new();
        let mut lines = String::new();
        let mut i: usize = 0;
        while i < getters.len()
            invariant
                i <= getters.len(),
                getters == self.field_getter_traits,
                bounds@ == plus_list(self.bounds().take(i as int)),
                lines@ == joined(self.field_lines().take(i as int)),
            decreases getters.len() - i,
        {
            let getter = getters[i];
            bounds.append(getter.ty().as_str());
            bounds.append(" + ");
            lines.append("            ");
            lines.append(ident_text(&getter.field.attributes.ident).as_str());
            lines.append(": self.");
            lines.append(getter.fn_ident.as_str());
            lines.append("(),\n");
            assert(self.bounds().take(i + 1).drop_last() =~= self.bounds().take(i as int));
            assert(self.field_lines().take(i + 1).drop_last() =~= self.field_lines().take(i as int));
            i = i + 1;
        }
        assert(self.bounds().take(getters.len() as int) =~= self.bounds());
        assert(self.field_lines().take(getters.len() as int) =~= self.field_lines());
        let generics = &self.source.generics;
        let source_ident = self.source.ident.as_str();
        let mut code = String::from_str("pub trait ");
        code.append(self.ident.as_str());
        code.append(" {\n    fn build");
        code.append(generics.impl_generics.as_str());
        code.append("(mut self) -> ");
        code.append(source_ident);
        code.append(generics.ty_generics.as_str());
        code.append("\n    ");
        code.append(where_predicates(&generics.where_clause).as_str());
        code.append("\n    Self: ");
        code.append(bounds.as_str());
        code.append("Sized,\n    {\n        ");
        code.append(source_ident);
        code.append(" {\n");
        code.append(lines.as_str());
        code.append("        }\n    }\n}\n");
        tokens.append(code.as_str());
    }
}

/// The impl of the state trait for the empty builder.
pub struct StateTraitImpl<'a> {
    pub trt: &'a StateTrait<'a>,
    pub implementor: &'a InitialState,
}

impl<'a> StateTraitImpl<'a> {
    pub fn new(trt: &'a StateTrait, implementor: &'a InitialState) -> (res: Self)
        ensures
            res.trt == trt,
            res.implementor == implementor,
    {
        Self { trt, implementor }
    }
}

impl<'a> EmitCode for StateTraitImpl<'a> {
    open spec fn code(&self) -> Seq<char> {
        state_trait_impl_code(self.trt.ident@, self.implementor.ident@)
    }

    fn to_tokens(&self, tokens: &mut String) {
        let mut code = String::from_str("impl ");
        code.append(self.trt.ident.as_str());
        code.append(" for ");
        code.append(self.implementor.ident.as_str());
        code.append(" {}\n");
        tokens.append(code.as_str());
    }
}

/// The trait whose method sets one field.
#[derive(Debug)]
pub struct FieldSetterTrait<'a> {
    pub ident: String,
    pub state_trait: &'a StateTrait<'a>,
    pub field_state: &'a FieldState<'a>,
    pub field: &'a Field<'a>,
}

impl<'a> FieldSetterTrait<'a> {
    /// Names the setter of `field`: `{Struct}BuilderSet{Field}`.
    pub fn new(
        source: &'a Source,
        field: &'a Field<'a>,
        state_trait: &'a StateTrait,
        field_state: &'a FieldState,
    ) -> (res: Self)
        requires
            field.attributes.ident is Some,
        ensures
            res.field == field,
            res.state_trait == state_trait,
            res.field_state == field_state,
            res.ident@ == setter_trait_ident(source.ident@, field.pascal@),
    {
        let mut ident = source.ident.clone();
        ident.append("BuilderSet");
        ident.append(field.pascal.as_str());
        Self { ident, state_trait, field_state, field }
    }
}

impl<'a> EmitCode for FieldSetterTrait<'a> {
    open spec fn code(&self) -> Seq<char> {
        setter_trait_code(
            self.ident@,
            self.state_trait.ident@,
            name_text(self.field.attributes.ident),
            opt_text(generics_decl(self.field.lifetimes.deep_view(), self.field.param_decls())),
            self.field.attributes.ty@,
            self.field_state.ident@,
            self.field.lifetimes.deep_view(),
            self.field.generics.deep_view(),
        )
    }

    fn to_tokens(&self, tokens: &mut String) {
        let name = ident_text(&self.field.attributes.ident);
        let decl = opt_string(self.field.generics_definition());
        let state_trait = self.state_trait.ident.as_str();
        let state_ident = self.field_state.ident.as_str();
        let mut code = String::from_str("pub trait ");
        code.append(self.ident.as_str());
        code.append(": Sized + ");
        code.append(state_trait);
        code.append(" {\n    fn ");
        code.append(name.as_str());
        code.append(decl.as_str());
        code.append("(self, value: ");
        code.append(self.field.attributes.ty.as_str());
        code.append(") -> ");
        code.append(state_ident);
        code.append("<");
        code.append(comma_list_text(&self.field.lifetimes).as_str());
        code.append(comma_list_text(&self.field.generics).as_str());
        code.append("Self> {\n        ");
        code.append(state_ident);
        code.append(" {\n            inner: self,\n            ");
        code.append(name.as_str());
        code.append(": Some(value),\n        }\n    }\n}\nimpl<T: ");
        code.append(state_trait);
        code.append("> ");
        code.append(self.ident.as_str());
        code.append(" for T {}\n");
        tokens.append(code.as_str());
    }
}

/// The trait whose method takes the value of one field out of a state.
#[derive(Debug)]
pub struct FieldGetterTrait<'a> {
    pub ident: String,
    pub fn_ident: String,
    pub field: &'a Field<'a>,
}

impl<'a> FieldGetterTrait<'a> {
    /// Names the getter of `field`: the trait `{Struct}BuilderGet{Field}`, the method `get_{field}`.
    pub fn new(source: &'a Source, field: &'a Field) -> (res: Self)
        requires
            field.attributes.ident is Some,
        ensures
            res.field == field,
            res.ident@ == getter_trait_ident(source.ident@, field.pascal@),
            res.fn_ident@ == getter_fn_ident(name_text(field.attributes.ident)),
    {
        let mut ident = source.base_ident();
        ident.append("Get");
        ident.append(field.pascal.as_str());
        let mut fn_ident = String::from_str("get_");
        fn_ident.append(ident_text(&field.attributes.ident).as_str());
        Self { ident, field, fn_ident }
    }

    /// `<'a, T, >` for the generic parameters that the field's type uses, if it uses any.
    pub fn generics_declaration(&self) -> (res: Option<String>)
        ensures
            res.deep_view() == generics_decl(self.field.lifetimes.deep_view(), self.field.generics.deep_view()),
    {
        self.field.generics_declaration()
    }

    /// The trait as a bound names it, with its generic parameters.
    pub open spec fn ty_text(&self) -> Seq<char> {
        self.ident@ + opt_text(generics_decl(self.field.lifetimes.deep_view(), self.field.generics.deep_view()))
    }

    /// The trait as a bound names it, with its generic parameters.
    pub fn ty(&self) -> (res: String)
        ensures
            res@ == self.ty_text(),
    {
        let mut ty = self.ident.clone();
        ty.append(opt_string(self.generics_declaration()).as_str());
        ty
    }
}

impl<'a> EmitCode for FieldGetterTrait<'a> {
    open spec fn code(&self) -> Seq<char> {
        getter_trait_code(
            self.ident@,
            opt_text(generics_decl(self.field.lifetimes.deep_view(), self.field.param_decls())),
            self.fn_ident@,
            self.field.attributes.ty@,
            name_text(self.field.attributes.ident),
            self.field.source.ident@,
        )
    }

    fn to_tokens(&self, tokens: &mut String) {
        let name = ident_text(&self.field.attributes.ident);
        let mut code = String::from_str(
            "#[diagnostic::on_unimplemented(\n    message = \"the builder `{Self}` has no value for the field `",
        );
        code.append(name.as_str());
        code.append("` of `");
        code.append(self.field.source.ident.as_str());
        code.append("`\",\n    label = \"`");
        code.append(name.as_str());
        code.append("` is not set\",\n    note = \"set it with `.");
        code.append(name.as_str());
        code.append("(..)` on the `");
        code.append(self.field.source.base_ident().as_str());
        code.append("` before calling `build()`\"\n)]\npub trait ");
        code.append(self.ident.as_str());
        code.append(opt_string(self.field.generics_definition()).as_str());
        code.append(" {\n    fn ");
        code.append(self.fn_ident.as_str());
        code.append("(&mut self) -> ");
        code.append(self.field.attributes.ty.as_str());
        code.append(";\n}\n");
        tokens.append(code.as_str());
    }
}

/// The impl of one getter trait for one builder state.
#[derive(Debug)]
pub struct FieldGetterTraitImpl<'a> {
    pub getter_trait: &'a FieldGetterTrait<'a>,
    pub state: &'a FieldState<'a>,
    pub state_trait_ident: String,
}

impl<'a> FieldGetterTraitImpl<'a> {
    pub fn new(getter_trait: &'a FieldGetterTrait<'a>, state: &'a FieldState<'a>) -> (res: Self)
        ensures
            res.getter_trait == getter_trait,
            res.state == state,
            res.state_trait_ident@ == state_trait_ident(getter_trait.field.source.ident@),
    {
        let mut state_trait_ident = getter_trait.field.source.base_ident();
        state_trait_ident.append("State");
        Self { state_trait_ident, getter_trait, state }
    }

    /// Whether the state is the one of the getter's own field.
    pub open spec fn own(&self) -> bool {
        self.getter_trait.field.attributes.ident.deep_view() == self.state.field.attributes.ident.deep_view()
    }
}

/// Whether two optional names are the same.
pub fn same_ident(first: &Option<String>, second: &Option<String>) -> (res: bool)
    ensures
        res == (first.deep_view() == second.deep_view()),
{
    match (first, second) {
        (Some(a), Some(b)) => *a == *b,
        (None, None) => true,
        _ => false,
    }
}

impl<'a> EmitCode for FieldGetterTraitImpl<'a> {
    open spec fn code(&self) -> Seq<char> {
        let getter = self.getter_trait;
        let state = self.state;
        getter_impl_code(
            self.own(),
            union_names(state.field.lifetimes.deep_view(), getter.field.lifetimes.deep_view()),
            declared_params(
                getter.field.source.generics,
                union_names(state.field.generics.deep_view(), getter.field.generics.deep_view()),
                union_names(state.field.lifetimes.deep_view(), getter.field.lifetimes.deep_view())
                    + union_names(state.field.generics.deep_view(), getter.field.generics.deep_view()),
            ),
            self.state_trait_ident@,
            getter.ident@,
            opt_text(generics_decl(getter.field.lifetimes.deep_view(), getter.field.generics.deep_view())),
            state.ident@,
            state.field.lifetimes.deep_view(),
            state.field.generics.deep_view(),
            getter.fn_ident@,
            getter.field.attributes.ty@,
            name_text(state.field.attributes.ident),
        )
    }

    fn to_tokens(&self, tokens: &mut String) {
        let getter = self.getter_trait;
        let state = self.state;
        let own = same_ident(&getter.field.attributes.ident, &state.field.attributes.ident);
        let decl = opt_string(getter.generics_declaration());
        let mut bound = self.state_trait_ident.clone();
        let mut body = String::new();
        if own {
            body.append("self.");
            body.append(ident_text(&state.field.attributes.ident).as_str());
            body.append(".take().expect(\"@TODO\")");
        } else {
            bound.append(" + ");
            bound.append(getter.ident.as_str());
            bound.append(decl.as_str());
            body.append("self.inner.");
            body.append(getter.fn_ident.as_str());
            body.append("()");
        }
        let union_lifetimes = union(&state.field.lifetimes, &getter.field.lifetimes);
        let union_generics = union(&state.field.generics, &getter.field.generics);
        let union_decls = declare_params(&getter.field.source.generics, &union_generics, &union_lifetimes, &union_generics);
        let mut code = String::from_str("impl<");
        code.append(comma_list_text(&union_lifetimes).as_str());
        code.append(comma_list_text(&union_decls).as_str());
        code.append("InnerBuilderState: ");
        code.append(bound.as_str());
        code.append("> ");
        code.append(getter.ident.as_str());
        code.append(decl.as_str());
        code.append(" for ");
        code.append(state.ident.as_str());
        code.append("<");
        code.append(comma_list_text(&state.field.lifetimes).as_str());
        code.append(comma_list_text(&state.field.generics).as_str());
        code.append("InnerBuilderState> {\n    fn ");
        code.append(getter.fn_ident.as_str());
        code.append("(&mut self) -> ");
        code.append(getter.field.attributes.ty.as_str());
        code.append(" {\n        ");
        code.append(body.as_str());
        code.append("\n    }\n}\n");
        tokens.append(code.as_str());
    }
}

/// The impl of a getter trait for the empty builder, for a field with a default value.
#[derive(Debug)]
pub struct FieldGetterTraitDefaultImpl<'a> {
    pub getter_trait: &'a FieldGetterTrait<'a>,
    pub initial_state: &'a InitialState,
    pub default: &'a DefaultValue,
}

impl<'a> FieldGetterTraitDefaultImpl<'a> {
    pub fn new(getter_trait: &'a FieldGetterTrait<'a>, initial_state: &'a InitialState, default: &'a DefaultValue) -> (res: Self)
        ensures
            res.getter_trait == getter_trait,
            res.initial_state == initial_state,
            res.default == default,
    {
        Self { getter_trait, initial_state, default }
    }
}

impl<'a> EmitCode for FieldGetterTraitDefaultImpl<'a> {
    open spec fn code(&self) -> Seq<char> {
        let getter = self.getter_trait;
        default_getter_code(
            opt_text(generics_decl(getter.field.lifetimes.deep_view(), getter.field.param_decls())),
            opt_text(generics_decl(getter.field.lifetimes.deep_view(), getter.field.generics.deep_view())),
            getter.ident@,
            self.initial_state.ident@,
            getter.fn_ident@,
            getter.field.attributes.ty@,
            default_text(*self.default),
        )
    }

    fn to_tokens(&self, tokens: &mut String) {
        let getter = self.getter_trait;
        let definition = opt_string(getter.field.generics_definition());
        let decl = opt_string(getter.generics_declaration());
        let mut code = String::from_str("impl");
        code.append(definition.as_str());
        code.append(" ");
        code.append(getter.ident.as_str());
        code.append(decl.as_str());
        code.append(" for ");
        code.append(self.initial_state.ident.as_str());
        code.append(" {\n    fn ");
        code.append(getter.fn_ident.as_str());
        code.append("(&mut self) -> ");
        code.append(getter.field.attributes.ty.as_str());
        code.append(" {\n        ");
        match self.default {
            DefaultValue::Trait => code.append("::core::default::Default::default()"),
            DefaultValue::Expr(expr) => code.append(expr.as_str()),
        }
        code.append("\n    }\n}\n");
        tokens.append(code.as_str());
    }
}

} // verus!
