use vstd::prelude::*;

use crate::bounds::declare_params;
use crate::parser::{base_ident, ident_text, name_text, Field, Source};
use crate::text::{comma_list, comma_list_text, EmitCode};
use crate::traits::StateTrait;

verus! {

/// `{Struct}Builder{Field}Set`: the builder state that holds the value of a field, named with
/// the field's name in Pascal case.
pub open spec fn field_state_ident(source_ident: Seq<char>, pascal: Seq<char>) -> Seq<char> {
    source_ident + "Builder"@ + pascal + "Set"@
}

/// The code of a builder state: a struct holding the state it was made from (`inner`) and the
/// value of its field, and its impl of the state trait.
pub open spec fn field_state_code(
    ident: Seq<char>,
    state_trait: Seq<char>,
    lifetimes: Seq<Seq<char>>,
    generics: Seq<Seq<char>>,
    param_decls: Seq<Seq<char>>,
    field_name: Seq<char>,
    field_ty: Seq<char>,
) -> Seq<char> {
    "pub struct "@ + ident + "<"@ + comma_list(lifetimes) + comma_list(param_decls)
        + "InnerBuilderState: "@ + state_trait + "> {\n    inner: InnerBuilderState,\n    "@
        + field_name + ": Option<"@ + field_ty + ">,\n}\nimpl<"@ + comma_list(lifetimes)
        + comma_list(param_decls) + "InnerBuilderState: "@ + state_trait + "> "@ + state_trait
        + " for "@ + ident + "<"@ + comma_list(lifetimes) + comma_list(generics)
        + "InnerBuilderState> {}\n"@
}

/// The code of the empty builder, with `new()` that makes it.
pub open spec fn initial_state_code(ident: Seq<char>) -> Seq<char> {
    "#[derive(Debug)]\npub struct "@ + ident + ";\nimpl "@ + ident
        + " {\n    pub fn new() -> Self {\n        "@ + ident + "\n    }\n}\n"@
}

/// The builder state reached by setting one field.
#[derive(Debug)]
pub struct FieldState<'a> {
    pub field: &'a Field<'a>,
    pub state_trait: &'a StateTrait<'a>,
    pub ident: String,
}

impl<'a> FieldState<'a> {
    /// Names the state of `field`: `{Struct}Builder{Field}Set`.
    pub fn new(source: &'a Source, field: &'a Field<'a>, state_trait: &'a StateTrait<'a>) -> (res: Self)
        requires
            field.attributes.ident is Some,
        ensures
            res.field == field,
            res.state_trait == state_trait,
            res.ident@ == field_state_ident(source.ident@, field.pascal@),
    {
        let mut ident = source.ident.clone();
        ident.append("Builder");
        ident.append(field.pascal.as_str());
        ident.append("Set");
        FieldState { field, ident, state_trait }
    }
}

impl<'a> EmitCode for FieldState<'a> {
    open spec fn code(&self) -> Seq<char> {
        field_state_code(
            self.ident@,
            self.state_trait.ident@,
            self.field.lifetimes.deep_view(),
            self.field.generics.deep_view(),
            self.field.param_decls(),
            name_text(self.field.attributes.ident),
            self.field.attributes.ty@,
        )
    }

    fn to_tokens(&self, tokens: &mut String) {
        let lifetimes = comma_list_text(&self.field.lifetimes);
        let generics = comma_list_text(&self.field.generics);
        let field = self.field;
        let decls = comma_list_text(&declare_params(&field.source.generics, &field.generics, &field.lifetimes, &field.generics));
        let name = ident_text(&self.field.attributes.ident);
        let state_trait = self.state_trait.ident.as_str();
        let mut code = String::from_str("pub struct ");
        code.append(self.ident.as_str());
        code.append("<");
        code.append(lifetimes.as_str());
        code.append(decls.as_str());
        code.append("InnerBuilderState: ");
        code.append(state_trait);
        code.append("> {\n    inner: InnerBuilderState,\n    ");
        code.append(name.as_str());
        code.append(": Option<");
        code.append(self.field.attributes.ty.as_str());
        code.append(">,\n}\nimpl<");
        code.append(lifetimes.as_str());
        code.append(decls.as_str());
        code.append("InnerBuilderState: ");
        code.append(state_trait);
        code.append("> ");
        code.append(state_trait);
        code.append(" for ");
        code.append(self.ident.as_str());
        code.append("<");
        code.append(lifetimes.as_str());
        code.append(generics.as_str());
        code.append("InnerBuilderState> {}\n");
        tokens.append(code.as_str());
    }
}

/// The empty builder, which `Struct::builder()` returns.
#[derive(Debug)]
pub struct InitialState {
    pub ident: String,
}

impl InitialState {
    /// Names the empty builder `{Struct}Builder`.
    pub fn new(source: &Source) -> (res: Self)
        ensures
            res.ident@ == base_ident(source.ident@),
    {
        let mut ident = source.ident.clone();
        ident.append("Builder");
        InitialState { ident }
    }
}

impl EmitCode for InitialState {
    open spec fn code(&self) -> Seq<char> {
        initial_state_code(self.ident@)
    }

    fn to_tokens(&self, tokens: &mut String) {
        let mut code = String::from_str("#[derive(Debug)]\npub struct ");
        code.append(self.ident.as_str());
        code.append(";\nimpl ");
        code.append(self.ident.as_str());
        code.append(" {\n    pub fn new() -> Self {\n        ");
        code.append(self.ident.as_str());
        code.append("\n    }\n}\n");
        tokens.append(code.as_str());
    }
}

} // verus!
