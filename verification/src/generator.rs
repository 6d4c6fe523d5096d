use vstd::prelude::*;

use crate::case::{cased, to_case, IdentCase};
use crate::parser::{BuildError, Source};
use crate::states::{FieldState, InitialState};
use crate::text::{
    all_code, code_of_all, contains_text, lemma_contains_prefix, lemma_contains_suffix, lemma_contains_trans,
    opt_text, EmitCode,
};
use crate::traits::{
    state_trait_impl_code, FieldGetterTrait, FieldGetterTraitDefaultImpl, FieldGetterTraitImpl,
    FieldSetterTrait, StateTrait,
};

verus! {

/// `{struct_in_snake_case}_builder`: the module that holds the generated items.
pub open spec fn module_ident(source_ident: Seq<char>) -> Seq<char> {
    cased(source_ident, IdentCase::Snake) + "_builder"@
}

/// The code that makes the generated items visible where the struct is.
pub open spec fn imports_code(module: Seq<char>, initial_ident: Seq<char>) -> Seq<char> {
    "pub use "@ + module + "::{"@ + initial_ident + ", *};\n"@
}

/// The whole generated code: a module with `Struct::builder()` and all the builder's items,
/// then the import of the module's items.
pub open spec fn generator_code(
    module: Seq<char>,
    source_ident: Seq<char>,
    impl_generics: Seq<char>,
    ty_generics: Seq<char>,
    where_clause: Seq<char>,
    initial_ident: Seq<char>,
    state_trait: Seq<char>,
    initial_state: Seq<char>,
    state_trait_impl: Seq<char>,
    field_states: Seq<char>,
    setter_traits: Seq<char>,
    getter_traits: Seq<char>,
    getter_impls: Seq<char>,
    default_impls: Seq<char>,
) -> Seq<char> {
    "mod "@ + module + " {\n    use super::*;\n    impl"@ + impl_generics + " "@ + source_ident
        + ty_generics + " "@ + where_clause + " {\n        pub fn builder() -> "@ + initial_ident
        + " { "@ + initial_ident + " {} }\n    }\n"@ + state_trait + initial_state
        + state_trait_impl + field_states + setter_traits + getter_traits + getter_impls
        + default_impls + "}\n"@ + imports_code(module, initial_ident)
}

/// The whole generated code holds each of its sections.
pub proof fn lemma_generator_holds_sections(
    module: Seq<char>,
    source_ident: Seq<char>,
    impl_generics: Seq<char>,
    ty_generics: Seq<char>,
    where_clause: Seq<char>,
    initial_ident: Seq<char>,
    state_trait: Seq<char>,
    initial_state: Seq<char>,
    state_trait_impl: Seq<char>,
    field_states: Seq<char>,
    setter_traits: Seq<char>,
    getter_traits: Seq<char>,
    getter_impls: Seq<char>,
    default_impls: Seq<char>,
)
    ensures
        ({
            let code = generator_code(
                module, source_ident, impl_generics, ty_generics, where_clause, initial_ident,
                state_trait, initial_state, state_trait_impl, field_states, setter_traits,
                getter_traits, getter_impls, default_impls,
            );
            &&& contains_text(code, state_trait)
            &&& contains_text(code, field_states)
            &&& contains_text(code, setter_traits)
            &&& contains_text(code, getter_traits)
            &&& contains_text(code, getter_impls)
            &&& contains_text(code, default_impls)
        }),
{
    let code = generator_code(
        module, source_ident, impl_generics, ty_generics, where_clause, initial_ident,
        state_trait, initial_state, state_trait_impl, field_states, setter_traits,
        getter_traits, getter_impls, default_impls,
    );
    let c0 = "mod "@ + module + " {\n    use super::*;\n    impl"@ + impl_generics + " "@ + source_ident
        + ty_generics + " "@ + where_clause + " {\n        pub fn builder() -> "@ + initial_ident
        + " { "@ + initial_ident + " {} }\n    }\n"@;
    let c1 = c0 + state_trait;
    let c2 = c1 + initial_state;
    let c3 = c2 + state_trait_impl;
    let c4 = c3 + field_states;
    let c5 = c4 + setter_traits;
    let c6 = c5 + getter_traits;
    let c7 = c6 + getter_impls;
    let c8 = c7 + default_impls;
    let c9 = c8 + "}\n"@;
    assert(code == c9 + imports_code(module, initial_ident));
    lemma_contains_prefix(c9, imports_code(module, initial_ident));
    lemma_contains_prefix(c8, "}\n"@);
    lemma_contains_trans(code, c9, c8);
    lemma_contains_suffix(c7, default_impls);
    lemma_contains_trans(code, c8, default_impls);
    lemma_contains_prefix(c7, default_impls);
    lemma_contains_trans(code, c8, c7);
    lemma_contains_suffix(c6, getter_impls);
    lemma_contains_trans(code, c7, getter_impls);
    lemma_contains_prefix(c6, getter_impls);
    lemma_contains_trans(code, c7, c6);
    lemma_contains_suffix(c5, getter_traits);
    lemma_contains_trans(code, c6, getter_traits);
    lemma_contains_prefix(c5, getter_traits);
    lemma_contains_trans(code, c6, c5);
    lemma_contains_suffix(c4, setter_traits);
    lemma_contains_trans(code, c5, setter_traits);
    lemma_contains_prefix(c4, setter_traits);
    lemma_contains_trans(code, c5, c4);
    lemma_contains_suffix(c3, field_states);
    lemma_contains_trans(code, c4, field_states);
    lemma_contains_prefix(c3, field_states);
    lemma_contains_trans(code, c4, c3);
    lemma_contains_prefix(c2, state_trait_impl);
    lemma_contains_trans(code, c3, c2);
    lemma_contains_prefix(c1, initial_state);
    lemma_contains_trans(code, c2, c1);
    lemma_contains_suffix(c0, state_trait);
    lemma_contains_trans(code, c1, state_trait);
}

/// The name of the module that holds the generated items: `{struct_in_snake_case}_builder`.
pub fn module_name(source: &Source) -> (res: String)
    ensures
        res@ == module_ident(source.ident@),
{
    let mut name = to_case(source.ident.as_str(), IdentCase::Snake);
    name.append("_builder");
    name
}

/// Writes all the generated items.
#[derive(Debug)]
pub struct Generator<'a> {
    pub source: &'a Source,
    /// The name of the module that holds the generated items.
    pub module: String,
    pub state_trait: &'a StateTrait<'a>,
    pub initial_state: &'a InitialState,
    pub field_states: &'a Vec<FieldState<'a>>,
    pub field_setter_traits: &'a Vec<FieldSetterTrait<'a>>,
    pub field_getter_traits: &'a Vec<FieldGetterTrait<'a>>,
    pub field_getter_trait_impls: &'a Vec<FieldGetterTraitImpl<'a>>,
    pub default_getter_impls: &'a Vec<FieldGetterTraitDefaultImpl<'a>>,
}

impl<'a> Generator<'a> {
    pub fn new(
        source: &'a Source,
        module: String,
        state_trait: &'a StateTrait<'a>,
        initial_state: &'a InitialState,
        field_states: &'a Vec<FieldState>,
        field_setter_traits: &'a Vec<FieldSetterTrait<'a>>,
        field_getter_traits: &'a Vec<FieldGetterTrait<'a>>,
        field_getter_trait_impls: &'a Vec<FieldGetterTraitImpl<'a>>,
        default_getter_impls: &'a Vec<FieldGetterTraitDefaultImpl<'a>>,
    ) -> (res: Result<Self, BuildError>)
        ensures
            res matches Ok(generator) && generator == (Generator {
                source,
                module,
                state_trait,
                initial_state,
                field_states,
                field_setter_traits,
                field_getter_traits,
                field_getter_trait_impls,
                default_getter_impls,
            }),
    {
        Ok(Generator {
            source,
            module,
            state_trait,
            initial_state,
            field_states,
            field_setter_traits,
            field_getter_traits,
            field_getter_trait_impls,
            default_getter_impls,
        })
    }
}

impl<'a> EmitCode for Generator<'a> {
    open spec fn code(&self) -> Seq<char> {
        let generics = self.source.generics;
        generator_code(
            self.module@,
            self.source.ident@,
            generics.impl_generics@,
            generics.ty_generics@,
            opt_text(generics.where_clause.deep_view()),
            self.initial_state.ident@,
            self.state_trait.code(),
            self.initial_state.code(),
            state_trait_impl_code(self.state_trait.ident@, self.initial_state.ident@),
            all_code(self.field_states@),
            all_code(self.field_setter_traits@),
            all_code(self.field_getter_traits@),
            all_code(self.field_getter_trait_impls@),
            all_code(self.default_getter_impls@),
        )
    }

    fn to_tokens(&self, tokens: &mut String) {
        let source = self.source;
        let generics = &source.generics;
        let impl_state_trait_for_initial_state = self.state_trait.impl_for(self.initial_state);
        let initial_state_ident = self.initial_state.ident.as_str();
        let imports = Imports::new(self.initial_state, &self.module);
        let mut code = String::from_str("mod ");
        code.append(self.module.as_str());
        code.append(" {\n    use super::*;\n    impl");
        code.append(generics.impl_generics.as_str());
        code.append(" ");
        code.append(source.ident.as_str());
        code.append(generics.ty_generics.as_str());
        code.append(" ");
        match &generics.where_clause {
            Some(clause) => code.append(clause.as_str()),
            None => code.append(String::new().as_str()),
        }
        code.append(" {\n        pub fn builder() -> ");
        code.append(initial_state_ident);
        code.append(" { ");
        code.append(initial_state_ident);
        code.append(" {} }\n    }\n");
        self.state_trait.to_tokens(&mut code);
        self.initial_state.to_tokens(&mut code);
        impl_state_trait_for_initial_state.to_tokens(&mut code);
        code.append(code_of_all(self.field_states).as_str());
        code.append(code_of_all(self.field_setter_traits).as_str());
        code.append(code_of_all(self.field_getter_traits).as_str());
        code.append(code_of_all(self.field_getter_trait_impls).as_str());
        code.append(code_of_all(self.default_getter_impls).as_str());
        code.append("}\n");
        imports.to_tokens(&mut code);
        tokens.append(code.as_str());
    }
}

/// The import of the generated module's items.
pub struct Imports<'a> {
    pub initial_state: &'a InitialState,
    pub module: &'a String,
}

impl<'a> Imports<'a> {
    pub fn new(initial_state: &'a InitialState, module: &'a String) -> (res: Self)
        ensures
            res.initial_state == initial_state,
            res.module == module,
    {
        Imports { initial_state, module }
    }
}

impl<'a> EmitCode for Imports<'a> {
    open spec fn code(&self) -> Seq<char> {
        imports_code(self.module@, self.initial_state.ident@)
    }

    fn to_tokens(&self, tokens: &mut String) {
        let mut code = String::from_str("pub use ");
        code.append(self.module.as_str());
        code.append("::{");
        code.append(self.initial_state.ident.as_str());
        code.append(", *};\n");
        tokens.append(code.as_str());
    }
}

} // verus!
