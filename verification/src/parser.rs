use vstd::prelude::*;

use crate::bounds::{declare_params, declared_params};
use crate::case::{cased, to_case, IdentCase};
use crate::text::{comma_list, comma_list_text, opt_text};
use crate::lexical::{is_walkable_type, walkable_type};
use crate::usage::{
    in_declared_order, lifetimes_used, pick_declared, type_lifetimes, type_params, type_params_used,
};

verus! {

/// How a field with `#[builder(default)]` gets its value when no setter gave one.
#[derive(Debug)]
pub enum DefaultValue {
    /// `#[builder(default)]`: the type's `Default` value.
    Trait,
    /// `#[builder(default = "expr")]`: the given expression, written as Rust source.
    Expr(String),
}

/// One named field of the input struct, with its `#[builder(..)]` options.
#[derive(Debug)]
pub struct FieldAttributes {
    /// The field's name; `None` for a field of a tuple struct.
    pub ident: Option<String>,
    /// The field's type, written as Rust source.
    pub ty: String,
    /// The value the field takes when it is not set.
    pub default: Option<DefaultValue>,
    /// `#[builder(skip)]`: the field gets no setter and always takes its default.
    pub skip: bool,
}

/// The generic parameters of the input struct, as the generated code needs them.
#[derive(Debug)]
pub struct Generics {
    /// The parameters with their bounds, as an `impl` writes them (`<'a, T: Clone>`), or empty.
    pub impl_generics: String,
    /// The parameters as the type is named with them (`<'a, T>`), or empty.
    pub ty_generics: String,
    /// The `where` clause, starting with `where`, if the struct has one.
    pub where_clause: Option<String>,
    /// The declared lifetimes (`'a`), in declaration order.
    pub lifetimes: Vec<String>,
    /// The declared type parameters (`T`), in declaration order.
    pub type_params: Vec<String>,
    /// The bounds declared on each type parameter (`Clone + 'a`), or empty text.
    pub type_param_bounds: Vec<String>,
}

/// The body of the input item.
#[derive(Debug)]
pub enum SourceData {
    /// An enum, which no builder is made for.
    Enum,
    /// A struct, with its fields in order.
    Struct(Vec<FieldAttributes>),
}

/// The input item: what the derive reads of it.
#[derive(Debug)]
pub struct Source {
    /// The item's name.
    pub ident: String,
    pub generics: Generics,
    pub data: SourceData,
}

/// Why no builder can be written for an input.
#[derive(Clone, Copy, Debug, PartialEq, Eq, Structural)]
pub enum BuildError {
    /// The input is not a struct.
    NotAStruct,
    /// The struct has a field without a name.
    UnnamedField,
    /// A field's type or a declared generic parameter could not be read.
    FieldType,
}

impl BuildError {
    /// The message that the derive reports for this error.
    pub fn message(&self) -> (res: &'static str)
        ensures
            res@ == error_message(*self),
    {
        match self {
            BuildError::NotAStruct => "buildit supports only structs",
            BuildError::UnnamedField => "buildit supports only structs with named fields",
            BuildError::FieldType => "buildit could not read the type of a field",
        }
    }
}

/// The message of each error.
pub open spec fn error_message(error: BuildError) -> Seq<char> {
    match error {
        BuildError::NotAStruct => "buildit supports only structs"@,
        BuildError::UnnamedField => "buildit supports only structs with named fields"@,
        BuildError::FieldType => "buildit could not read the type of a field"@,
    }
}

/// `<'a, T, >`: how a list of lifetimes and type parameters is declared, or nothing when both
/// lists are empty.
pub open spec fn generics_decl(lifetimes: Seq<Seq<char>>, generics: Seq<Seq<char>>) -> Option<Seq<char>> {
    if lifetimes.len() == 0 && generics.len() == 0 {
        None
    } else {
        Some("<"@ + comma_list(lifetimes) + comma_list(generics) + ">"@)
    }
}

/// A field's name as text (nothing for an unnamed field, as `quote` writes `None`).
pub open spec fn name_text(ident: Option<String>) -> Seq<char> {
    opt_text(ident.deep_view())
}

/// A field's name as text, or nothing for a field without one.
pub fn ident_text(ident: &Option<String>) -> (res: String)
    ensures
        res@ == name_text(*ident),
{
    match ident {
        Some(name) => name.clone(),
        None => String::new(),
    }
}

/// The name `{Struct}Builder`, which is also the name of the empty builder.
pub open spec fn base_ident(source_ident: Seq<char>) -> Seq<char> {
    source_ident + "Builder"@
}

/// The set of the struct's lifetimes that a field's type uses, as darling finds them.
pub open spec fn field_lifetimes(source: Source, attributes: FieldAttributes) -> Option<Set<Seq<char>>> {
    lifetimes_used(attributes.ty@, source.generics.lifetimes.deep_view())
}

/// The set of the struct's type parameters that a field's type uses, as darling finds them.
pub open spec fn field_generics(source: Source, attributes: FieldAttributes) -> Option<Set<Seq<char>>> {
    type_params_used(attributes.ty@, source.generics.type_params.deep_view())
}

/// Whether darling can read the field's type against the struct's generics: the type has no
/// bound that darling panics on, and syn parses the type and the declared names.
pub open spec fn field_readable(source: Source, attributes: FieldAttributes) -> bool {
    &&& walkable_type(attributes.ty@)
    &&& field_lifetimes(source, attributes) is Some
    &&& field_generics(source, attributes) is Some
}

/// A field of the input together with what is read of it: the generic parameters of the struct
/// that its type uses, and its name in Pascal case.
#[derive(Debug)]
pub struct Field<'a> {
    pub source: &'a Source,
    pub attributes: &'a FieldAttributes,
    /// The field's name in Pascal case, as the names of its state and traits hold it.
    pub pascal: String,
    /// The struct's lifetimes that the field's type uses, in declaration order.
    pub lifetimes: Vec<String>,
    /// The struct's type parameters that the field's type uses, in declaration order.
    pub generics: Vec<String>,
}

impl<'a> Field<'a> {
    /// Whether this field was read from `source` and `attributes`.
    pub open spec fn reads(&self, source: Source, attributes: FieldAttributes) -> bool {
        &&& *self.source == source
        &&& *self.attributes == attributes
        &&& field_readable(source, attributes)
        &&& self.lifetimes.deep_view()
            == pick_declared(source.generics.lifetimes.deep_view(), field_lifetimes(source, attributes)->0)
        &&& self.generics.deep_view()
            == pick_declared(source.generics.type_params.deep_view(), field_generics(source, attributes)->0)
        &&& self.pascal@ == cased(name_text(attributes.ident), IdentCase::Pascal)
    }

    /// Reads which of the struct's generic parameters the field's type uses, and the field's
    /// name in Pascal case.
    pub fn new(source: &'a Source, attributes: &'a FieldAttributes) -> (res: Result<Self, BuildError>)
        ensures
            match res {
                Ok(field) => field.reads(*source, *attributes),
                Err(error) => error == BuildError::FieldType && !field_readable(*source, *attributes),
            },
    {
        let declared = &source.generics;
        if !is_walkable_type(attributes.ty.as_str()) {
            return Err(BuildError::FieldType);
        }
        let used_lifetimes = match type_lifetimes(attributes.ty.as_str(), &declared.lifetimes) {
            Some(lifetimes) => lifetimes,
            None => return Err(BuildError::FieldType),
        };
        let used_generics = match type_params(attributes.ty.as_str(), &declared.type_params) {
            Some(generics) => generics,
            None => return Err(BuildError::FieldType),
        };
        let lifetimes = in_declared_order(&declared.lifetimes, &used_lifetimes);
        let generics = in_declared_order(&declared.type_params, &used_generics);
        let pascal = to_case(ident_text(&attributes.ident).as_str(), IdentCase::Pascal);
        Ok(Field { source, attributes, pascal, lifetimes, generics })
    }

    /// How items that declare the field's parameters declare its type parameters: with the
    /// struct's bounds where they can repeat them.
    pub open spec fn param_decls(&self) -> Seq<Seq<char>> {
        declared_params(
            self.source.generics,
            self.generics.deep_view(),
            self.lifetimes.deep_view() + self.generics.deep_view(),
        )
    }

    /// `<'a, T: Bound, >`: how an item declares the generic parameters that the field's type
    /// uses, if it uses any.
    pub fn generics_definition(&self) -> (res: Option<String>)
        ensures
            res.deep_view() == generics_decl(self.lifetimes.deep_view(), self.param_decls()),
    {
        let decls = declare_params(&self.source.generics, &self.generics, &self.lifetimes, &self.generics);
        if self.lifetimes.len() == 0 && decls.len() == 0 {
            None
        } else {
            let mut decl = String::from_str("<");
            decl.append(comma_list_text(&self.lifetimes).as_str());
            decl.append(comma_list_text(&decls).as_str());
            decl.append(">");
            Some(decl)
        }
    }

    /// `<'a, T, >` for the generic parameters that the field's type uses, if it uses any.
    pub fn generics_declaration(&self) -> (res: Option<String>)
        ensures
            res.deep_view() == generics_decl(self.lifetimes.deep_view(), self.generics.deep_view()),
    {
        if self.lifetimes.len() == 0 && self.generics.len() == 0 {
            None
        } else {
            let mut decl = String::from_str("<");
            decl.append(comma_list_text(&self.lifetimes).as_str());
            decl.append(comma_list_text(&self.generics).as_str());
            decl.append(">");
            Some(decl)
        }
    }
}

impl Source {
    /// Whether `source` is a struct whose fields all have names.
    pub open spec fn named_struct(self) -> bool {
        &&& self.data is Struct
        &&& forall|i: int| 0 <= i < self.data->Struct_0.len() ==> (#[trigger] self.data->Struct_0[i]).ident is Some
    }

    /// The struct's fields, each with the generic parameters that its type uses.
    pub fn struct_fields(&self) -> (res: Result<Vec<Field<'_>>, BuildError>)
        ensures
            match res {
                Ok(fields) => {
                    &&& self.named_struct()
                    &&& fields.len() == self.data->Struct_0.len()
                    &&& forall|i: int| 0 <= i < fields.len() ==> (#[trigger] fields[i]).reads(*self, self.data->Struct_0[i])
                },
                Err(error) => match self.data {
                    SourceData::Enum => error == BuildError::NotAStruct,
                    SourceData::Struct(attrs) => if !self.named_struct() {
                        error == BuildError::UnnamedField
                    } else {
                        &&& error == BuildError::FieldType
                        &&& exists|i: int| 0 <= i < attrs.len() && !field_readable(*self, #[trigger] attrs[i])
                    },
                },
            },
    {
        match &self.data {
            SourceData::Enum => Err(BuildError::NotAStruct),
            SourceData::Struct(attrs) => {
                let mut i: usize = 0;
                while i < attrs.len()
                    invariant
                        self.data == SourceData::Struct(*attrs),
                        i <= attrs.len(),
                        forall|j: int| 0 <= j < i ==> (#[trigger] attrs[j]).ident is Some,
                    decreases attrs.len() - i,
                {
                    if attrs[i].ident.is_none() {
                        return Err(BuildError::UnnamedField);
                    }
                    i = i + 1;
                }
                let mut fields: Vec<Field<'_>> = Vec::new();
                let mut i: usize = 0;
                while i < attrs.len()
                    invariant
                        self.data == SourceData::Struct(*attrs),
                        self.named_struct(),
                        i <= attrs.len(),
                        fields.len() == i,
                        forall|j: int| 0 <= j < i ==> (#[trigger] fields[j]).reads(*self, attrs[j]),
                    decreases attrs.len() - i,
                {
                    match Field::new(self, &attrs[i]) {
                        Ok(field) => fields.push(field),
                        Err(error) => {
                            assert(!field_readable(*self, attrs[i as int]));
                            return Err(error);
                        },
                    }
                    i = i + 1;
                }
                Ok(fields)
            },
        }
    }

    /// `{Struct}Builder`.
    pub fn base_ident(&self) -> (res: String)
        ensures
            res@ == base_ident(self.ident@),
    {
        let mut ident = self.ident.clone();
        ident.append("Builder");
        ident
    }
}

} // verus!
