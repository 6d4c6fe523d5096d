use buildit::{
    derive_imp, BuildError, DefaultValue, Field, FieldAttributes, FieldGetterTrait, FieldState,
    Generics, InitialState, Source, SourceData, StateTrait,
};

fn field(name: &str, ty: &str) -> FieldAttributes {
    FieldAttributes { ident: Some(name.to_string()), ty: ty.to_string(), default: None, skip: false }
}

fn plain_generics() -> Generics {
    Generics {
        impl_generics: String::new(),
        ty_generics: String::new(),
        where_clause: None,
        lifetimes: vec![],
        type_params: vec![],
        type_param_bounds: vec![],
    }
}

fn named_struct(name: &str, fields: Vec<FieldAttributes>) -> Source {
    Source { ident: name.to_string(), generics: plain_generics(), data: SourceData::Struct(fields) }
}

fn generic_source() -> Source {
    Source {
        ident: "Pair".to_string(),
        generics: Generics {
            impl_generics: "< 'a , 'b , T , U >".to_string(),
            ty_generics: "< 'a , 'b , T , U >".to_string(),
            where_clause: None,
            lifetimes: vec!["'a".to_string(), "'b".to_string()],
            type_params: vec!["T".to_string(), "U".to_string()],
            type_param_bounds: vec![String::new(), String::new()],
        },
        data: SourceData::Struct(vec![field("left", "& 'a T"), field("right", "Vec < U >")]),
    }
}

#[test]
fn one_field_builder_exact_code() {
    let source = named_struct("P", vec![field("x", "u8")]);
    let code = derive_imp(&source).unwrap();
    let expected: String = [
        "mod p_builder {\n    use super::*;\n    impl P  {\n",
        "        pub fn builder() -> PBuilder { PBuilder {} }\n    }\n",
        "pub trait PBuilderState {\n    fn build(mut self) -> P\n    where\n",
        "    Self: PBuilderGetX + Sized,\n    {\n        P {\n            x: self.get_x(),\n",
        "        }\n    }\n}\n",
        "#[derive(Debug)]\npub struct PBuilder;\n",
        "impl PBuilder {\n    pub fn new() -> Self {\n        PBuilder\n    }\n}\n",
        "impl PBuilderState for PBuilder {}\n",
        "pub struct PBuilderXSet<InnerBuilderState: PBuilderState> {\n",
        "    inner: InnerBuilderState,\n    x: Option<u8>,\n}\n",
        "impl<InnerBuilderState: PBuilderState> PBuilderState for PBuilderXSet<InnerBuilderState> {}\n",
        "pub trait PBuilderSetX: Sized + PBuilderState {\n    fn x(self, value: u8) -> PBuilderXSet<Self> {\n",
        "        PBuilderXSet {\n            inner: self,\n            x: Some(value),\n        }\n    }\n}\n",
        "impl<T: PBuilderState> PBuilderSetX for T {}\n",
        "#[diagnostic::on_unimplemented(\n",
        "    message = \"the builder `{Self}` has no value for the field `x` of `P`\",\n",
        "    label = \"`x` is not set\",\n",
        "    note = \"set it with `.x(..)` on the `PBuilder` before calling `build()`\"\n)]\n",
        "pub trait PBuilderGetX {\n    fn get_x(&mut self) -> u8;\n}\n",
        "impl<InnerBuilderState: PBuilderState> PBuilderGetX for PBuilderXSet<InnerBuilderState> {\n",
        "    fn get_x(&mut self) -> u8 {\n",
        "        self.x.take().expect(\"@TODO\")\n    }\n}\n",
        "}\n",
        "pub use p_builder::{PBuilder, *};\n",
    ]
    .join("");
    assert_eq!(code, expected);
    syn::parse_file(&code).unwrap();
}

#[test]
fn readme_config_builder() {
    let mut protocol = field("protocol", "Protocol");
    protocol.default = Some(DefaultValue::Trait);
    let source = named_struct(
        "Config",
        vec![field("port", "u16"), field("host", "& 'static str"), protocol],
    );
    let code = derive_imp(&source).unwrap();
    syn::parse_file(&code).unwrap();
    assert!(code.starts_with("mod config_builder {"));
    assert!(code.contains("pub fn builder() -> ConfigBuilder { ConfigBuilder {} }"));
    assert!(code.contains("pub struct ConfigBuilderPortSet<InnerBuilderState: ConfigBuilderState>"));
    assert!(code.contains("pub trait ConfigBuilderSetHost: Sized + ConfigBuilderState"));
    assert!(code.contains(
        "Self: ConfigBuilderGetPort + ConfigBuilderGetHost + ConfigBuilderGetProtocol + Sized,"
    ));
    assert!(code.contains(
        "impl ConfigBuilderGetProtocol for ConfigBuilder {\n    fn get_protocol(&mut self) -> Protocol {\n        ::core::default::Default::default()\n    }\n}\n"
    ));
    assert!(!code.contains("impl ConfigBuilderGetPort for ConfigBuilder"));
    assert!(code.ends_with("pub use config_builder::{ConfigBuilder, *};\n"));
}

#[test]
fn explicit_default_expression() {
    let mut retries = field("retries", "u32");
    retries.default = Some(DefaultValue::Expr("3".to_string()));
    let code = derive_imp(&named_struct("Client", vec![retries])).unwrap();
    assert!(code.contains(
        "impl ClientBuilderGetRetries for ClientBuilder {\n    fn get_retries(&mut self) -> u32 {\n        3\n    }\n}\n"
    ));
}

#[test]
fn state_answers_own_field_and_forwards_others() {
    let code = derive_imp(&named_struct("S", vec![field("a", "u8"), field("b", "bool")])).unwrap();
    assert!(code.contains(
        "impl<InnerBuilderState: SBuilderState> SBuilderGetA for SBuilderASet<InnerBuilderState> {\n    fn get_a(&mut self) -> u8 {\n        self.a.take()"
    ));
    assert!(code.contains(
        "impl<InnerBuilderState: SBuilderState + SBuilderGetB> SBuilderGetB for SBuilderASet<InnerBuilderState> {\n    fn get_b(&mut self) -> bool {\n        self.inner.get_b()\n"
    ));
    assert!(code.contains(
        "impl<InnerBuilderState: SBuilderState + SBuilderGetA> SBuilderGetA for SBuilderBSet<InnerBuilderState>"
    ));
    assert_eq!(code.matches("self.inner.get_").count(), 2);
    assert_eq!(code.matches(".take().expect(").count(), 2);
}

#[test]
fn generic_fields_carry_their_parameters() {
    let code = derive_imp(&generic_source()).unwrap();
    syn::parse_file(&code).unwrap();
    assert!(code.contains("pub struct PairBuilderLeftSet<'a, T, InnerBuilderState: PairBuilderState>"));
    assert!(code.contains("pub struct PairBuilderRightSet<U, InnerBuilderState: PairBuilderState>"));
    assert!(code.contains("pub trait PairBuilderGetLeft<'a, T, > {"));
    assert!(code.contains("fn build< 'a , 'b , T , U >(mut self) -> Pair< 'a , 'b , T , U >"));
    assert!(code.contains("Self: PairBuilderGetLeft<'a, T, > + PairBuilderGetRight<U, > + Sized,"));
    assert!(code.contains(
        "impl<'a, T, U, InnerBuilderState: PairBuilderState + PairBuilderGetRight<U, >> PairBuilderGetRight<U, > for PairBuilderLeftSet<'a, T, InnerBuilderState>"
    ));
}

#[test]
fn where_clause_is_kept() {
    let mut source = generic_source();
    source.generics.where_clause = Some("where T : Clone".to_string());
    let code = derive_imp(&source).unwrap();
    syn::parse_file(&code).unwrap();
    assert!(code.contains("impl< 'a , 'b , T , U > Pair< 'a , 'b , T , U > where T : Clone {"));
    assert!(code.contains("\n    where T : Clone,\n    Self: "));
    source.generics.where_clause = Some("where T : Clone ,".to_string());
    let code = derive_imp(&source).unwrap();
    assert!(code.contains("\n    where T : Clone ,\n    Self: "));
}

#[test]
fn skipped_field_has_no_setter() {
    let mut id = field("id", "u64");
    id.skip = true;
    let code = derive_imp(&named_struct("Row", vec![id, field("name", "String")])).unwrap();
    assert!(!code.contains("pub trait RowBuilderSetId"));
    assert!(code.contains("pub trait RowBuilderSetName"));
    assert!(!code.contains("impl RowBuilderGetId for RowBuilder"));
    let mut id = field("id", "u64");
    id.skip = true;
    id.default = Some(DefaultValue::Expr("7".to_string()));
    let code = derive_imp(&named_struct("Row", vec![id])).unwrap();
    assert!(!code.contains("pub trait RowBuilderSetId"));
    assert!(code.contains("impl RowBuilderGetId for RowBuilder {\n    fn get_id(&mut self) -> u64 {\n        7\n"));
}

#[test]
fn enum_is_refused() {
    let source = Source { ident: "E".to_string(), generics: plain_generics(), data: SourceData::Enum };
    assert_eq!(derive_imp(&source), Err(BuildError::NotAStruct));
    assert_eq!(BuildError::NotAStruct.message(), "buildit supports only structs");
}

#[test]
fn unnamed_field_is_refused() {
    let mut unnamed = field("x", "u8");
    unnamed.ident = None;
    let source = named_struct("T", vec![field("a", "u8"), unnamed]);
    assert_eq!(derive_imp(&source), Err(BuildError::UnnamedField));
    assert_eq!(
        BuildError::UnnamedField.message(),
        "buildit supports only structs with named fields"
    );
}

#[test]
fn unreadable_type_is_refused() {
    let source = named_struct("T", vec![field("a", "u8"), field("b", "&&& (")]);
    assert_eq!(derive_imp(&source), Err(BuildError::FieldType));
    assert_eq!(BuildError::FieldType.message(), "buildit could not read the type of a field");
}

#[test]
fn field_reads_used_parameters() {
    let source = generic_source();
    let attributes = field("pair", "(& 'b U , u8)");
    let read = Field::new(&source, &attributes).unwrap();
    assert_eq!(read.lifetimes, vec!["'b".to_string()]);
    assert_eq!(read.generics, vec!["U".to_string()]);
    assert_eq!(read.generics_declaration(), Some("<'b, U, >".to_string()));
    let plain = field("n", "u8");
    let read = Field::new(&source, &plain).unwrap();
    assert!(read.lifetimes.is_empty() && read.generics.is_empty());
    assert_eq!(read.generics_declaration(), None);
}

#[test]
fn names_are_cased() {
    let source = named_struct("MyStruct", vec![field("my_field", "u8")]);
    let fields = source.struct_fields().unwrap();
    let getter = FieldGetterTrait::new(&source, &fields[0]);
    assert_eq!(getter.ident, "MyStructBuilderGetMyField");
    assert_eq!(getter.fn_ident, "get_my_field");
    let state_trait = StateTrait::new(&source, vec![&getter]);
    assert_eq!(state_trait.ident, "MyStructBuilderState");
    let state = FieldState::new(&source, &fields[0], &state_trait);
    assert_eq!(state.ident, "MyStructBuilderMyFieldSet");
    assert_eq!(InitialState::new(&source).ident, "MyStructBuilder");
    let code = derive_imp(&source).unwrap();
    assert!(code.starts_with("mod my_struct_builder {"));
}

#[test]
fn union_keeps_first_then_new_names() {
    let first = vec!["'a".to_string(), "T".to_string()];
    let second = vec!["U".to_string(), "'a".to_string(), "V".to_string()];
    assert_eq!(buildit::union(&first, &second), vec!["'a", "T", "U", "V"]);
    assert_eq!(buildit::union(&second, &second), second);
}

#[test]
fn getter_fns_of_distinct_fields_differ() {
    let code = derive_imp(&named_struct("Q", vec![field("a", "u8"), field("ab", "u8")])).unwrap();
    assert!(code.contains("fn get_a(&mut self)"));
    assert!(code.contains("fn get_ab(&mut self)"));
}

#[test]
fn module_is_named_in_snake_case() {
    let source = named_struct("HttpConfig", vec![]);
    assert_eq!(buildit::module_name(&source), "http_config_builder");
}

#[test]
fn write_builder_uses_given_module() {
    let source = named_struct("P", vec![field("x", "u8")]);
    let fields = source.struct_fields().unwrap();
    assert_eq!(fields[0].pascal, "X");
    let code = buildit::write_builder(&source, &fields, "custom".to_string());
    assert!(code.starts_with("mod custom {"));
    assert!(code.ends_with("pub use custom::{PBuilder, *};\n"));
    assert_eq!(
        code.replace("custom", "p_builder"),
        derive_imp(&source).unwrap()
    );
}

#[test]
fn empty_builder_has_new() {
    let code = derive_imp(&named_struct("Config", vec![field("port", "u16")])).unwrap();
    assert!(code.contains("impl ConfigBuilder {\n    pub fn new() -> Self {\n        ConfigBuilder\n    }\n}\n"));
}

#[test]
fn states_do_not_derive_debug() {
    let code = derive_imp(&named_struct("Config", vec![field("protocol", "Protocol")])).unwrap();
    assert_eq!(code.matches("#[derive(Debug)]").count(), 1);
    assert!(code.contains("#[derive(Debug)]\npub struct ConfigBuilder;"));
}

#[test]
fn getter_error_names_field_and_builder() {
    let code = derive_imp(&named_struct("Config", vec![field("port", "u16")])).unwrap();
    assert!(code.contains("message = \"the builder `{Self}` has no value for the field `port` of `Config`\""));
    assert!(code.contains("note = \"set it with `.port(..)` on the `ConfigBuilder` before calling `build()`\""));
}

#[test]
fn types_darling_cannot_search_are_refused() {
    let source = generic_source();
    for ty in [
        "impl Sized + use < 'a >",
        "impl Sized + use<'a>",
        "Box < dyn [const] Clone >",
        "Box < dyn const Clone >",
        "impl Iterator < Item : const Clone >",
        "u8 /* c */",
        "u8 // c",
    ] {
        let attributes = field("x", ty);
        assert_eq!(Field::new(&source, &attributes).err(), Some(BuildError::FieldType), "{}", ty);
    }
    for ty in [
        "* const T",
        "*const u8",
        "UserConstant < T >",
        "Reuse",
        "[u8 ; 4 / 2]",
        "[u64 ; CAP / 64]",
        "[u8 ; N/2]",
        "r#use",
        "Vec < r#const >",
        "[u8 ; { const N : usize = 3 ; N }]",
    ] {
        let attributes = field("x", ty);
        assert!(Field::new(&source, &attributes).is_ok(), "{}", ty);
    }
}

#[test]
fn array_length_expressions_get_a_builder() {
    let code = derive_imp(&named_struct("Buf", vec![field("bits", "[u64 ; CAP / 64]")])).unwrap();
    syn::parse_file(&code).unwrap();
    assert!(code.contains("bits: Option<[u64 ; CAP / 64]>,"));
}

#[test]
fn unicode_and_raw_parameter_names_are_read() {
    let mut source = generic_source();
    source.generics.lifetimes = vec!["'é".to_string()];
    source.generics.type_params = vec!["Ü".to_string(), "r#T".to_string()];
    source.generics.type_param_bounds = vec![String::new(), String::new()];
    let attributes = field("x", "(& 'é Ü , r#T)");
    let read = Field::new(&source, &attributes).unwrap();
    assert_eq!(read.lifetimes, vec!["'é".to_string()]);
    assert_eq!(read.generics, vec!["Ü".to_string(), "r#T".to_string()]);
}

#[test]
fn used_parameters_come_in_declaration_order() {
    let source = generic_source();
    let attributes = field("x", "(& 'b U , & 'a T , & 'b U)");
    let read = Field::new(&source, &attributes).unwrap();
    assert_eq!(read.lifetimes, vec!["'a".to_string(), "'b".to_string()]);
    assert_eq!(read.generics, vec!["T".to_string(), "U".to_string()]);
}

fn bounded_source(bounds: Vec<&str>, fields: Vec<FieldAttributes>) -> Source {
    Source {
        ident: "S".to_string(),
        generics: Generics {
            impl_generics: "< T : Iterator , U >".to_string(),
            ty_generics: "< T , U >".to_string(),
            where_clause: None,
            lifetimes: vec![],
            type_params: vec!["T".to_string(), "U".to_string()],
            type_param_bounds: bounds.into_iter().map(|b| b.to_string()).collect(),
        },
        data: SourceData::Struct(fields),
    }
}

#[test]
fn items_repeat_the_bounds_of_their_parameters() {
    let source = bounded_source(vec!["Iterator", ""], vec![field("x", "T :: Item"), field("y", "U")]);
    let code = derive_imp(&source).unwrap();
    syn::parse_file(&code).unwrap();
    assert!(code.contains("pub struct SBuilderXSet<T: Iterator, InnerBuilderState: SBuilderState>"));
    assert!(code.contains("impl<T: Iterator, InnerBuilderState: SBuilderState> SBuilderState for SBuilderXSet<T, InnerBuilderState> {}"));
    assert!(code.contains("fn x<T: Iterator, >(self, value: T :: Item) -> SBuilderXSet<T, Self>"));
    assert!(code.contains("pub trait SBuilderGetX<T: Iterator, > {"));
    assert!(code.contains("impl<T: Iterator, U, InnerBuilderState: SBuilderState + SBuilderGetY<U, >> SBuilderGetY<U, > for SBuilderXSet<T, InnerBuilderState>"));
    assert!(code.contains("Self: SBuilderGetX<T, > + SBuilderGetY<U, > + Sized,"));
}

#[test]
fn bounds_naming_other_parameters_are_left_out() {
    let source = bounded_source(vec!["Into < U >", ""], vec![field("x", "T"), field("y", "U")]);
    let code = derive_imp(&source).unwrap();
    assert!(code.contains("pub struct SBuilderXSet<T, InnerBuilderState: SBuilderState>"));
    assert!(code.contains("impl<T: Into < U >, U, InnerBuilderState: SBuilderState + SBuilderGetY<U, >> SBuilderGetY<U, > for SBuilderXSet<T, InnerBuilderState>"));
}
