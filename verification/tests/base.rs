use buildit::{derive_imp, FieldAttributes, Generics, Source, SourceData};

// struct A<'a, T> where T: Sized + 'a, { #[builder(skip)] pub u: &'a T }
#[test]
fn base_builder() {
    let source = Source {
        ident: "A".to_string(),
        generics: Generics {
            impl_generics: "< 'a , T >".to_string(),
            ty_generics: "< 'a , T >".to_string(),
            where_clause: Some("where T : Sized + 'a ,".to_string()),
            lifetimes: vec!["'a".to_string()],
            type_params: vec!["T".to_string()],
            type_param_bounds: vec![String::new()],
        },
        data: SourceData::Struct(vec![FieldAttributes {
            ident: Some("u".to_string()),
            ty: "& 'a T".to_string(),
            default: None,
            skip: true,
        }]),
    };
    let code = derive_imp(&source).expect("a builder is written for a named struct");
    syn::parse_file(&code).expect("the builder's code is Rust");
}
