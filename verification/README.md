# buildit

A verified planner and writer for type-state builders of structs with named fields.

For a struct `Config { port: u16, host: &'static str, #[builder(default)] protocol: Protocol }`
the library writes a module `config_builder` with the empty builder `ConfigBuilder` (made by
`Config::builder()` or `ConfigBuilder::new()`), one state per field (`ConfigBuilderPortSet`, ...),
one setter trait and one getter trait per field, the getter impls of every state, and the state
trait `ConfigBuilderState` whose `build` method can only be called once every field was set or
has a default. A getter trait's error names the field that was not set and the builder.

- `src/` is the library, verified with Verus. `derive_imp` states exactly which code it writes
  (`builder_code`); `write_builder` states it for fields already read.
- `src/laws.rs` proves what the generated builder guarantees. The laws on values are proved on a
  model of how the generated impls hand a field's value out (`value_origin`: a state answers from
  its own field when its impl says so, and otherwise asks the state it wraps; the empty builder
  answers with a default). The model is tied to the written code through the same plan
  (`holds_own`, `effective_default`) that the written impls are made from; no law is proved of
  the Rust compiler's reading of the text. Proved there: the last value set for a field wins,
  `build` needs every field without a default, a skipped field has no setter, an impl's generic
  parameters cover those of the state and the getter, and a field's parameters come once each in
  declaration order.
- `app/` is the derive itself: it reads the input with syn and darling, hands the library plain
  values, and parses the written code into tokens.

Field options: `#[builder(default)]` takes the field's `Default` value when it was not set,
`#[builder(default = "expr")]` takes the given expression, and `#[builder(skip)]` gives the
field no setter, so that `build` is available only if the field has a default.

Field types: any type that syn parses is read, except one in which a bound with precise
capturing (`use<..>`) or a `const` modifier may stand, or one written with a comment; darling
cannot search such bounds. Those fields give `BuildError::FieldType`.

Generic parameters: each generated item declares the lifetimes and type parameters that its
field's type uses (in declaration order), and repeats a type parameter's bounds where they name
no parameter outside the item. Bounds in a `where` clause are kept on `build` only.
