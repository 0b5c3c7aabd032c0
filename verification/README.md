# struct_extractors

Code generation driven by field annotations, with machine-checked contracts.

The library expands five attribute families on a model of the annotated item:

- `accessors`: `#[access(get | get_ref | get_mut | get = "name")]` field markers
  become accessor methods;
- `comparators`: `#[extract_compare(name)]` becomes an associated function that
  orders values by that field;
- `hashers`: `#[extract_hash]` becomes a wrapper type whose equality and hash are
  those of that field;
- `number`: `#[extract_number(field)]` derives arithmetic, assignment,
  comparison, `Sum`/`Product` and `num_traits::Zero`/`One` from one field;
- `entries`: `#[base_entries]` / `#[same_entries(E1, ...)]` check at compile
  time that an enum's variants exist in base enums.

Each expansion returns the item as it is re-emitted (helper attributes removed)
and the generated source text; the contracts state both exactly, over spec
functions in the same modules. `syntax` and `tokens` hold the models,
`render` the source text of an item, `text` the string utilities.

`parse` reads the text of an item (or of `#[extract_number]`'s arguments) into
the model through `syn`; how syn reads a text depends on whether it runs inside
the compiler, so nothing is stated of what is read. `expand` chains reading and
expanding: a parse error, or what the expansion makes of the item read.

`app/` holds the attribute-macro entry points: they hand the library the text
of the compiler's tokens, and parse its output back into tokens.
