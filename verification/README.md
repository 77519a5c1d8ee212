# placing

A prototype notation for referentially stable constructors: `#[placing]` on a
struct makes it a place (`inner: MaybeUninit<Inner..>`, with a `const EMPLACE:
bool` flag among its generics); `#[placing]` on its impl block splits every
constructor marked `#[placing]` into `<name>_uninit`, which makes the place, and
`<name>_init`, which writes the fields into it.

- `src/` — the expansion, verified with Verus. `model` holds the annotated item
  as plain values; `inherent` (impl blocks), `strukt` (structs), `constructor`,
  `generics`, `attrs` and `fn_kind` compute the expansion; `render` and `text`
  write it out; `laws` states what holds of the expansion as a whole.
- `app/` — the attribute over token streams: parses the item with `syn`, hands
  the model to the library, and turns its answer back into tokens. It is an
  ordinary library over `proc_macro2` streams: a `proc-macro` crate is needed
  to forward `#[proc_macro_attribute] fn placing` to `app::placing`, and none
  is part of this project.
- `tests/` — expansions of concrete items, and the parts on their own.

Constructors returning `Self` become `<name>_uninit` / `<name>_init`; those
returning `Box<Self>` become `placing_uninit_<name>` / `placing_init_<name>`.
A `#[placing]` field's type receives the flag (`cat: Cat<EMPLACE>`), so a method
of the same impl that returns such a field has to name the flag too
(`fn cat(&self) -> &Cat<EMPLACE>`): the expansion passes methods through as
written and cannot see which types elsewhere are `#[placing]` types.
