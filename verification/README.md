# cxx_qt_gen

Extraction of a QObject description from a Rust module, verified with Verus.

- `src/syntax.rs`: the part of a Rust syntax tree that the extraction reads,
  each node with a span that numbers it.
- `src/types.rs`: reading the Qt type of a Rust type (`i32`, `String`, `&str`,
  `crate::` paths, `Pin<&mut T>`).
- `src/invokables.rs`, `src/properties.rs`: methods and fields as invokables and
  properties, with their C++ and Rust names.
- `src/qobject.rs`: the whole module: one struct, its impl blocks, use declarations.
- `src/laws.rs`: properties of the extraction proved over the contracts.
- `src/casing.rs`: case conversion by the `convert_case` crate (trusted), and
  the names on which it does not panic.
- `src/my_object.rs`: the Rust side of a generated `MyObject`.
- `app/`: conversion between `syn` trees and the model, and compile errors as
  token streams.
