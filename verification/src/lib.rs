//! Extraction of a QObject description from the syntax tree of a Rust module.
//!
//! The host hands the library a module in the shape of [`syntax::ItemMod`]; the
//! library checks it and describes the QObject it declares: its invokable methods,
//! its properties, and the items that the generated code keeps.
pub mod syntax;
pub mod casing;
pub mod text;
pub mod checks;
pub mod types;
pub mod errors;
pub mod naming;
pub mod invokables;
pub mod properties;
pub mod qobject;
pub mod my_object;
pub mod laws;

pub use qobject::{extract_qobject, QObject};
pub use types::QtTypes;
