//! A single-pass extractor over a flat stream of parse events from an
//! interface-registry document.  It rebuilds every struct-category element
//! as a strongly typed record — name, qualifiers, members with their types,
//! pointer and const markers, array dimensions and documentation — using a
//! depth counter in place of a parse tree, and fails fast on anything the
//! schema does not recognize.

pub mod attrs;
pub mod document;
pub mod events;
pub mod laws;
pub mod machine;
pub mod model;
pub mod normalize;
pub mod source;
pub mod stray;
pub mod text;
