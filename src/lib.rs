//! Post-construction helpers of an expression parser: trimming the quotes off a
//! string literal's span, propagating an expression's role (load, store, delete)
//! through assignment targets, restamping spans, and deciding which expressions
//! may stand on the left of an assignment.
pub mod text_range;
pub mod expr;
pub mod role;
pub mod target;
