//! A verified SQL scalar-expression lowering and type-inference engine.
//!
//! The library compiles parsed SQL scalar expressions (an abstract syntax
//! tree) into a typed intermediate representation consumed by a streaming
//! dataflow engine. It reproduces the divergent type-coercion rules of two
//! database engines (MySQL and PostgreSQL), desugars syntactic sugar
//! (IN-lists, unary operators, ANY/ALL, array literals) into primitive
//! nodes, and infers concrete types bottom-up while inserting explicit
//! casts.
//!
//! Every public lowering function is specified against a mathematical model
//! of the same computation (`lower_spec` and friends), so lowering is proved
//! deterministic: equal inputs always produce identical output trees.

pub mod adapter;
pub mod ast;
pub mod builtins;
pub mod dialect;
pub mod error;
pub mod expr;
pub mod laws;
pub mod lower;
pub mod operators;
pub mod oplog;
pub mod strutil;
pub mod types;
pub mod typing;
pub mod unify;
pub mod values;
