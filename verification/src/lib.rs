//! The core of a compiler for single-file components: a template and one
//! or two scripts go in, one module comes out.
//!
//! - [`structs`] and [`transform`]: the scopes of the template and the
//!   bindings of the scripts, and the rewriting of template expressions so
//!   that every identifier reads its binding.
//! - [`elements`] and [`conditional_seq`]: the expressions that build
//!   elements, and the folding of `if` / `else-if` / `else` siblings into
//!   nested conditionals.
//! - [`script`] and [`analyzer`]: the merging of the two scripts into one
//!   module and one definition object, and the record of what the
//!   options-style script declares; [`declarations`]: the bindings that
//!   the items of a script introduce.
//! - [`sfc`]: the assembly of the final module.
//! - [`ast`], [`module`] and [`nodes`]: the trees that all of this works
//!   on; [`parse`], [`lower`] and [`raw`]: the way to and from `swc`, which
//!   reads and writes the text.
//! - [`writable`] and [`sound`]: which trees the emitter can write, and
//!   that rewriting, compiling and assembling keep them so.

pub mod analyzer;
pub mod ast;
pub mod conditional_seq;
pub mod context;
pub mod declarations;
pub mod elements;
pub mod lower;
pub mod module;
pub mod nodes;
pub mod parse;
pub mod raw;
pub mod script;
pub mod sfc;
pub mod sound;
pub mod structs;
pub mod transform;
pub mod writable;
