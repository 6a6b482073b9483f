//! Lowering pieces of the Rask compiler's middle end, verified with Verus.
//!
//! The crate models the MIR the lowering pass emits (`mir`), the block
//! builder it emits into (`builder`), the checker's view of types
//! (`types`) and the lowering state that the pieces below consult
//! (`lowerer`), and the parsed expressions it reads (`ast`), which
//! `expr_lowering` lowers for literals, names, `&&`, `||`, ranges,
//! `if`, `&`, `!`, binary operators, slices and `todo`. The lowering
//! functions themselves live in `expr`, `ordering`, `values`, `bindings`,
//! `reflect`, `debug_fmt`, the method lowerings `int_methods`,
//! `string_methods`, `receivers`, `pointers`, `try_push` and
//! `method_names` (the runtime function an ordinary method call names),
//! `control` (`if`, `&&`, `||`), `element_closures` (`read` and `modify`
//! on a Vec element), and `json_decode`, `json_lowering` and
//! `json_defaults` for `json.decode`;
//! for iterator chains, in `iterators` (the fused loop, its adapters and
//! the counting, summing, extreme and collecting terminals), `search`
//! (`any`, `all`, `find`, `position`), `folding` (`fold`, `reduce`,
//! `flat_map`) and `sorting` (`sort_by_key`), with `terminals` picking
//! the loop for a terminal method. `debug_text` writes a type's debug text
//! for error messages. `runtime` models running emitted MIR, and states
//! what running `try_push`'s code, and an element access's range check and
//! its end, do. `meanings` ties what is emitted or picked to the meaning of
//! the source construct: operators, `min`/`max`, parse variants, checked
//! and overflowing arithmetic, and the integer types' bounds.
//! Each has a contract that pins down the exact statements, blocks and
//! locals it adds. `closure_params` reads a closure's expected parameter
//! types off a function type, `text` holds the string helpers, and `laws`
//! the properties that span several functions.

pub mod text;
pub mod mir;
pub mod builder;
pub mod types;
pub mod lowerer;
pub mod ast;
pub mod expr_lowering;
pub mod expr;
pub mod ordering;
pub mod values;
pub mod iterators;
pub mod search;
pub mod sorting;
pub mod terminals;
pub mod folding;
pub mod closure_params;
pub mod int_methods;
pub mod string_methods;
pub mod receivers;
pub mod pointers;
pub mod control;
pub mod element_closures;
pub mod json_decode;
pub mod json_defaults;
pub mod json_lowering;
pub mod try_push;
pub mod method_names;
pub mod runtime;
pub mod meanings;
pub mod bindings;
pub mod reflect;
pub mod laws;
pub mod debug_fmt;
pub mod debug_text;
