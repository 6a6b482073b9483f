# lib: verified MIR lowering pieces

Pieces of the Rask compiler's lowering pass (typed expressions to MIR),
written in Verus. Each lowering function emits MIR statements, temps and
blocks into a `MirBuilder`, and its contract states exactly what it adds:
which temps of which types, which statements in which blocks, which
terminators, and where the builder is left standing.

Layout of `src/`:

- `mir`, `builder`, `types`, `lowerer`: the MIR model, the block builder
  (with `recorded`, the relation most contracts are stated over), the
  checker's types, and the lowering state.
- `try_push`: `try_push` on a bounded Vec, with the `Full` error.
- `method_names`: the runtime function an ordinary method call names, and
  `lower_regular_method_call`, which calls it.
- `runtime`: a model of running emitted MIR (locals, stored words, Vecs
  and the meanings of the runtime calls it covers), with what running
  `try_push`'s code, and the range check and the end of `read`/`modify`
  on a Vec element, do.
- `ast`, `expr_lowering`: the parsed expressions, and `lower_expr` for
  literals, names, `&&`, `||`, ranges, `if`, `&`, `!`, binary operators, slices by
  a range and `todo`/`unreachable`.
- `expr`, `ordering`, `values`, `bindings`, `reflect`: expression-level
  pieces (integer `mod`, hashing, trait boxes, tuple fields, bindings).
- `int_methods`, `string_methods`, `receivers`, `pointers`: methods that
  lower to a few operators or one runtime call.
- `control`, `element_closures`: `if`, `&&`, `||`, and `read`/`modify` on a
  Vec element, lowered in steps around their operands and closure bodies.
- `iterators`, `search`, `folding`, `sorting`, `terminals`: fused loops for
  iterator chains, their terminals, and the dispatch to them.
- `debug_fmt`: derived `Debug`, described by a sketch of what it adds.
- `debug_text`: the debug text of a type, as error messages show it.
- `json_decode`, `json_lowering`, `json_defaults`: `json.decode<T>`.
- `closure_params`, `text`: string parsing helpers.
- `laws`: properties that span several functions.

Closures reach the library lifted into named functions, which the emitted
code calls; arguments reach it already lowered, as operands.

`tests/` holds the tests, run against the compiled library.
