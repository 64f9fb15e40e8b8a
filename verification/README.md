# wasmedge_sdk host functions

Host functions for the WasmEdge runtime and their types, verified with Verus.

- `src/types.rs`: `ValType`, and `FuncType` with its model `FuncTypeView`
  (the optional argument list and the optional result list).
- `src/function.rs`: `FuncTypeBuilder`, the host function record `Func<H>` and
  the reference `FuncRef<R>`, generic over the engine's handle types, and the
  laws of the builder.
- `app/lib.rs`: the engine side, which makes and runs the handles through
  `wasmedge-sys` (it needs the WasmEdge C library to build).
- `tests/function.rs`: the tests.
