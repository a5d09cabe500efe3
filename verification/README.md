# dobbyhook

A small hooking library on top of the Dobby inline-hook engine.

- `src/` is the verified core: `Handle` (a never-null address of a function
  pointer), the preparation of the engine's C-string arguments, and the
  interpretation of every status the engine reports (`HookError`), with the
  laws that relate them in `src/laws.rs`.
- `app/` is the unverified edge: the `extern "C"` entry points of the engine,
  raw-pointer conversions, `dispatch`, and the error type with its
  `std::error::Error` impl.
