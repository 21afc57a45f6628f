# lean_rs

The verified core of a Rust host for Lean 4: converting values, naming and
inspecting Lake-built libraries, loading capabilities, running sessions over an
imported environment, taking calls back from Lean, and reporting errors.

The library in `src/` is checked by Verus. It decides and computes; it does not
reach out. Lean objects are plain values (`runtime::obj::Obj`); one that only Lean
code looks into is held by a reference that stands for it. A foreign call is a
request with marshalled arguments (`module::exported::ForeignCall`), and its reply
is handed back to be decoded. What the file system, the dynamic loader, the
environment, a thread or a panic came to enters as the outcome of a step taken
elsewhere.

- `abi`: encodings of Rust values as Lean objects, with the law that decoding
  undoes encoding (`abi::traits::LeanRoundTrip`).
- `callback`: the registry of callbacks and the decisions of the trampolines.
- `error`: the error boundary with messages of bounded size, `IO` results, and the
  capture of diagnostic events in a bounded buffer.
- `handle`: opaque handles for names, levels, expressions and declarations.
- `host`: Lake projects, capabilities, sessions, elaboration, meta services and
  evidence.
- `module`: initializer names, object-file inspection, preflight reports, bundles,
  and the typed lookup of exports.
- `runtime`: Lean objects, process-once initialization, attachment of threads.

`app/` is ordinary Rust around the library: reading files, opening libraries,
catching panics, subscribing to tracing events, and driving sessions. It needs a
binding to Lean's C interface, which the embedding program provides
(`app/foreign.rs`).

Object files are read with the `object` crate. What is claimed of it, and of the
few functions of the standard library that are used besides, stands in the doc
comments of the functions that make those calls.
