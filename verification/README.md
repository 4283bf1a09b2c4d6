# deno_ops

Generates the function through which V8 calls an op when no fast call is possible: it takes the
values that the caller passed, turns them into the arguments of the op, calls the op, and hands the
result over or throws an exception.

The code is generated as a `proc_macro2::TokenStream`. Every function states which tokens it
generates and what it changes in the state of the generator, and Verus proves it.

- `token`: the model of generated code, and the notation for it
- `token_stream`: the calls into `proc_macro2`, `quote` and `syn`, and the builder over them
- `signature`, `config`, `generator_state`: what the generator works on
- `dispatch_shared`: the conversion of V8 values
- `dispatch_slow::prologue`, `throw`, `args`, `results`: the parts of the function
- `dispatch_slow::generate`: the function as a whole
- `dispatch_slow::laws`: what holds of the generated code as a whole
- `dispatch_slow::scoping`: that each name is declared before it is used
