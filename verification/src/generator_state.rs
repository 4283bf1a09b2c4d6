//! What the parts of the generator share: the names that the generated code uses, and which of
//! them the code generated so far needs.
use crate::token::Token;
use crate::token_stream::{ident_text, tokens_of};
use proc_macro2::{Ident, TokenStream};
use vstd::prelude::*;

verus! {

pub struct GeneratorState {
    /// The path of the core crate.
    pub deno_core: TokenStream,
    /// The names of the arguments.
    pub args: Vec<Ident>,
    /// The name of the op's result.
    pub result: Ident,
    /// The name of the handle scope or the isolate.
    pub scope: Ident,
    /// The name of the callback information that the generated function is called with.
    pub info: Ident,
    /// The name of the arguments that the caller passed.
    pub fn_args: Ident,
    /// The name of the op's context.
    pub opctx: Ident,
    /// The name of the op state.
    pub opstate: Ident,
    /// The name of the return value.
    pub retval: Ident,
    /// The name of the generated function.
    pub slow_function: Ident,
    pub needs_args: bool,
    pub needs_retval: bool,
    pub needs_scope: bool,
    pub needs_isolate: bool,
    pub needs_opstate: bool,
    pub needs_opctx: bool,
}

/// The names of a generator state, by their text.
pub struct Names {
    pub deno_core: Seq<Token>,
    pub args: Seq<Seq<char>>,
    pub result: Seq<char>,
    pub scope: Seq<char>,
    pub info: Seq<char>,
    pub fn_args: Seq<char>,
    pub opctx: Seq<char>,
    pub opstate: Seq<char>,
    pub retval: Seq<char>,
    pub slow_function: Seq<char>,
}

/// What the generated function has to declare at its start.
pub struct Needs {
    pub args: bool,
    pub retval: bool,
    pub scope: bool,
    pub isolate: bool,
    pub opstate: bool,
    pub opctx: bool,
}

impl Needs {
    /// Whatever is needed here is needed there too.
    pub open spec fn within(self, other: Needs) -> bool {
        &&& self.args ==> other.args
        &&& self.retval ==> other.retval
        &&& self.scope ==> other.scope
        &&& self.isolate ==> other.isolate
        &&& self.opstate ==> other.opstate
        &&& self.opctx ==> other.opctx
    }
}

impl GeneratorState {
    pub open spec fn names(self) -> Names {
        Names {
            deno_core: tokens_of(self.deno_core),
            args: self.args@.map_values(|ident: Ident| ident_text(ident)),
            result: ident_text(self.result),
            scope: ident_text(self.scope),
            info: ident_text(self.info),
            fn_args: ident_text(self.fn_args),
            opctx: ident_text(self.opctx),
            opstate: ident_text(self.opstate),
            retval: ident_text(self.retval),
            slow_function: ident_text(self.slow_function),
        }
    }

    pub open spec fn needs(self) -> Needs {
        Needs {
            args: self.needs_args,
            retval: self.needs_retval,
            scope: self.needs_scope,
            isolate: self.needs_isolate,
            opstate: self.needs_opstate,
            opctx: self.needs_opctx,
        }
    }

    /// The state has the names of the state `before`, and these needs.
    pub open spec fn follows(self, before: GeneratorState, needs: Needs) -> bool {
        &&& self.deno_core == before.deno_core
        &&& self.args == before.args
        &&& self.result == before.result
        &&& self.scope == before.scope
        &&& self.info == before.info
        &&& self.fn_args == before.fn_args
        &&& self.opctx == before.opctx
        &&& self.opstate == before.opstate
        &&& self.retval == before.retval
        &&& self.slow_function == before.slow_function
        &&& self.needs() == needs
    }
}

/// The names and the needs of a state are those of its fields. A state that follows another has its
/// names, and the given needs.
pub proof fn law_state(before: GeneratorState, after: GeneratorState, needs: Needs)
    ensures
        after.names().deno_core == tokens_of(after.deno_core),
        after.names().args.len() == after.args@.len(),
        forall|i: int|
            0 <= i < after.args@.len() ==> #[trigger] after.names().args[i] == ident_text(
                after.args@[i],
            ),
        after.names().result == ident_text(after.result),
        after.names().scope == ident_text(after.scope),
        after.names().info == ident_text(after.info),
        after.names().fn_args == ident_text(after.fn_args),
        after.names().opctx == ident_text(after.opctx),
        after.names().opstate == ident_text(after.opstate),
        after.names().retval == ident_text(after.retval),
        after.names().slow_function == ident_text(after.slow_function),
        after.needs().args == after.needs_args,
        after.needs().retval == after.needs_retval,
        after.needs().scope == after.needs_scope,
        after.needs().isolate == after.needs_isolate,
        after.needs().opstate == after.needs_opstate,
        after.needs().opctx == after.needs_opctx,
        after.follows(before, needs) ==> after.names() == before.names() && after.needs() == needs,
        after.follows(before, before.needs()) ==> after == before,
{
}

/// Needs are within others exactly where those have each of them; this is an order.
pub proof fn law_within(a: Needs, b: Needs, c: Needs)
    ensures
        a.within(b) && b.within(a) <==> a == b,
        a.within(b) && b.within(c) ==> a.within(c),
        a.within(b) && a.args ==> b.args,
        a.within(b) && a.retval ==> b.retval,
        a.within(b) && a.scope ==> b.scope,
        a.within(b) && a.isolate ==> b.isolate,
        a.within(b) && a.opstate ==> b.opstate,
        a.within(b) && a.opctx ==> b.opctx,
{
}

} // verus!
