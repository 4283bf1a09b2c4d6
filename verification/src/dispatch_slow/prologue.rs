//! The declarations at the start of the generated function.
use crate::generator_state::{GeneratorState, Names, Needs};
use crate::token::{no_tokens, Token, TokenSeq};
use crate::token_stream::{tokens_of, Quote};
use crate::words::lemma_words;
use proc_macro2::TokenStream;
use vstd::prelude::*;

verus! {

/// `let mut #scope = unsafe { &mut *#opctx.isolate };`
pub open spec fn isolate_tokens(n: Names) -> Seq<Token> {
    no_tokens().bind_mut(n.scope).word("unsafe").braces(
        no_tokens().op('&').word("mut").op('*').name(n.opctx).dot("isolate"),
    ).op(';')
}

/// `let mut #scope = unsafe { #deno_core::v8::CallbackScope::new(&*#info) };`
pub open spec fn scope_tokens(n: Names) -> Seq<Token> {
    no_tokens().bind_mut(n.scope).word("unsafe").braces(
        no_tokens().tokens(n.deno_core).seg("v8").seg("CallbackScope").seg("new").parens(
            no_tokens().op('&').op('*').name(n.info),
        ),
    ).op(';')
}

/// `let mut #retval =
///     #deno_core::v8::ReturnValue::from_function_callback_info(unsafe { &*#info });`
pub open spec fn retval_tokens(n: Names) -> Seq<Token> {
    no_tokens().bind_mut(n.retval).tokens(n.deno_core).seg("v8").seg("ReturnValue").seg(
        "from_function_callback_info",
    ).parens(
        no_tokens().word("unsafe").braces(no_tokens().op('&').op('*').name(n.info)),
    ).op(';')
}

/// `let #fn_args = #deno_core::v8::FunctionCallbackArguments::from_function_callback_info(
///     unsafe { &*#info });`
pub open spec fn fn_args_tokens(n: Names) -> Seq<Token> {
    no_tokens().bind(n.fn_args).tokens(n.deno_core).seg("v8").seg("FunctionCallbackArguments").seg(
        "from_function_callback_info",
    ).parens(
        no_tokens().word("unsafe").braces(no_tokens().op('&').op('*').name(n.info)),
    ).op(';')
}

/// `let #opctx = unsafe {
///     &*(#deno_core::v8::Local::<#deno_core::v8::External>::cast(#fn_args.data()).value()
///         as *const #deno_core::_ops::OpCtx)
/// };`
pub open spec fn opctx_tokens(n: Names) -> Seq<Token> {
    no_tokens().bind(n.opctx).word("unsafe").braces(
        no_tokens().op('&').op('*').parens(
            no_tokens().tokens(n.deno_core).seg("v8").seg("Local").op2(':', ':').op('<').tokens(
                n.deno_core,
            ).seg("v8").seg("External").op('>').seg("cast").parens(
                no_tokens().name(n.fn_args).dot("data").parens(no_tokens()),
            ).dot("value").parens(no_tokens()).word("as").op('*').word("const").tokens(
                n.deno_core,
            ).seg("_ops").seg("OpCtx"),
        ),
    ).op(';')
}

/// `let #opstate = &#opctx.state;`
pub open spec fn opstate_tokens(n: Names) -> Seq<Token> {
    no_tokens().bind(n.opstate).op('&').name(n.opctx).dot("state").op(';')
}

/// Declares the isolate, under the name of the scope. The context has to be declared before.
pub fn with_isolate(generator_state: &mut GeneratorState) -> (stream: TokenStream)
    ensures
        final(generator_state).follows(
            *old(generator_state),
            Needs { opctx: true, ..old(generator_state).needs() },
        ),
        tokens_of(stream) == isolate_tokens(old(generator_state).names()),
{
    proof {
        lemma_words();
    }
    generator_state.needs_opctx = true;
    Quote::new().bind_mut(&generator_state.scope).word("unsafe").braces(
        Quote::new().op('&').word("mut").op('*').name(&generator_state.opctx).dot("isolate"),
    ).op(';').done()
}

/// Declares the scope.
pub fn with_scope(generator_state: &mut GeneratorState) -> (stream: TokenStream)
    ensures
        *final(generator_state) == *old(generator_state),
        tokens_of(stream) == scope_tokens(old(generator_state).names()),
{
    proof {
        lemma_words();
    }
    Quote::new().bind_mut(&generator_state.scope).word("unsafe").braces(
        Quote::new().tokens(&generator_state.deno_core).seg("v8").seg("CallbackScope").seg(
            "new",
        ).parens(Quote::new().op('&').op('*').name(&generator_state.info)),
    ).op(';').done()
}

/// Declares the return value.
pub fn with_retval(generator_state: &mut GeneratorState) -> (stream: TokenStream)
    ensures
        *final(generator_state) == *old(generator_state),
        tokens_of(stream) == retval_tokens(old(generator_state).names()),
{
    proof {
        lemma_words();
    }
    Quote::new().bind_mut(&generator_state.retval).tokens(&generator_state.deno_core).seg("v8").seg(
        "ReturnValue",
    ).seg("from_function_callback_info").parens(
        Quote::new().word("unsafe").braces(
            Quote::new().op('&').op('*').name(&generator_state.info),
        ),
    ).op(';').done()
}

/// Declares the arguments that the caller passed.
pub fn with_fn_args(generator_state: &mut GeneratorState) -> (stream: TokenStream)
    ensures
        *final(generator_state) == *old(generator_state),
        tokens_of(stream) == fn_args_tokens(old(generator_state).names()),
{
    proof {
        lemma_words();
    }
    Quote::new().bind(&generator_state.fn_args).tokens(&generator_state.deno_core).seg("v8").seg(
        "FunctionCallbackArguments",
    ).seg("from_function_callback_info").parens(
        Quote::new().word("unsafe").braces(
            Quote::new().op('&').op('*').name(&generator_state.info),
        ),
    ).op(';').done()
}

/// Declares the context of the op. The arguments have to be declared before.
pub fn with_opctx(generator_state: &mut GeneratorState) -> (stream: TokenStream)
    ensures
        final(generator_state).follows(
            *old(generator_state),
            Needs { args: true, ..old(generator_state).needs() },
        ),
        tokens_of(stream) == opctx_tokens(old(generator_state).names()),
{
    proof {
        lemma_words();
    }
    generator_state.needs_args = true;
    let deno_core = &generator_state.deno_core;
    Quote::new().bind(&generator_state.opctx).word("unsafe").braces(
        Quote::new().op('&').op('*').parens(
            Quote::new().tokens(deno_core).seg("v8").seg("Local").op2(':', ':').op('<').tokens(
                deno_core,
            ).seg("v8").seg("External").op('>').seg("cast").parens(
                Quote::new().name(&generator_state.fn_args).dot("data").parens(Quote::new()),
            ).dot("value").parens(Quote::new()).word("as").op('*').word("const").tokens(
                deno_core,
            ).seg("_ops").seg("OpCtx"),
        ),
    ).op(';').done()
}

/// Declares the op state. The context has to be declared before.
pub fn with_opstate(generator_state: &mut GeneratorState) -> (stream: TokenStream)
    ensures
        final(generator_state).follows(
            *old(generator_state),
            Needs { opctx: true, ..old(generator_state).needs() },
        ),
        tokens_of(stream) == opstate_tokens(old(generator_state).names()),
{
    proof {
        lemma_words();
    }
    generator_state.needs_opctx = true;
    Quote::new().bind(&generator_state.opstate).op('&').name(&generator_state.opctx).dot(
        "state",
    ).op(';').done()
}

} // verus!
