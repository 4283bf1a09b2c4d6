//! Code that throws exceptions.
use crate::dispatch_slow::prologue::{
    fn_args_tokens, opctx_tokens, scope_tokens, with_fn_args, with_opctx, with_scope,
};
use crate::generator_state::{GeneratorState, Names, Needs};
use crate::token::{is_word, no_tokens, Token, TokenSeq};
use crate::token_stream::{ident_text, tokens_of, Quote};
use crate::words::lemma_words;
use crate::V8MappingError;
use proc_macro2::{Ident, TokenStream};
use vstd::prelude::*;

verus! {

/// The declaration of the scope, where the function does not declare it at its start.
pub open spec fn maybe_scope_tokens(n: Names, needs: Needs) -> Seq<Token> {
    if needs.scope {
        no_tokens()
    } else {
        scope_tokens(n)
    }
}

/// The declaration of the context, where the function does not declare it at its start.
pub open spec fn maybe_opctx_tokens(n: Names, needs: Needs) -> Seq<Token> {
    if needs.opctx {
        no_tokens()
    } else {
        opctx_tokens(n)
    }
}

/// The declaration of the arguments, where the function does not declare them at its start. For a
/// context that is declared on the spot it does.
pub open spec fn maybe_args_tokens(n: Names, needs: Needs) -> Seq<Token> {
    if throw_exception_needs(needs).args {
        no_tokens()
    } else {
        fn_args_tokens(n)
    }
}

/// What is needed once the code that throws `err` is there: the arguments, for a context that is
/// declared on the spot.
pub open spec fn throw_exception_needs(needs: Needs) -> Needs {
    Needs { args: needs.args || !needs.opctx, ..needs }
}

/// `#maybe_scope #maybe_args #maybe_opctx
/// let err = err.into();
/// let exception =
///     #deno_core::error::to_v8_error(&mut #scope, #opctx.get_error_class_fn, &err,);
/// #scope.throw_exception(exception);
/// return;`
pub open spec fn throw_err_tokens(
    n: Names,
    maybe_scope: Seq<Token>,
    maybe_args: Seq<Token>,
    maybe_opctx: Seq<Token>,
) -> Seq<Token> {
    no_tokens().tokens(maybe_scope).tokens(maybe_args).tokens(maybe_opctx).bind("err"@).word(
        "err",
    ).dot("into").parens(no_tokens()).op(';').bind("exception"@).tokens(n.deno_core).seg(
        "error",
    ).seg("to_v8_error").parens(
        no_tokens().mut_ref(n.scope).op(',').name(n.opctx).dot("get_error_class_fn").op(',').op(
            '&',
        ).word("err").op(','),
    ).op(';').name(n.scope).dot("throw_exception").parens(no_tokens().word("exception")).op(
        ';',
    ).word("return").op(';')
}

/// Throws the error in the variable `err`.
pub open spec fn throw_exception_tokens(n: Names, needs: Needs) -> Seq<Token> {
    throw_err_tokens(
        n,
        maybe_scope_tokens(n, needs),
        maybe_args_tokens(n, needs),
        maybe_opctx_tokens(n, needs),
    )
}

/// `let exc = #deno_core::v8::Exception::#kind(&mut #scope, msg);
/// #scope.throw_exception(exc);
/// return;`
pub open spec fn throw_msg_tokens(n: Names, kind: &str) -> Seq<Token> {
    no_tokens().bind("exc"@).tokens(n.deno_core).seg("v8").seg("Exception").seg(kind).parens(
        no_tokens().mut_ref(n.scope).op(',').word("msg"),
    ).op(';').name(n.scope).dot("throw_exception").parens(no_tokens().word("exc")).op(';').word(
        "return",
    ).op(';')
}

/// `let msg = #deno_core::v8::String::new_from_one_byte(
///     &mut #scope, #message.as_bytes(), #deno_core::v8::NewStringType::Normal).unwrap();`
pub open spec fn one_byte_msg_tokens(n: Names, message: Seq<Token>) -> Seq<Token> {
    no_tokens().bind("msg"@).tokens(n.deno_core).seg("v8").seg("String").seg(
        "new_from_one_byte",
    ).parens(
        no_tokens().mut_ref(n.scope).op(',').tokens(message).dot("as_bytes").parens(no_tokens()).op(
            ',',
        ).tokens(n.deno_core).seg("v8").seg("NewStringType").seg("Normal"),
    ).dot("unwrap").parens(no_tokens()).op(';')
}

/// Throws a `TypeError` with the message `message`.
pub open spec fn throw_type_error_tokens(n: Names, needs: Needs, message: Seq<char>) -> Seq<Token> {
    no_tokens().tokens(maybe_scope_tokens(n, needs)).tokens(
        one_byte_msg_tokens(n, no_tokens().str_lit(message)),
    ).tokens(throw_msg_tokens(n, "type_error"))
}

/// `#maybe_scope
/// let msg = #deno_core::v8::String::new(
///     &mut #scope, &format!("{}", #deno_core::anyhow::Error::from(#message))).unwrap();`
pub open spec fn error_text_tokens(n: Names, maybe_scope: Seq<Token>, message: Seq<char>) -> Seq<
    Token,
> {
    no_tokens().tokens(maybe_scope).bind("msg"@).tokens(n.deno_core).seg("v8").seg("String").seg(
        "new",
    ).parens(
        no_tokens().mut_ref(n.scope).op(',').op('&').word("format").op('!').parens(
            no_tokens().str_lit("{}"@).op(',').tokens(n.deno_core).seg("anyhow").seg("Error").seg(
                "from",
            ).parens(no_tokens().name(message)),
        ),
    ).dot("unwrap").parens(no_tokens()).op(';')
}

/// Throws an `Error` with the text of the error in the variable `message`.
pub open spec fn throw_type_error_string_tokens(
    n: Names,
    needs: Needs,
    message: Seq<char>,
) -> Seq<Token> {
    error_text_tokens(n, maybe_scope_tokens(n, needs), message).tokens(
        throw_msg_tokens(n, "error"),
    )
}

/// Throws an `Error` with the message in the variable `message`.
pub open spec fn throw_type_error_static_string_tokens(
    n: Names,
    needs: Needs,
    message: Seq<char>,
) -> Seq<Token> {
    no_tokens().tokens(maybe_scope_tokens(n, needs)).tokens(
        one_byte_msg_tokens(n, no_tokens().name(message)),
    ).tokens(throw_msg_tokens(n, "error"))
}

/// A message that V8 can take as a one-byte string, of a reasonable length.
pub open spec fn is_plain_message(message: Seq<char>) -> bool {
    &&& forall|i: int| 0 <= i < message.len() ==> (#[trigger] message[i]) < '\u{80}'
    &&& message.len() < 1024
}

/// Generates code to throw the error in the variable `err`, adding required additional
/// dependencies as needed.
pub fn throw_exception(generator_state: &mut GeneratorState) -> (r: Result<
    TokenStream,
    V8MappingError,
>)
    ensures
        final(generator_state).follows(
            *old(generator_state),
            throw_exception_needs(old(generator_state).needs()),
        ),
        r is Ok,
        tokens_of(r->Ok_0) == throw_exception_tokens(
            old(generator_state).names(),
            old(generator_state).needs(),
        ),
{
    proof {
        lemma_words();
    }
    let maybe_scope = if generator_state.needs_scope {
        Quote::new().done()
    } else {
        with_scope(generator_state)
    };
    let maybe_opctx = if generator_state.needs_opctx {
        Quote::new().done()
    } else {
        with_opctx(generator_state)
    };
    let maybe_args = if generator_state.needs_args {
        Quote::new().done()
    } else {
        with_fn_args(generator_state)
    };
    let scope = &generator_state.scope;
    Ok(
        Quote::new().tokens(&maybe_scope).tokens(&maybe_args).tokens(&maybe_opctx).word("let").word(
            "err",
        ).op('=').word("err").dot("into").parens(Quote::new()).op(';').word("let").word(
            "exception",
        ).op('=').tokens(&generator_state.deno_core).seg("error").seg("to_v8_error").parens(
            Quote::new().mut_ref(scope).op(',').name(&generator_state.opctx).dot(
                "get_error_class_fn",
            ).op(',').op('&').word("err").op(','),
        ).op(';').name(scope).dot("throw_exception").parens(Quote::new().word("exception")).op(
            ';',
        ).word("return").op(';').done(),
    )
}

/// Generates the code that throws an exception with the message in the variable `msg`.
fn throw_msg(generator_state: &GeneratorState, kind: &str) -> (stream: TokenStream)
    requires
        is_word(kind@),
    ensures
        tokens_of(stream) == throw_msg_tokens(generator_state.names(), kind),
{
    proof {
        lemma_words();
    }
    let scope = &generator_state.scope;
    Quote::new().word("let").word("exc").op('=').tokens(&generator_state.deno_core).seg("v8").seg(
        "Exception",
    ).seg(kind).parens(Quote::new().mut_ref(scope).op(',').word("msg")).op(';').name(scope).dot(
        "throw_exception",
    ).parens(Quote::new().word("exc")).op(';').word("return").op(';').done()
}

/// Generates the code that makes the message of an exception from a string.
fn one_byte_msg(generator_state: &GeneratorState, message: Quote) -> (stream: TokenStream)
    ensures
        tokens_of(stream) == one_byte_msg_tokens(generator_state.names(), message@),
{
    proof {
        lemma_words();
    }
    let scope = &generator_state.scope;
    let deno_core = &generator_state.deno_core;
    Quote::new().word("let").word("msg").op('=').tokens(deno_core).seg("v8").seg("String").seg(
        "new_from_one_byte",
    ).parens(
        Quote::new().mut_ref(scope).op(',').tokens(&message.done()).dot("as_bytes").parens(
            Quote::new(),
        ).op(',').tokens(deno_core).seg("v8").seg("NewStringType").seg("Normal"),
    ).dot("unwrap").parens(Quote::new()).op(';').done()
}

/// Generates code to throw a `TypeError`, adding required additional dependencies as needed.
pub fn throw_type_error(generator_state: &mut GeneratorState, message: String) -> (r: Result<
    TokenStream,
    V8MappingError,
>)
    requires
        is_plain_message(message@),
    ensures
        *final(generator_state) == *old(generator_state),
        r is Ok,
        tokens_of(r->Ok_0) == throw_type_error_tokens(
            old(generator_state).names(),
            old(generator_state).needs(),
            message@,
        ),
{
    proof {
        lemma_words();
    }
    let maybe_scope = if generator_state.needs_scope {
        Quote::new().done()
    } else {
        with_scope(generator_state)
    };
    let msg = one_byte_msg(generator_state, Quote::new().str_lit(message.as_str()));
    let exc = throw_msg(generator_state, "type_error");
    Ok(Quote::new().tokens(&maybe_scope).tokens(&msg).tokens(&exc).done())
}

/// Generates code to throw an exception from an error variable, adding required additional
/// dependencies as needed.
pub fn throw_type_error_string(generator_state: &mut GeneratorState, message: &Ident) -> (r: Result<
    TokenStream,
    V8MappingError,
>)
    ensures
        *final(generator_state) == *old(generator_state),
        r is Ok,
        tokens_of(r->Ok_0) == throw_type_error_string_tokens(
            old(generator_state).names(),
            old(generator_state).needs(),
            ident_text(*message),
        ),
{
    proof {
        lemma_words();
    }
    let maybe_scope = if generator_state.needs_scope {
        Quote::new().done()
    } else {
        with_scope(generator_state)
    };
    let exc = throw_msg(generator_state, "error");
    let deno_core = &generator_state.deno_core;
    Ok(
        Quote::new().tokens(&maybe_scope).word("let").word("msg").op('=').tokens(deno_core).seg(
            "v8",
        ).seg("String").seg("new").parens(
            Quote::new().mut_ref(&generator_state.scope).op(',').op('&').word("format").op(
                '!',
            ).parens(
                Quote::new().str_lit("{}").op(',').tokens(deno_core).seg("anyhow").seg("Error").seg(
                    "from",
                ).parens(Quote::new().name(message)),
            ),
        ).dot("unwrap").parens(Quote::new()).op(';').tokens(&exc).done(),
    )
}

/// Generates code to throw an exception from a string variable, adding required additional
/// dependencies as needed.
pub fn throw_type_error_static_string(
    generator_state: &mut GeneratorState,
    message: &Ident,
) -> (r: Result<TokenStream, V8MappingError>)
    ensures
        *final(generator_state) == *old(generator_state),
        r is Ok,
        tokens_of(r->Ok_0) == throw_type_error_static_string_tokens(
            old(generator_state).names(),
            old(generator_state).needs(),
            ident_text(*message),
        ),
{
    proof {
        lemma_words();
    }
    let maybe_scope = if generator_state.needs_scope {
        Quote::new().done()
    } else {
        with_scope(generator_state)
    };
    let msg = one_byte_msg(generator_state, Quote::new().name(message));
    let exc = throw_msg(generator_state, "error");
    Ok(Quote::new().tokens(&maybe_scope).tokens(&msg).tokens(&exc).done())
}

} // verus!
