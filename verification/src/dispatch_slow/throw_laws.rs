//! What the declarations and the exceptions of the generated code say.
use crate::dispatch_slow::prologue::{
    fn_args_tokens, isolate_tokens, opctx_tokens, opstate_tokens, retval_tokens, scope_tokens,
};
use crate::dispatch_slow::throw::{
    is_plain_message, throw_exception_needs, throw_exception_tokens,
    throw_type_error_static_string_tokens, throw_type_error_string_tokens, throw_type_error_tokens,
};
use crate::generator_state::{Names, Needs};
use crate::token::{no_tokens, Token, TokenSeq};
use vstd::prelude::*;

verus! {

/// The scope, the return value and the arguments are made from the callback information, whatever
/// their names are.
pub proof fn law_declarations_from_the_info(n: Names)
    ensures
        scope_tokens(n) == no_tokens().word("let").word("mut").name(n.scope).op('=').word(
            "unsafe",
        ).braces(
            no_tokens().tokens(n.deno_core).seg("v8").seg("CallbackScope").seg("new").parens(
                no_tokens().op('&').op('*').name(n.info),
            ),
        ).op(';'),
        retval_tokens(n) == no_tokens().word("let").word("mut").name(n.retval).op('=').tokens(
            n.deno_core,
        ).seg("v8").seg("ReturnValue").seg("from_function_callback_info").parens(
            no_tokens().word("unsafe").braces(no_tokens().op('&').op('*').name(n.info)),
        ).op(';'),
        fn_args_tokens(n) == no_tokens().word("let").name(n.fn_args).op('=').tokens(
            n.deno_core,
        ).seg("v8").seg("FunctionCallbackArguments").seg("from_function_callback_info").parens(
            no_tokens().word("unsafe").braces(no_tokens().op('&').op('*').name(n.info)),
        ).op(';'),
{
}

/// The context is the external value in the data of the arguments. The isolate, which goes by the
/// name of the scope, and the op state are fields of the context.
pub proof fn law_declarations_from_the_context(n: Names)
    ensures
        opctx_tokens(n) == no_tokens().word("let").name(n.opctx).op('=').word("unsafe").braces(
            no_tokens().op('&').op('*').parens(
                no_tokens().tokens(n.deno_core).seg("v8").seg("Local").op2(':', ':').op(
                    '<',
                ).tokens(n.deno_core).seg("v8").seg("External").op('>').seg("cast").parens(
                    no_tokens().name(n.fn_args).dot("data").parens(no_tokens()),
                ).dot("value").parens(no_tokens()).word("as").op('*').word("const").tokens(
                    n.deno_core,
                ).seg("_ops").seg("OpCtx"),
            ),
        ).op(';'),
        isolate_tokens(n) == no_tokens().word("let").word("mut").name(n.scope).op('=').word(
            "unsafe",
        ).braces(
            no_tokens().op('&').word("mut").op('*').name(n.opctx).dot("isolate"),
        ).op(';'),
        opstate_tokens(n) == no_tokens().word("let").name(n.opstate).op('=').op('&').name(
            n.opctx,
        ).dot("state").op(';'),
{
}

/// The code that throws `err` declares the scope, the arguments and the context exactly where the
/// function does not; it converts the error with the class function of the context, throws the
/// exception in the scope, and leaves the function. The only thing that it asks of the function is
/// to declare the arguments, for a context that it declares itself.
pub proof fn law_exception_is_thrown(n: Names, needs: Needs) -> (declarations: Seq<Token>)
    ensures
        throw_exception_tokens(n, needs) == declarations.word("let").word("err").op('=').word(
            "err",
        ).dot("into").parens(no_tokens()).op(';').word("let").word("exception").op('=').tokens(
            n.deno_core,
        ).seg("error").seg("to_v8_error").parens(
            no_tokens().op('&').word("mut").name(n.scope).op(',').name(n.opctx).dot(
                "get_error_class_fn",
            ).op(',').op('&').word("err").op(','),
        ).op(';').name(n.scope).dot("throw_exception").parens(
            no_tokens().word("exception"),
        ).op(';').word("return").op(';'),
        declarations == (if needs.scope {
            no_tokens()
        } else {
            scope_tokens(n)
        }) + (if needs.opctx && !needs.args {
            fn_args_tokens(n)
        } else {
            no_tokens()
        }) + (if needs.opctx {
            no_tokens()
        } else {
            opctx_tokens(n)
        }),
        throw_exception_needs(needs).args <==> needs.args || !needs.opctx,
        throw_exception_needs(needs) == (Needs {
            args: throw_exception_needs(needs).args,
            ..needs
        }),
{
    let declarations = no_tokens().tokens(
        if needs.scope {
            no_tokens()
        } else {
            scope_tokens(n)
        },
    ).tokens(
        if needs.opctx && !needs.args {
            fn_args_tokens(n)
        } else {
            no_tokens()
        },
    ).tokens(
        if needs.opctx {
            no_tokens()
        } else {
            opctx_tokens(n)
        },
    );
    declarations
}

/// The code that throws an exception with a message declares the scope exactly where the function
/// does not, makes a V8 string of the message, throws, and leaves the function. A given message
/// makes a `TypeError`, of just that message; the text of an error and the text in a variable make
/// an `Error`.
pub proof fn law_message_is_thrown(n: Names, needs: Needs, message: Seq<char>)
    ensures
        ({
            let scope = if needs.scope {
                no_tokens()
            } else {
                scope_tokens(n)
            };
            let one_byte = |text: Seq<Token>|
                no_tokens().word("let").word("msg").op('=').tokens(n.deno_core).seg("v8").seg(
                    "String",
                ).seg("new_from_one_byte").parens(
                    no_tokens().op('&').word("mut").name(n.scope).op(',').tokens(text).dot(
                        "as_bytes",
                    ).parens(no_tokens()).op(',').tokens(n.deno_core).seg("v8").seg(
                        "NewStringType",
                    ).seg("Normal"),
                ).dot("unwrap").parens(no_tokens()).op(';');
            let throw = |kind: &str|
                no_tokens().word("let").word("exc").op('=').tokens(n.deno_core).seg("v8").seg(
                    "Exception",
                ).seg(kind).parens(
                    no_tokens().op('&').word("mut").name(n.scope).op(',').word("msg"),
                ).op(';').name(n.scope).dot("throw_exception").parens(
                    no_tokens().word("exc"),
                ).op(';').word("return").op(';');
            let formatted = no_tokens().word("let").word("msg").op('=').tokens(n.deno_core).seg(
                "v8",
            ).seg("String").seg("new").parens(
                no_tokens().op('&').word("mut").name(n.scope).op(',').op('&').word("format").op(
                    '!',
                ).parens(
                    no_tokens().str_lit("{}"@).op(',').tokens(n.deno_core).seg("anyhow").seg(
                        "Error",
                    ).seg("from").parens(no_tokens().name(message)),
                ),
            ).dot("unwrap").parens(no_tokens()).op(';');
            &&& throw_type_error_tokens(n, needs, message) =~= scope + one_byte(
                no_tokens().str_lit(message),
            ) + throw("type_error")
            &&& throw_type_error_string_tokens(n, needs, message) =~= scope + formatted + throw(
                "error",
            )
            &&& throw_type_error_static_string_tokens(n, needs, message) =~= scope + one_byte(
                no_tokens().name(message),
            ) + throw("error")
        }),
{
}

/// A message is plain exactly where all of it is ASCII and it is shorter than 1024 characters.
pub proof fn law_plain_message(message: Seq<char>)
    ensures
        is_plain_message(message) <==> message.len() < 1024 && (forall|i: int|
            0 <= i < message.len() ==> (#[trigger] message[i]) as int <= 127),
{
}

} // verus!
