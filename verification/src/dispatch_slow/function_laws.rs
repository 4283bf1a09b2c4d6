//! What the generated function does as a whole, part by part.
use crate::config::MacroConfig;
use crate::dispatch_slow::args::{arg_needs, arg_result, state_type_is_valid};
use crate::dispatch_slow::generate::{
    all_mapped, args_code, call_args_tokens, call_tokens, dispatch_needs, dispatch_result,
    has_arg_mapping, lemma_arg_mapping, names_suffice, pick_up_needs, pick_up_tokens,
    picks_up_error, prologue_needs, prologue_tokens, state_types_are_valid, ArgsCode,
};
use crate::dispatch_slow::laws::{input_count, law_call_passes_each_argument};
use crate::dispatch_slow::prologue::{
    fn_args_tokens, isolate_tokens, opctx_tokens, opstate_tokens, retval_tokens, scope_tokens,
};
use crate::dispatch_slow::results::{is_immediate, ret_val_needs, ret_val_result};
use crate::dispatch_slow::throw_laws::law_exception_is_thrown;
use crate::generator_state::{Names, Needs};
use crate::signature::{Arg, ParsedSignature};
use crate::token::{no_tokens, Token, TokenSeq};
use crate::token_stream::type_tokens;
use crate::V8MappingError;
use vstd::prelude::*;

verus! {

/// Exactly the references to objects of the runtime, the shared op state and the values in the op
/// state come from the runtime: their code reads nothing that the caller passed.
pub proof fn law_virtual_arguments(arg: Arg)
    ensures
        arg.spec_is_virtual() <==> arg is Ref || arg is RcRefCell || arg is State
            || arg is OptionState,
{
}

/// Before the first argument there is no code, no value is taken and nothing more is needed.
pub proof fn law_no_argument_yet(n: Names, needs: Needs, args: Seq<Arg>)
    ensures
        args_code(n, needs, args, 0) == (ArgsCode {
            needs,
            args: Seq::empty(),
            deferred: Seq::empty(),
            inputs: 0,
            error: None,
        }),
        input_count(args, 0) == 0,
{
}

/// One more argument from the runtime adds its own code to the deferred code and nothing else: no
/// value that the caller passed is used up for it, and the code for the other arguments stays.
pub proof fn law_next_runtime_argument(n: Names, needs: Needs, args: Seq<Arg>, count: nat)
    requires
        args_code(n, needs, args, count + 1).error is None,
        ({
            let arg = args[count as int];
            arg is Ref || arg is RcRefCell || arg is State || arg is OptionState
        }),
    ensures
        ({
            let before = args_code(n, needs, args, count);
            let after = args_code(n, needs, args, count + 1);
            &&& before.error is None
            &&& after.args == before.args
            &&& after.inputs == before.inputs
            &&& after.deferred == before.deferred + arg_result(
                n,
                before.needs,
                n.args[count as int],
                args[count as int],
            )->Ok_0
        }),
        input_count(args, count + 1) == input_count(args, count),
{
}

/// One more argument that the caller passes takes the next value, the one behind the values that the
/// arguments before it took, under the name of the argument, and converts it. The deferred code
/// stays.
pub proof fn law_next_input(n: Names, needs: Needs, args: Seq<Arg>, count: nat)
    requires
        count < n.args.len(),
        args_code(n, needs, args, count + 1).error is None,
        ({
            let arg = args[count as int];
            !(arg is Ref) && !(arg is RcRefCell) && !(arg is State) && !(arg is OptionState)
        }),
    ensures
        ({
            let before = args_code(n, needs, args, count);
            let after = args_code(n, needs, args, count + 1);
            &&& before.error is None
            &&& after.inputs == before.inputs + 1
            &&& after.deferred == before.deferred
            &&& after.args =~= before.args + no_tokens().word("let").name(n.args[count as int]).op(
                '=',
            ).name(n.fn_args).op('.').word("get").parens(
                no_tokens().usize_lit(before.inputs).word("as").word("i32"),
            ).op(';') + arg_result(
                n,
                before.needs,
                n.args[count as int],
                args[count as int],
            )->Ok_0
        }),
        input_count(args, count + 1) == input_count(args, count) + 1,
{
}

/// The arguments are handled until there is one without code. Each one that is handled, that one
/// included, adds its needs to those before it; nothing behind an error counts.
pub proof fn law_next_argument(n: Names, needs: Needs, args: Seq<Arg>, count: nat)
    ensures
        ({
            let before = args_code(n, needs, args, count);
            let after = args_code(n, needs, args, count + 1);
            let arg = args[count as int];
            &&& before.error is Some ==> after == before
            &&& before.error is None ==> after.needs == arg_needs(before.needs, arg)
            &&& before.error is None ==> match arg_result(
                n,
                before.needs,
                n.args[count as int],
                arg,
            ) {
                Ok(_) => after.error is None,
                Err(error) => after.error == Some(error),
            }
        }),
{
}

/// The function starts with exactly the declarations that are needed, in this order: the scope, the
/// return value, the arguments, the context, the isolate, the op state. The isolate stands in for a
/// scope that is not needed. The context is declared for its own sake, for the isolate and for the
/// op state, and the arguments for their own sake and for the context.
pub proof fn law_prologue(n: Names, needs: Needs)
    ensures
        ({
            let isolate = needs.isolate && !needs.scope;
            let opctx = needs.opctx || isolate || needs.opstate;
            let args = needs.args || opctx;
            let when = |needed: bool, code: Seq<Token>|
                if needed {
                    code
                } else {
                    no_tokens()
                };
            &&& prologue_tokens(n, needs) =~= when(needs.scope, scope_tokens(n)) + when(
                needs.retval,
                retval_tokens(n),
            ) + when(args, fn_args_tokens(n)) + when(opctx, opctx_tokens(n)) + when(
                isolate,
                isolate_tokens(n),
            ) + when(needs.opstate, opstate_tokens(n))
            &&& prologue_needs(needs).opctx <==> opctx
            &&& prologue_needs(needs).args <==> args
            &&& prologue_needs(needs).scope == needs.scope
            &&& prologue_needs(needs).isolate == needs.isolate
            &&& prologue_needs(needs).retval == needs.retval
            &&& prologue_needs(needs).opstate == needs.opstate
        }),
{
}

/// The slow function of a fast op that returns a `Result`, whatever its arguments are, takes the
/// error that the fast call left and throws it: the error goes to `to_v8_error` and the exception to
/// `throw_exception`, and the function returns. In front of that stand only declarations.
pub proof fn law_fast_error_is_thrown(n: Names, needs: Needs) -> (declarations: Seq<Token>)
    ensures
        pick_up_tokens(n, needs) == no_tokens().word("if").word("let").word("Some").parens(
            no_tokens().word("err"),
        ).op('=').word("unsafe").braces(
            no_tokens().word("opctx").op('.').word("unsafely_take_last_error_for_ops_only").parens(
                no_tokens(),
            ),
        ).braces(
            declarations.word("let").word("err").op('=').word("err").dot("into").parens(
                no_tokens(),
            ).op(';').word("let").word("exception").op('=').tokens(n.deno_core).seg("error").seg(
                "to_v8_error",
            ).parens(
                no_tokens().op('&').word("mut").name(n.scope).op(',').name(n.opctx).dot(
                    "get_error_class_fn",
                ).op(',').op('&').word("err").op(','),
            ).op(';').name(n.scope).dot("throw_exception").parens(
                no_tokens().word("exception"),
            ).op(';').word("return").op(';'),
        ),
        declarations == (if needs.scope {
            no_tokens()
        } else {
            scope_tokens(n)
        }) + (if needs.args {
            no_tokens()
        } else {
            fn_args_tokens(n)
        }),
{
    law_exception_is_thrown(n, Needs { opctx: true, ..needs })
}

/// The code that throws the error of the fast call has nothing to do with the arguments of the op,
/// its result or its name.
pub proof fn law_fast_error_code_ignores_arguments(n: Names, other: Names, needs: Needs)
    requires
        n.deno_core == other.deno_core,
        n.scope == other.scope,
        n.info == other.info,
        n.fn_args == other.fn_args,
        n.opctx == other.opctx,
    ensures
        pick_up_tokens(n, needs) == pick_up_tokens(other, needs),
{
}

/// An error of the fast call is picked up exactly by fast ops that return a `Result`; these need the
/// context, and the others need nothing for it.
pub proof fn law_fast_error_is_picked_up(config: MacroConfig, needs: Needs, sig: ParsedSignature)
    ensures
        picks_up_error(config, sig) <==> config.fast && sig.ret_val is Result,
        pick_up_needs(config, needs, sig).opctx <==> needs.opctx || (config.fast
            && sig.ret_val is Result),
        pick_up_needs(config, needs, sig) == (Needs {
            opctx: pick_up_needs(config, needs, sig).opctx,
            ..needs
        }),
{
}

/// The op is called with each of its arguments by name, in their order, with a comma behind each.
pub proof fn law_op_is_called(n: Names) -> (args: Seq<Token>)
    ensures
        call_tokens(n) == no_tokens().word("Self").seg("call").parens(args),
        args.len() == 2 * n.args.len(),
        forall|i: int|
            0 <= i < n.args.len() ==> #[trigger] args[2 * i] == Token::Ident(n.args[i]) && args[2
                * i + 1] == Token::Punct(',', false),
{
    law_call_passes_each_argument(n.args);
    call_args_tokens(n.args)
}

/// The function takes the callback information, declares what is needed, throws the error of the
/// fast call where there may be one, binds the result of the op to its name, in a block that
/// converts the inputs, then fetches the objects of the runtime and then calls the op, and hands the
/// result over. There is nothing else in it.
pub proof fn law_function(config: MacroConfig, n: Names, needs: Needs, sig: ParsedSignature)
    requires
        is_immediate(sig.ret_val),
        dispatch_result(config, n, needs, sig) is Ok,
    ensures
        ({
            let first = if config.fast && sig.ret_val is Result {
                pick_up_tokens(n, needs)
            } else {
                no_tokens()
            };
            let start = Needs {
                opctx: needs.opctx || (config.fast && sig.ret_val is Result),
                ..needs
            };
            let code = args_code(n, start, sig.args@, sig.args@.len());
            let returned = ret_val_result(n, code.needs, sig.ret_val);
            let needed = ret_val_needs(n, code.needs, sig.ret_val);
            &&& code.error is None
            &&& returned is Ok
            &&& dispatch_result(config, n, needs, sig)->Ok_0 == no_tokens().word("extern").str_lit(
                "C"@,
            ).word("fn").name(n.slow_function).parens(
                no_tokens().name(n.info).op(':').op('*').word("const").tokens(n.deno_core).seg(
                    "v8",
                ).seg("FunctionCallbackInfo"),
            ).braces(
                prologue_tokens(n, needed).tokens(
                    first.tokens(
                        no_tokens().word("let").name(n.result).op('=').braces(
                            code.args.tokens(code.deferred).tokens(call_tokens(n)),
                        ).op(';'),
                    ).tokens(returned->Ok_0),
                ),
            )
            &&& dispatch_needs(config, n, needs, sig) == prologue_needs(needed)
        }),
{
}

/// Without a function, the error is that of the first argument without code or that of the result,
/// and only the parts up to it count as needed.
pub proof fn law_no_function(config: MacroConfig, n: Names, needs: Needs, sig: ParsedSignature)
    requires
        dispatch_result(config, n, needs, sig) is Err,
    ensures
        ({
            let start = Needs {
                opctx: needs.opctx || (config.fast && sig.ret_val is Result),
                ..needs
            };
            let code = args_code(n, start, sig.args@, sig.args@.len());
            let error = dispatch_result(config, n, needs, sig)->Err_0;
            &&& code.error is Some ==> code.error == Some(error) && dispatch_needs(
                config,
                n,
                needs,
                sig,
            ) == code.needs
            &&& code.error is None ==> ret_val_result(n, code.needs, sig.ret_val) == Err::<
                Seq<Token>,
                V8MappingError,
            >(error) && dispatch_needs(config, n, needs, sig) == ret_val_needs(
                n,
                code.needs,
                sig.ret_val,
            )
        }),
{
}

/// There is a function exactly where there is code for each argument and for the result.
pub proof fn law_function_or_error(config: MacroConfig, n: Names, needs: Needs, sig: ParsedSignature)
    ensures
        ({
            let start = Needs {
                opctx: needs.opctx || (config.fast && sig.ret_val is Result),
                ..needs
            };
            let code = args_code(n, start, sig.args@, sig.args@.len());
            dispatch_result(config, n, needs, sig) is Ok <==> code.error is None && ret_val_result(
                n,
                code.needs,
                sig.ret_val,
            ) is Ok
        }),
{
}

/// An argument is handled exactly where there is code for all arguments before it. Each argument
/// that is handled needs a name, and a valid type where it is a value in the op state; nothing is
/// asked of the others.
pub proof fn law_what_the_generator_asks(n: Names, needs: Needs, args: Seq<Arg>, names: nat)
    ensures
        forall|arg: Arg| #[trigger]
            has_arg_mapping(arg) <==> arg_result(n, needs, n.result, arg) is Ok,
        forall|i: int|
            0 <= i ==> (#[trigger] all_mapped(args, i) <==> (forall|j: int|
                0 <= j < i ==> has_arg_mapping(#[trigger] args[j]))),
        names_suffice(names, args) <==> !exists|i: int|
            names <= i < args.len() && #[trigger] all_mapped(args, i),
        state_types_are_valid(args) <==> !exists|i: int|
            0 <= i < args.len() && #[trigger] all_mapped(args, i) && match args[i] {
                Arg::State(_, state) => type_tokens(state@) is None,
                Arg::OptionState(_, state) => type_tokens(state@) is None,
                _ => false,
            },
{
    assert forall|arg: Arg| #[trigger]
        has_arg_mapping(arg) <==> arg_result(n, needs, n.result, arg) is Ok by {
        lemma_arg_mapping(n, needs, n.result, arg);
    }
    if !state_types_are_valid(args) {
        let i = choose|i: int|
            0 <= i < args.len() && #[trigger] all_mapped(args, i) && !state_type_is_valid(args[i]);
        assert(all_mapped(args, i));
    }
}

} // verus!
