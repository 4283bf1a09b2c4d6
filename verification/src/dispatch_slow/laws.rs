//! What holds of the generated code as a whole.
use crate::config::MacroConfig;
use crate::dispatch_slow::args::{arg_needs, arg_result, extract_arg_tokens};
use crate::dispatch_slow::generate::{
    all_mapped, args_code, body_needs, body_tokens, call_args_tokens, call_tokens, declares_isolate,
    dispatch_needs, dispatch_result, function_tokens, has_arg_mapping, lemma_args_error,
    lemma_args_mapping, pick_up_needs, pick_up_tokens, prologue_needs, prologue_tokens,
    signature_code,
};
use crate::dispatch_slow::results::{
    fallible_return_needs, fallible_return_result, is_immediate, is_returned_buffer, ret_val_result,
    return_needs, return_option_tokens, return_result, v8_value_result,
};
use crate::dispatch_slow::throw::{
    throw_exception_needs, throw_exception_tokens, throw_type_error_static_string_tokens,
    throw_type_error_string_tokens, throw_type_error_tokens,
};
use crate::generator_state::{Names, Needs};
use crate::signature::{Arg, ParsedSignature, RetVal, Strings};
use crate::token::{no_tokens, Token, TokenSeq};
use crate::V8MappingError;
use vstd::prelude::*;

verus! {

/// There is code for a result of this type, which is not optional.
pub open spec fn has_plain_return_mapping(ret_type: Arg) -> bool {
    match ret_type {
        Arg::Void
        | Arg::Numeric(_)
        | Arg::V8Local(_)
        | Arg::SerdeV8(_)
        | Arg::External(_) => true,
        Arg::String(strings) => strings == Strings::String || strings == Strings::CowByte,
        Arg::Buffer(buffer) => is_returned_buffer(buffer),
        _ => false,
    }
}

/// There is code for a result of this type: for an optional type, where there is for the type under
/// the `Option`.
pub open spec fn has_return_mapping(ret_type: Arg) -> bool {
    match ret_type.spec_some_type() {
        Some(some_type) => has_plain_return_mapping(some_type),
        None => has_plain_return_mapping(ret_type),
    }
}

/// The type of the value that the op hands over.
pub open spec fn value_type(ret_val: RetVal) -> Arg {
    match ret_val {
        RetVal::Infallible(ret_type)
        | RetVal::Result(ret_type)
        | RetVal::Future(ret_type)
        | RetVal::FutureResult(ret_type)
        | RetVal::ResultFuture(ret_type)
        | RetVal::ResultFutureResult(ret_type) => ret_type,
    }
}

/// The number of values that the caller passes for the first `count` arguments.
pub open spec fn input_count(args: Seq<Arg>, count: nat) -> nat
    decreases count,
{
    if count == 0 {
        0
    } else if args[count - 1].spec_is_virtual() {
        input_count(args, (count - 1) as nat)
    } else {
        input_count(args, (count - 1) as nat) + 1
    }
}

/// The code for the argument of the given index, in the place that it has among the others.
pub open spec fn arg_code(n: Names, needs: Needs, args: Seq<Arg>, index: int) -> Seq<Token> {
    arg_result(
        n,
        args_code(n, needs, args, index as nat).needs,
        n.args[index],
        args[index],
    )->Ok_0
}

/// Nothing that is generated takes a need back.
pub proof fn law_needs_only_grow(n: Names, needs: Needs, arg: Arg)
    ensures
        needs.within(throw_exception_needs(needs)),
        needs.within(arg_needs(needs, arg)),
        needs.within(return_needs(needs, arg)),
        needs.within(fallible_return_needs(n, needs, arg)),
        needs.within(prologue_needs(needs)),
{
}

/// The arguments of a signature take no need back.
pub proof fn law_args_needs_only_grow(n: Names, needs: Needs, args: Seq<Arg>, count: nat)
    ensures
        needs.within(args_code(n, needs, args, count).needs),
    decreases count,
{
    if count > 0 {
        law_args_needs_only_grow(n, needs, args, (count - 1) as nat);
        law_needs_only_grow(
            n,
            args_code(n, needs, args, (count - 1) as nat).needs,
            args[count - 1],
        );
    }
}

/// A whole function takes no need back.
pub proof fn law_dispatch_needs_only_grow(
    config: MacroConfig,
    n: Names,
    needs: Needs,
    sig: ParsedSignature,
)
    requires
        all_mapped(sig.args@, sig.args@.len() as int) ==> is_immediate(sig.ret_val),
    ensures
        needs.within(dispatch_needs(config, n, needs, sig)),
{
    let before = pick_up_needs(config, needs, sig);
    let code = signature_code(config, n, needs, sig);
    law_args_needs_only_grow(n, before, sig.args@, sig.args@.len());
    lemma_args_mapping(n, before, sig.args@, sig.args@.len());
    law_needs_only_grow(n, code.needs, value_type(sig.ret_val));
    law_needs_only_grow(n, body_needs(config, n, needs, sig), Arg::Void);
}

/// There is code for a result exactly where its type has a mapping.
pub proof fn law_return_mapping(n: Names, needs: Needs, ret_type: Arg)
    ensures
        return_result(n, needs, ret_type) is Ok <==> has_return_mapping(ret_type),
        fallible_return_result(n, needs, ret_type) is Ok <==> has_return_mapping(ret_type),
{
}

/// A value that can be made a V8 value can be handed over as a result too.
pub proof fn law_v8_values_can_be_returned(n: Names, needs: Needs, ret_type: Arg)
    requires
        v8_value_result(n, ret_type) is Ok,
    ensures
        return_result(n, needs, ret_type) is Ok,
{
}

/// A function is generated exactly where there is code for each argument and for the result,
/// whatever the names, the needs and the options are.
pub proof fn law_dispatch_succeeds(
    config: MacroConfig,
    n: Names,
    needs: Needs,
    sig: ParsedSignature,
)
    requires
        all_mapped(sig.args@, sig.args@.len() as int) ==> is_immediate(sig.ret_val),
    ensures
        dispatch_result(config, n, needs, sig) is Ok <==> (all_mapped(
            sig.args@,
            sig.args@.len() as int,
        ) && has_return_mapping(value_type(sig.ret_val))),
{
    let before = pick_up_needs(config, needs, sig);
    let code = signature_code(config, n, needs, sig);
    lemma_args_mapping(n, before, sig.args@, sig.args@.len());
    law_return_mapping(n, code.needs, value_type(sig.ret_val));
}

/// The error for an argument that there is no code for.
pub open spec fn arg_error(arg: Arg) -> V8MappingError {
    match arg {
        Arg::Buffer(_) => V8MappingError::NoMapping("a buffer argument", arg),
        _ => V8MappingError::NoMapping("a slow argument", arg),
    }
}

/// Without code for an argument, the error names the first such argument, whatever else the
/// signature holds.
pub proof fn law_first_argument_error(
    config: MacroConfig,
    n: Names,
    needs: Needs,
    sig: ParsedSignature,
    index: nat,
)
    requires
        index < sig.args@.len(),
        all_mapped(sig.args@, index as int),
        !has_arg_mapping(sig.args@[index as int]),
    ensures
        dispatch_result(config, n, needs, sig) == Err::<Seq<Token>, V8MappingError>(
            arg_error(sig.args@[index as int]),
        ),
{
    let before = pick_up_needs(config, needs, sig);
    lemma_args_mapping(n, before, sig.args@, index);
    lemma_args_mapping(n, before, sig.args@, index + 1);
    lemma_args_error(n, before, sig.args@, index + 1, sig.args@.len());
}

/// With code for each argument and none for the result, the error names the type of the result,
/// without its `Option`.
pub proof fn law_result_error(config: MacroConfig, n: Names, needs: Needs, sig: ParsedSignature)
    requires
        all_mapped(sig.args@, sig.args@.len() as int),
        is_immediate(sig.ret_val),
        !has_return_mapping(value_type(sig.ret_val)),
    ensures
        dispatch_result(config, n, needs, sig) == Err::<Seq<Token>, V8MappingError>(
            V8MappingError::NoMapping(
                "a slow return value",
                match value_type(sig.ret_val).spec_some_type() {
                    Some(some_type) => some_type,
                    None => value_type(sig.ret_val),
                },
            ),
        ),
{
    let before = pick_up_needs(config, needs, sig);
    let code = signature_code(config, n, needs, sig);
    lemma_args_mapping(n, before, sig.args@, sig.args@.len());
    law_return_mapping(n, code.needs, value_type(sig.ret_val));
}

/// An optional result is handled like the type under its `Option`, in a branch.
pub proof fn law_optional_result(n: Names, needs: Needs, ret_type: Arg)
    requires
        ret_type.spec_is_option(),
        has_return_mapping(ret_type),
    ensures
        return_result(n, needs, ret_type) == Ok::<Seq<Token>, V8MappingError>(
            return_option_tokens(
                n,
                return_result(n, needs, ret_type.spec_some_type()->0)->Ok_0,
            ),
        ),
        return_needs(needs, ret_type) == return_needs(needs, ret_type.spec_some_type()->0),
{
}

/// For each argument that the caller passes, one value is taken.
pub proof fn law_inputs_are_counted(n: Names, needs: Needs, args: Seq<Arg>, count: nat)
    requires
        all_mapped(args, count as int),
    ensures
        args_code(n, needs, args, count).inputs == input_count(args, count),
    decreases count,
{
    lemma_args_mapping(n, needs, args, count);
    if count > 0 {
        law_inputs_are_counted(n, needs, args, (count - 1) as nat);
    }
}

/// The code for the first arguments stays at the front when more arguments follow.
pub proof fn law_code_is_appended(n: Names, needs: Needs, args: Seq<Arg>, count: nat, all: nat)
    requires
        count <= all,
    ensures
        args_code(n, needs, args, count).args.is_prefix_of(args_code(n, needs, args, all).args),
        args_code(n, needs, args, count).deferred.is_prefix_of(
            args_code(n, needs, args, all).deferred,
        ),
    decreases all,
{
    if count < all {
        law_code_is_appended(n, needs, args, count, (all - 1) as nat);
    }
}

/// The arguments that the caller passes are taken in their order, each from the next value: the one
/// whose index is the number of such arguments before it. The code that takes the value is followed
/// by the code that converts it.
pub proof fn law_inputs_in_order(n: Names, needs: Needs, args: Seq<Arg>, index: nat, count: nat)
    requires
        index < count,
        all_mapped(args, count as int),
        !args[index as int].spec_is_virtual(),
    ensures
        (args_code(n, needs, args, index).args + extract_arg_tokens(
            n,
            index as int,
            input_count(args, index),
        ) + arg_code(n, needs, args, index as int)).is_prefix_of(
            args_code(n, needs, args, count).args,
        ),
{
    law_inputs_are_counted(n, needs, args, index);
    law_code_is_appended(n, needs, args, index + 1, count);
    lemma_args_mapping(n, needs, args, index + 1);
}

/// The arguments that come from the runtime are handled in their order.
pub proof fn law_runtime_arguments_in_order(
    n: Names,
    needs: Needs,
    args: Seq<Arg>,
    index: nat,
    count: nat,
)
    requires
        index < count,
        all_mapped(args, count as int),
        args[index as int].spec_is_virtual(),
    ensures
        (args_code(n, needs, args, index).deferred + arg_code(
            n,
            needs,
            args,
            index as int,
        )).is_prefix_of(args_code(n, needs, args, count).deferred),
{
    law_code_is_appended(n, needs, args, index + 1, count);
    lemma_args_mapping(n, needs, args, index + 1);
}

/// Two sequences that are followed by a third, cut around a part of each.
proof fn lemma_parts<A>(
    first: Seq<A>,
    second: Seq<A>,
    third: Seq<A>,
    before_x: Seq<A>,
    x: Seq<A>,
    before_y: Seq<A>,
    y: Seq<A>,
)
    requires
        (before_x + x).is_prefix_of(first),
        (before_y + y).is_prefix_of(second),
    ensures
        first + second + third == before_x + x + (first.skip((before_x + x).len() as int)
            + before_y) + y + second.skip((before_y + y).len() as int) + third,
{
    let after_x = first.skip((before_x + x).len() as int);
    let after_y = second.skip((before_y + y).len() as int);
    assert(first =~= before_x + x + after_x);
    assert(second =~= before_y + y + after_y);
    assert(first + second + third =~= before_x + x + (after_x + before_y) + y + after_y + third);
}

/// In the block that calls the op, the code for every argument that the caller passes comes before
/// the code for every argument that comes from the runtime, in whatever order the two stand in the
/// signature, and the call comes last.
pub proof fn law_runtime_arguments_last(
    n: Names,
    needs: Needs,
    args: Seq<Arg>,
    input: nat,
    runtime: nat,
) -> (parts: (Seq<Token>, Seq<Token>, Seq<Token>))
    requires
        input < args.len(),
        runtime < args.len(),
        all_mapped(args, args.len() as int),
        !args[input as int].spec_is_virtual(),
        args[runtime as int].spec_is_virtual(),
    ensures
        ({
            let code = args_code(n, needs, args, args.len());
            code.args.tokens(code.deferred).tokens(call_tokens(n)) == parts.0 + arg_code(
                n,
                needs,
                args,
                input as int,
            ) + parts.1 + arg_code(n, needs, args, runtime as int) + parts.2 + call_tokens(n)
        }),
{
    let code = args_code(n, needs, args, args.len());
    let input_code = arg_code(n, needs, args, input as int);
    let runtime_code = arg_code(n, needs, args, runtime as int);
    law_inputs_in_order(n, needs, args, input, args.len());
    law_runtime_arguments_in_order(n, needs, args, runtime, args.len());
    let before = args_code(n, needs, args, input).args + extract_arg_tokens(
        n,
        input as int,
        input_count(args, input),
    );
    let deferred = args_code(n, needs, args, runtime).deferred;
    lemma_parts(code.args, code.deferred, call_tokens(n), before, input_code, deferred, runtime_code);
    (
        before,
        code.args.skip((before + input_code).len() as int) + deferred,
        code.deferred.skip((deferred + runtime_code).len() as int),
    )
}

/// What a declaration uses is declared too: the context for the isolate and for the op state, and
/// the arguments for the context. The scope and the isolate, which go by one name, are never
/// declared both, and one of them is where one of them is needed.
pub proof fn law_declarations_are_complete(needs: Needs)
    ensures
        needs.opstate ==> prologue_needs(needs).opctx,
        declares_isolate(needs) ==> prologue_needs(needs).opctx,
        prologue_needs(needs).opctx ==> prologue_needs(needs).args,
        !(needs.scope && declares_isolate(needs)),
        needs.scope || needs.isolate <==> needs.scope || declares_isolate(needs),
{
}

/// Each generated function declares the return value.
pub proof fn law_return_value_is_declared(
    config: MacroConfig,
    n: Names,
    needs: Needs,
    sig: ParsedSignature,
)
    requires
        is_immediate(sig.ret_val),
        dispatch_result(config, n, needs, sig) is Ok,
    ensures
        dispatch_needs(config, n, needs, sig).retval,
{
}

/// The code ends in `return;`.
pub open spec fn ends_in_return(code: Seq<Token>) -> bool {
    &&& code.len() >= 2
    &&& code[code.len() - 2] == Token::Ident("return"@)
    &&& code[code.len() - 1] == Token::Punct(';', false)
}

/// Code that throws leaves the function, so that nothing behind it runs.
pub proof fn law_throw_returns(n: Names, needs: Needs, message: Seq<char>)
    ensures
        ends_in_return(throw_exception_tokens(n, needs)),
        ends_in_return(throw_type_error_tokens(n, needs, message)),
        ends_in_return(throw_type_error_string_tokens(n, needs, message)),
        ends_in_return(throw_type_error_static_string_tokens(n, needs, message)),
{
}

/// The op is called with each of its arguments, by name, in their order.
pub proof fn law_call_passes_each_argument(args: Seq<Seq<char>>)
    ensures
        call_args_tokens(args) == Seq::new(
            2 * args.len(),
            |i: int|
                if i % 2 == 0 {
                    Token::Ident(args[i / 2])
                } else {
                    Token::Punct(',', false)
                },
        ),
    decreases args.len(),
{
    if args.len() > 0 {
        law_call_passes_each_argument(args.drop_last());
    }
}

/// Where the fast call may have left an error, the function throws it before it does anything but
/// declare names, and the context that it takes the error from is declared. Where the fast call
/// cannot have left one, there is no such code.
pub proof fn law_error_comes_first(
    config: MacroConfig,
    n: Names,
    needs: Needs,
    sig: ParsedSignature,
) -> (work: Seq<Token>)
    requires
        is_immediate(sig.ret_val),
        dispatch_result(config, n, needs, sig) is Ok,
    ensures
        dispatch_result(config, n, needs, sig)->Ok_0 == function_tokens(
            n,
            prologue_tokens(n, body_needs(config, n, needs, sig)),
            if config.fast && sig.ret_val is Result {
                pick_up_tokens(n, needs) + work
            } else {
                work
            },
        ),
        config.fast && sig.ret_val is Result ==> dispatch_needs(config, n, needs, sig).opctx,
        work == body_tokens(
            n,
            no_tokens(),
            signature_code(config, n, needs, sig),
            ret_val_result(n, signature_code(config, n, needs, sig).needs, sig.ret_val)->Ok_0,
        ),
{
    let code = signature_code(config, n, needs, sig);
    let return_code = ret_val_result(n, code.needs, sig.ret_val)->Ok_0;
    let work = body_tokens(n, no_tokens(), code, return_code);
    law_args_needs_only_grow(n, pick_up_needs(config, needs, sig), sig.args@, sig.args@.len());
    assert(body_tokens(n, pick_up_tokens(n, needs), code, return_code) =~= pick_up_tokens(n, needs)
        + work);
    work
}

} // verus!
