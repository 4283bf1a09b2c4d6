//! The function through which V8 calls the op.
use crate::config::MacroConfig;
use crate::dispatch_slow::args::{
    arg_needs, arg_result, extract_arg, extract_arg_tokens, from_arg, state_type_is_valid,
};
use crate::dispatch_slow::prologue::{
    fn_args_tokens, isolate_tokens, opctx_tokens, opstate_tokens, retval_tokens, scope_tokens,
    with_fn_args, with_isolate, with_opctx, with_opstate, with_retval, with_scope,
};
use crate::dispatch_slow::results::{is_immediate, ret_val_needs, ret_val_result, return_value};
use crate::dispatch_slow::throw::{throw_exception, throw_exception_tokens};
use crate::generator_state::{GeneratorState, Names, Needs};
use crate::signature::{
    Arg, Buffer, BufferMode, NumericArg, ParsedSignature, RefType, RetVal, Special, Strings,
};
use crate::token::{no_tokens, Token, TokenSeq};
use crate::token_stream::{parse_type, tokens_of, Quote};
use crate::words::lemma_words;
use crate::{is_result, V8MappingError};
use proc_macro2::TokenStream;
use vstd::prelude::*;

verus! {

/// A list of expressions with a comma behind each: `#name , #name , ..`
pub open spec fn call_args_tokens(args: Seq<Seq<char>>) -> Seq<Token>
    decreases args.len(),
{
    if args.len() == 0 {
        no_tokens()
    } else {
        call_args_tokens(args.drop_last()).name(args.last()).op(',')
    }
}

/// `Self::call( #args )`
pub open spec fn call_tokens(n: Names) -> Seq<Token> {
    no_tokens().word("Self").seg("call").parens(call_args_tokens(n.args))
}

/// The fast call of the op may have left an error for the slow call to throw.
pub open spec fn picks_up_error(config: MacroConfig, signature: ParsedSignature) -> bool {
    config.fast && signature.ret_val is Result
}

/// What is needed for picking up the error of the fast call, where there may be one.
pub open spec fn pick_up_needs(config: MacroConfig, needs: Needs, sig: ParsedSignature) -> Needs {
    if picks_up_error(config, sig) {
        Needs { opctx: true, ..needs }
    } else {
        needs
    }
}

/// `if let Some(err) = unsafe { opctx.unsafely_take_last_error_for_ops_only() } {
///     #throw_exception
/// }`
pub open spec fn take_error_tokens(throw_exception: Seq<Token>) -> Seq<Token> {
    no_tokens().word("if").word("let").word("Some").parens(no_tokens().word("err")).op('=').word(
        "unsafe",
    ).braces(
        no_tokens().word("opctx").dot("unsafely_take_last_error_for_ops_only").parens(no_tokens()),
    ).braces(throw_exception)
}

/// Throws the error that the fast call left, if it left one.
pub open spec fn pick_up_tokens(n: Names, needs: Needs) -> Seq<Token> {
    take_error_tokens(throw_exception_tokens(n, Needs { opctx: true, ..needs }))
}

/// There is code for an argument of this type.
pub open spec fn has_arg_mapping(arg: Arg) -> bool {
    match arg {
        Arg::Void => false,
        Arg::OptionString(strings) => strings == Strings::String,
        Arg::Buffer(buffer) => match buffer {
            Buffer::Slice(_, numeric) => numeric == NumericArg::U8,
            Buffer::Vec(numeric) => numeric == NumericArg::U8,
            Buffer::BoxSlice(numeric) => numeric == NumericArg::U8,
            Buffer::Bytes(mode) => mode == BufferMode::Copy,
            Buffer::BytesMut(_) => false,
            Buffer::JsBuffer(mode) => mode != BufferMode::Copy,
        },
        Arg::RcRefCell(special) => special == Special::OpState,
        Arg::V8Ref(ref_type, _) => ref_type == RefType::Ref,
        Arg::OptionV8Ref(ref_type, _) => ref_type == RefType::Ref,
        _ => true,
    }
}

/// There is code for each of the first `count` arguments.
pub open spec fn all_mapped(args: Seq<Arg>, count: int) -> bool {
    forall|i: int| 0 <= i < count ==> has_arg_mapping(#[trigger] args[i])
}

/// Each argument that comes to be handled has a name.
pub open spec fn names_suffice(names: nat, args: Seq<Arg>) -> bool {
    forall|i: int| names <= i < args.len() ==> !#[trigger] all_mapped(args, i)
}

/// Each argument that comes to be handled has a valid type, where it is a value in the op state.
pub open spec fn state_types_are_valid(args: Seq<Arg>) -> bool {
    forall|i: int|
        0 <= i < args.len() && #[trigger] all_mapped(args, i) ==> state_type_is_valid(args[i])
}

/// The code for the first arguments of a signature.
pub struct ArgsCode {
    /// What is needed.
    pub needs: Needs,
    /// The code for the arguments that the caller passes.
    pub args: Seq<Token>,
    /// The code for the arguments that come from the runtime.
    pub deferred: Seq<Token>,
    /// The number of arguments that the caller passes.
    pub inputs: nat,
    /// The error for the first argument that there is no code for.
    pub error: Option<V8MappingError>,
}

/// The code for the first `count` arguments: for one that the caller passes, the next value that it
/// passed is taken and converted; the code for one that comes from the runtime is collected apart.
pub open spec fn args_code(n: Names, needs: Needs, args: Seq<Arg>, count: nat) -> ArgsCode
    decreases count,
{
    if count == 0 {
        ArgsCode { needs, args: no_tokens(), deferred: no_tokens(), inputs: 0, error: None }
    } else {
        let index = count - 1;
        let before = args_code(n, needs, args, index as nat);
        let arg = args[index];
        let after = ArgsCode { needs: arg_needs(before.needs, arg), ..before };
        if before.error is Some {
            before
        } else {
            match arg_result(n, before.needs, n.args[index], arg) {
                Err(error) => ArgsCode { error: Some(error), ..after },
                Ok(code) => if arg.spec_is_virtual() {
                    ArgsCode { deferred: before.deferred.tokens(code), ..after }
                } else {
                    ArgsCode {
                        args: before.args.tokens(
                            extract_arg_tokens(n, index, before.inputs),
                        ).tokens(code),
                        inputs: before.inputs + 1,
                        ..after
                    }
                },
            }
        }
    }
}

/// The isolate is declared only where no scope is.
pub open spec fn declares_isolate(needs: Needs) -> bool {
    needs.isolate && !needs.scope
}

/// What is declared at the start of the function: what is needed, and what its declarations need.
pub open spec fn prologue_needs(needs: Needs) -> Needs {
    let opctx = needs.opctx || declares_isolate(needs) || needs.opstate;
    Needs { opctx, args: needs.args || opctx, ..needs }
}

/// `code`, where it is needed.
pub open spec fn tokens_if(needed: bool, code: Seq<Token>) -> Seq<Token> {
    if needed {
        code
    } else {
        no_tokens()
    }
}

/// The declarations at the start of the function, each behind those that it uses.
pub open spec fn prologue_tokens(n: Names, needs: Needs) -> Seq<Token> {
    let declared = prologue_needs(needs);
    no_tokens().tokens(tokens_if(needs.scope, scope_tokens(n))).tokens(
        tokens_if(needs.retval, retval_tokens(n)),
    ).tokens(tokens_if(declared.args, fn_args_tokens(n))).tokens(
        tokens_if(declared.opctx, opctx_tokens(n)),
    ).tokens(tokens_if(declares_isolate(needs), isolate_tokens(n))).tokens(
        tokens_if(needs.opstate, opstate_tokens(n)),
    )
}

/// The body of the function behind the declarations:
///
/// `#pick_up
/// let #result = { #args #deferred #call };
/// #return_code`
pub open spec fn body_tokens(
    n: Names,
    pick_up: Seq<Token>,
    code: ArgsCode,
    return_code: Seq<Token>,
) -> Seq<Token> {
    pick_up.tokens(
        no_tokens().bind(n.result).braces(
            code.args.tokens(code.deferred).tokens(call_tokens(n)),
        ).op(';'),
    ).tokens(return_code)
}

/// `extern "C" fn #slow_function(#info: *const #deno_core::v8::FunctionCallbackInfo) {
///     #prologue
///     #body
/// }`
pub open spec fn function_tokens(n: Names, prologue: Seq<Token>, body: Seq<Token>) -> Seq<Token> {
    no_tokens().word("extern").str_lit("C"@).word("fn").name(n.slow_function).parens(
        no_tokens().name(n.info).op(':').op('*').word("const").tokens(n.deno_core).seg("v8").seg(
            "FunctionCallbackInfo",
        ),
    ).braces(prologue.tokens(body))
}

/// The code for the arguments of the signature.
pub open spec fn signature_code(
    config: MacroConfig,
    n: Names,
    needs: Needs,
    sig: ParsedSignature,
) -> ArgsCode {
    args_code(n, pick_up_needs(config, needs, sig), sig.args@, sig.args@.len())
}

/// What the parts of the function need, or what the parts do that come before the one that there
/// is no code for.
pub open spec fn body_needs(
    config: MacroConfig,
    n: Names,
    needs: Needs,
    sig: ParsedSignature,
) -> Needs {
    let code = signature_code(config, n, needs, sig);
    if code.error is Some {
        code.needs
    } else {
        ret_val_needs(n, code.needs, sig.ret_val)
    }
}

/// The function for an op of this signature, or the error for the first part that there is no code
/// for.
pub open spec fn dispatch_result(
    config: MacroConfig,
    n: Names,
    needs: Needs,
    sig: ParsedSignature,
) -> Result<Seq<Token>, V8MappingError> {
    let pick_up = tokens_if(picks_up_error(config, sig), pick_up_tokens(n, needs));
    let code = signature_code(config, n, needs, sig);
    match code.error {
        Some(error) => Err(error),
        None => match ret_val_result(n, code.needs, sig.ret_val) {
            Err(error) => Err(error),
            Ok(return_code) => Ok(
                function_tokens(
                    n,
                    prologue_tokens(n, body_needs(config, n, needs, sig)),
                    body_tokens(n, pick_up, code, return_code),
                ),
            ),
        },
    }
}

/// What is needed in the end. Without a function there are no declarations that need anything.
pub open spec fn dispatch_needs(
    config: MacroConfig,
    n: Names,
    needs: Needs,
    sig: ParsedSignature,
) -> Needs {
    if dispatch_result(config, n, needs, sig) is Ok {
        prologue_needs(body_needs(config, n, needs, sig))
    } else {
        body_needs(config, n, needs, sig)
    }
}

/// There is code for an argument exactly where its type has a mapping.
pub proof fn lemma_arg_mapping(n: Names, needs: Needs, a: Seq<char>, arg: Arg)
    ensures
        arg_result(n, needs, a, arg) is Ok <==> has_arg_mapping(arg),
{
}

/// There is code for the first arguments exactly where each of their types has a mapping.
pub proof fn lemma_args_mapping(n: Names, needs: Needs, args: Seq<Arg>, count: nat)
    ensures
        args_code(n, needs, args, count).error is None <==> all_mapped(args, count as int),
    decreases count,
{
    if count > 0 {
        let before = args_code(n, needs, args, (count - 1) as nat);
        lemma_args_mapping(n, needs, args, (count - 1) as nat);
        lemma_arg_mapping(n, before.needs, n.args[count - 1], args[count - 1]);
    }
}

/// Nothing is added behind an argument that there is no code for.
pub proof fn lemma_args_error(n: Names, needs: Needs, args: Seq<Arg>, count: nat, all: nat)
    requires
        count <= all,
        args_code(n, needs, args, count).error is Some,
    ensures
        args_code(n, needs, args, all) == args_code(n, needs, args, count),
    decreases all,
{
    if count < all {
        lemma_args_error(n, needs, args, count, (all - 1) as nat);
    }
}

/// Generates the call of the op with all of its arguments.
pub fn call(generator_state: &mut GeneratorState) -> (r: Result<TokenStream, V8MappingError>)
    ensures
        *final(generator_state) == *old(generator_state),
        r is Ok,
        tokens_of(r->Ok_0) == call_tokens(old(generator_state).names()),
{
    proof {
        lemma_words();
    }
    let ghost names = generator_state.names();
    let mut tokens = Quote::new();
    let mut i: usize = 0;
    assert(names.args.take(0) =~= Seq::empty());
    while i < generator_state.args.len()
        invariant
            *generator_state == *old(generator_state),
            names == generator_state.names(),
            i <= generator_state.args@.len(),
            tokens@ == call_args_tokens(names.args.take(i as int)),
        decreases generator_state.args@.len() - i,
    {
        proof {
            let next = names.args.take(i + 1);
            assert(next.drop_last() =~= names.args.take(i as int));
            assert(next.last() == names.args[i as int]);
        }
        tokens = tokens.name(&generator_state.args[i]).op(',');
        i += 1;
    }
    assert(names.args.take(i as int) =~= names.args);
    Ok(Quote::new().word("Self").seg("call").parens(tokens).done())
}

/// Generates the code that throws the error that the fast call left, if there may be one.
fn pick_up_error(
    config: &MacroConfig,
    generator_state: &mut GeneratorState,
    signature: &ParsedSignature,
) -> (r: Result<TokenStream, V8MappingError>)
    ensures
        final(generator_state).follows(
            *old(generator_state),
            pick_up_needs(*config, old(generator_state).needs(), *signature),
        ),
        r is Ok,
        tokens_of(r->Ok_0) == tokens_if(
            picks_up_error(*config, *signature),
            pick_up_tokens(old(generator_state).names(), old(generator_state).needs()),
        ),
{
    proof {
        lemma_words();
    }
    // Fast ops require the slow op to check op_ctx for the last error
    if config.fast && matches!(signature.ret_val, RetVal::Result(_)) {
        generator_state.needs_opctx = true;
        let throw_exception = throw_exception(generator_state)?;
        // If the fast op returned an error, we must throw it rather than doing work.
        Ok(
            Quote::new().word("if").word("let").word("Some").parens(Quote::new().word("err")).op(
                '=',
            ).word("unsafe").braces(
                Quote::new().word("opctx").dot("unsafely_take_last_error_for_ops_only").parens(
                    Quote::new(),
                ),
            ).braces(Quote::of(throw_exception)).done(),
        )
    } else {
        Ok(Quote::new().done())
    }
}

/// Generates the code for the arguments: first that for the values that the caller passed, then
/// that for the objects of the runtime, so that the former can use the scope and the op state.
fn generate_args(generator_state: &mut GeneratorState, args: &Vec<Arg>) -> (r: Result<
    Quote,
    V8MappingError,
>)
    requires
        names_suffice(old(generator_state).args@.len(), args@),
        state_types_are_valid(args@),
    ensures
        ({
            let code = args_code(
                old(generator_state).names(),
                old(generator_state).needs(),
                args@,
                args@.len(),
            );
            &&& final(generator_state).follows(*old(generator_state), code.needs)
            &&& match code.error {
                None => r is Ok && r->Ok_0@ == code.args.tokens(code.deferred),
                Some(error) => r is Err && r->Err_0 == error,
            }
        }),
{
    let ghost names = generator_state.names();
    let ghost needs = generator_state.needs();
    let mut inputs = Quote::new();
    let mut deferred = Quote::new();
    let mut input_index: usize = 0;
    let mut index: usize = 0;
    while index < args.len()
        invariant
            names == old(generator_state).names(),
            needs == old(generator_state).needs(),
            names_suffice(old(generator_state).args@.len(), args@),
            state_types_are_valid(args@),
            index <= args@.len(),
            input_index <= index,
            ({
                let code = args_code(names, needs, args@, index as nat);
                &&& generator_state.follows(*old(generator_state), code.needs)
                &&& code.error is None
                &&& inputs@ == code.args
                &&& deferred@ == code.deferred
                &&& input_index == code.inputs
            }),
        decreases args@.len() - index,
    {
        proof {
            lemma_args_mapping(names, needs, args@, index as nat);
            if args_code(names, needs, args@, (index + 1) as nat).error is Some {
                lemma_args_error(names, needs, args@, (index + 1) as nat, args@.len());
            }
        }
        let arg = &args[index];
        if arg.is_virtual() {
            deferred = deferred.tokens(&from_arg(generator_state, index, arg)?);
        } else {
            inputs = inputs.tokens(&extract_arg(generator_state, index, input_index)?);
            inputs = inputs.tokens(&from_arg(generator_state, index, arg)?);
            input_index += 1;
        }
        index += 1;
    }
    Ok(inputs.tokens(&deferred.done()))
}

/// Generates the declarations at the start of the function.
fn generate_prologue(generator_state: &mut GeneratorState) -> (q: Quote)
    ensures
        final(generator_state).follows(
            *old(generator_state),
            prologue_needs(old(generator_state).needs()),
        ),
        q@ == prologue_tokens(old(generator_state).names(), old(generator_state).needs()),
{
    // We only generate the isolate if we need it but don't need a scope. We call it `scope`.
    let with_isolate = if generator_state.needs_isolate && !generator_state.needs_scope {
        with_isolate(generator_state)
    } else {
        Quote::new().done()
    };
    let with_scope = if generator_state.needs_scope {
        with_scope(generator_state)
    } else {
        Quote::new().done()
    };
    let with_opstate = if generator_state.needs_opstate {
        with_opstate(generator_state)
    } else {
        Quote::new().done()
    };
    let with_opctx = if generator_state.needs_opctx {
        with_opctx(generator_state)
    } else {
        Quote::new().done()
    };
    let with_retval = if generator_state.needs_retval {
        with_retval(generator_state)
    } else {
        Quote::new().done()
    };
    let with_args = if generator_state.needs_args {
        with_fn_args(generator_state)
    } else {
        Quote::new().done()
    };
    Quote::new().tokens(&with_scope).tokens(&with_retval).tokens(&with_args).tokens(
        &with_opctx,
    ).tokens(&with_isolate).tokens(&with_opstate)
}

/// Generates the function through which V8 calls an op of the given signature. The state has a name
/// for each argument, the type of a value in the op state is a type of Rust, and the result is
/// there when the op returns: this holds up to the first part that there is no code for.
pub fn generate_dispatch_slow(
    config: &MacroConfig,
    generator_state: &mut GeneratorState,
    signature: &ParsedSignature,
) -> (r: Result<TokenStream, V8MappingError>)
    requires
        names_suffice(old(generator_state).args@.len(), signature.args@),
        state_types_are_valid(signature.args@),
        all_mapped(signature.args@, signature.args@.len() as int) ==> is_immediate(
            signature.ret_val,
        ),
    ensures
        final(generator_state).follows(
            *old(generator_state),
            dispatch_needs(
                *config,
                old(generator_state).names(),
                old(generator_state).needs(),
                *signature,
            ),
        ),
        is_result(
            r,
            dispatch_result(
                *config,
                old(generator_state).names(),
                old(generator_state).needs(),
                *signature,
            ),
        ),
{
    proof {
        lemma_words();
        lemma_args_mapping(
            generator_state.names(),
            pick_up_needs(*config, generator_state.needs(), *signature),
            signature.args@,
            signature.args@.len(),
        );
    }
    let pick_up = pick_up_error(config, generator_state, signature)?;
    let args = generate_args(generator_state, &signature.args)?;
    let args = args.tokens(&call(generator_state)?);
    let output = Quote::of(pick_up).tokens(
        &Quote::new().bind(&generator_state.result).braces(args).op(';').done(),
    );
    let output = output.tokens(&return_value(generator_state, &signature.ret_val)?);
    let prologue = generate_prologue(generator_state);
    Ok(
        Quote::new().word("extern").str_lit("C").word("fn").name(
            &generator_state.slow_function,
        ).parens(
            Quote::new().name(&generator_state.info).op(':').op('*').word("const").tokens(
                &generator_state.deno_core,
            ).seg("v8").seg("FunctionCallbackInfo"),
        ).braces(prologue.tokens(&output.done())).done(),
    )
}

/// The types of the values in the op state are types of Rust, up to the first argument that there
/// is no code for.
fn check_state_types(args: &Vec<Arg>) -> (b: bool)
    ensures
        b == state_types_are_valid(args@),
{
    let mut index: usize = 0;
    while index < args.len()
        invariant
            index <= args@.len(),
            all_mapped(args@, index as int),
            forall|i: int| 0 <= i < index ==> state_type_is_valid(#[trigger] args@[i]),
        decreases args@.len() - index,
    {
        let valid = match &args[index] {
            Arg::State(_, state) => parse_type(state.as_str()).is_some(),
            Arg::OptionState(_, state) => parse_type(state.as_str()).is_some(),
            _ => true,
        };
        if !valid {
            assert(!state_type_is_valid(args@[index as int]));
            return false;
        }
        if !is_mapped(&args[index]) {
            assert forall|i: int| 0 <= i < args@.len() && #[trigger] all_mapped(args@, i) implies
                state_type_is_valid(args@[i]) by {
                assert(!has_arg_mapping(args@[index as int]));
            }
            return true;
        }
        index += 1;
    }
    true
}

/// There is code for an argument of this type.
fn is_mapped(arg: &Arg) -> (b: bool)
    ensures
        b == has_arg_mapping(*arg),
{
    match arg {
        Arg::Void => false,
        Arg::OptionString(strings) => *strings == Strings::String,
        Arg::Buffer(buffer) => match buffer {
            Buffer::Slice(_, numeric) => *numeric == NumericArg::U8,
            Buffer::Vec(numeric) => *numeric == NumericArg::U8,
            Buffer::BoxSlice(numeric) => *numeric == NumericArg::U8,
            Buffer::Bytes(mode) => *mode == BufferMode::Copy,
            Buffer::BytesMut(_) => false,
            Buffer::JsBuffer(mode) => *mode != BufferMode::Copy,
        },
        Arg::RcRefCell(special) => *special == Special::OpState,
        Arg::V8Ref(ref_type, _) => *ref_type == RefType::Ref,
        Arg::OptionV8Ref(ref_type, _) => *ref_type == RefType::Ref,
        _ => true,
    }
}

/// Generates the function as `generate_dispatch_slow` does, where the types of the values in the
/// op state are types of Rust. Where one is not, gives `None` and leaves the state as it is.
pub fn try_generate_dispatch_slow(
    config: &MacroConfig,
    generator_state: &mut GeneratorState,
    signature: &ParsedSignature,
) -> (r: Option<Result<TokenStream, V8MappingError>>)
    requires
        names_suffice(old(generator_state).args@.len(), signature.args@),
        all_mapped(signature.args@, signature.args@.len() as int) ==> is_immediate(
            signature.ret_val,
        ),
    ensures
        r is Some <==> state_types_are_valid(signature.args@),
        r is None ==> *final(generator_state) == *old(generator_state),
        r is Some ==> final(generator_state).follows(
            *old(generator_state),
            dispatch_needs(
                *config,
                old(generator_state).names(),
                old(generator_state).needs(),
                *signature,
            ),
        ),
        r is Some ==> is_result(
            r->0,
            dispatch_result(
                *config,
                old(generator_state).names(),
                old(generator_state).needs(),
                *signature,
            ),
        ),
{
    if check_state_types(&signature.args) {
        Some(generate_dispatch_slow(config, generator_state, signature))
    } else {
        None
    }
}

} // verus!
