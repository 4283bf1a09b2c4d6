//! Code that turns the values that the caller passed, and the objects of the runtime, into the
//! arguments of the op.
use crate::dispatch_shared::{
    is_v8_global, is_v8_local, v8_global_value_tokens, v8_intermediate_to_arg,
    v8_intermediate_to_global_arg, v8_local_value_tokens, v8_to_arg, v8_to_arg_tokens,
};
use crate::dispatch_slow::throw::{
    is_plain_message, throw_type_error, throw_type_error_static_string,
    throw_type_error_static_string_tokens, throw_type_error_string, throw_type_error_string_tokens,
    throw_type_error_tokens,
};
use crate::generator_state::{GeneratorState, Names, Needs};
use crate::signature::{
    Arg, Buffer, BufferMode, External, NumericArg, RefType, Special, Strings, V8Arg,
};
use crate::token::{all_word_chars, no_tokens, unraw, Token, TokenSeq};
use crate::token_stream::{
    ident_clone, ident_new, ident_suffixed, ident_text, parse_type, tokens_of, type_tokens, Quote,
};
use crate::words::lemma_words;
use crate::{is_result, V8MappingError};
use proc_macro2::{Ident, TokenStream};
use vstd::prelude::*;

verus! {

/// `let #arg_ident = #fn_args.get(#input_index as i32);`
///
/// Where there is no argument of this index, the name is missing from the code.
pub open spec fn extract_arg_tokens(n: Names, index: int, input_index: nat) -> Seq<Token> {
    let start = if index < n.args.len() {
        no_tokens().word("let").name(n.args[index])
    } else {
        no_tokens().word("let")
    };
    start.op('=').name(n.fn_args).dot("get").parens(
        no_tokens().usize_lit(input_index).word("as").word("i32"),
    ).op(';')
}

/// `let Some(#arg_ident) = #deno_core::_ops::to_#numeric_option(&#arg_ident) else {
///     #exception
/// };
/// let #arg_ident = #arg_ident as _;`
pub open spec fn convert_arg_tokens(
    n: Names,
    arg_ident: Seq<char>,
    numeric: Seq<char>,
    exception: Seq<Token>,
) -> Seq<Token> {
    no_tokens().word("let").word("Some").parens(no_tokens().name(arg_ident)).op('=').tokens(
        n.deno_core,
    ).seg("_ops").op2(':', ':').name("to_"@ + numeric + "_option"@).parens(
        no_tokens().op('&').name(arg_ident),
    ).word("else").braces(exception).op(';').bind(arg_ident).name(arg_ident).word("as").word(
        "_",
    ).op(';')
}

/// Converts an argument, and throws where that is not possible.
pub open spec fn from_arg_option_tokens(
    n: Names,
    needs: Needs,
    arg_ident: Seq<char>,
    numeric: Seq<char>,
) -> Seq<Token> {
    convert_arg_tokens(
        n,
        arg_ident,
        numeric,
        throw_type_error_tokens(n, needs, "expected "@ + numeric),
    )
}

/// The name of the conversion from a value to a number of this kind. Booleans have none.
pub open spec fn numeric_conversion(numeric: NumericArg) -> Seq<char> {
    match numeric {
        NumericArg::Bool => Seq::empty(),
        NumericArg::U8 | NumericArg::U16 | NumericArg::U32 => "u32"@,
        NumericArg::I8 | NumericArg::I16 | NumericArg::I32 | NumericArg::Smi => "i32"@,
        NumericArg::U64 | NumericArg::Usize => "u64"@,
        NumericArg::I64 | NumericArg::Isize => "i64"@,
        NumericArg::F32 => "f32"@,
        NumericArg::F64 => "f64"@,
    }
}

/// `let #arg_ident = #arg_ident.is_true();` for a boolean, and a conversion with a check for any
/// other number.
pub open spec fn numeric_arg_tokens(
    n: Names,
    needs: Needs,
    arg_ident: Seq<char>,
    numeric: NumericArg,
) -> Seq<Token> {
    if numeric == NumericArg::Bool {
        no_tokens().bind(arg_ident).name(arg_ident).dot("is_true").parens(no_tokens()).op(';')
    } else {
        from_arg_option_tokens(n, needs, arg_ident, numeric_conversion(numeric))
    }
}

/// `let #arg_ident = if #arg_ident.is_null_or_undefined() { None } else { #some };`
pub open spec fn optional_arg_tokens(arg_ident: Seq<char>, some: Seq<Token>) -> Seq<Token> {
    no_tokens().bind(arg_ident).word("if").name(arg_ident).dot("is_null_or_undefined").parens(
        no_tokens(),
    ).braces(no_tokens().word("None")).word("else").braces(some).op(';')
}

/// `#deno_core::_ops::to_string(&mut #scope, &#arg_ident)`
pub open spec fn to_string_tokens(n: Names, arg_ident: Seq<char>) -> Seq<Token> {
    no_tokens().tokens(n.deno_core).seg("_ops").seg("to_string").parens(
        no_tokens().mut_ref(n.scope).op(',').op('&').name(arg_ident),
    )
}

/// `None` for a value that is not there, and for one that is there `Some` of what the code for a
/// number makes of it.
pub open spec fn option_numeric_arg_tokens(
    n: Names,
    needs: Needs,
    arg_ident: Seq<char>,
    numeric: NumericArg,
) -> Seq<Token> {
    optional_arg_tokens(
        arg_ident,
        numeric_arg_tokens(n, needs, arg_ident, numeric).word("Some").parens(
            no_tokens().name(arg_ident),
        ),
    )
}

/// `None` for a value that is not there, and `Some` of the string for one that is there.
pub open spec fn option_string_arg_tokens(n: Names, arg_ident: Seq<char>) -> Seq<Token> {
    optional_arg_tokens(
        arg_ident,
        no_tokens().word("Some").parens(to_string_tokens(n, arg_ident)),
    )
}

/// `let mut #arg_temp: [::std::mem::MaybeUninit<u8>; #deno_core::_ops::STRING_STACK_BUFFER_SIZE]
///     = [::std::mem::MaybeUninit::uninit(); #deno_core::_ops::STRING_STACK_BUFFER_SIZE];`
pub open spec fn string_buffer_tokens(n: Names, arg_temp: Seq<char>) -> Seq<Token> {
    no_tokens().word("let").word("mut").name(arg_temp).op(':').brackets(
        no_tokens().seg("std").seg("mem").seg("MaybeUninit").op('<').word("u8").op('>').op(
            ';',
        ).tokens(n.deno_core).seg("_ops").seg("STRING_STACK_BUFFER_SIZE"),
    ).op('=').brackets(
        no_tokens().seg("std").seg("mem").seg("MaybeUninit").seg("uninit").parens(no_tokens()).op(
            ';',
        ).tokens(n.deno_core).seg("_ops").seg("STRING_STACK_BUFFER_SIZE"),
    ).op(';')
}

/// `#deno_core::_ops::to_str(&mut #scope, &#arg_ident, &mut #arg_temp)`
pub open spec fn to_str_tokens(n: Names, arg_ident: Seq<char>, arg_temp: Seq<char>) -> Seq<Token> {
    no_tokens().tokens(n.deno_core).seg("_ops").seg("to_str").parens(
        no_tokens().mut_ref(n.scope).op(',').op('&').name(arg_ident).op(',').mut_ref(arg_temp),
    )
}

/// `Ok(#ok) => #ok, Err(#err) => { #throw }`
pub open spec fn ok_or_throw_tokens(
    ok: Seq<char>,
    err: Seq<char>,
    throw: Seq<Token>,
) -> Seq<Token> {
    no_tokens().word("Ok").parens(no_tokens().name(ok)).op2('=', '>').name(ok).op(',').word(
        "Err",
    ).parens(no_tokens().name(err)).op2('=', '>').braces(throw)
}

/// `let #arg_ident = match #deno_core::_ops::to_cow_one_byte(&mut #scope, &#arg_ident) {
///     Ok(#arg_ident) => #arg_ident,
///     Err(#arg_ident) => { #throw_exception }
/// };`
pub open spec fn cow_byte_arg_tokens(
    n: Names,
    arg_ident: Seq<char>,
    throw_exception: Seq<Token>,
) -> Seq<Token> {
    no_tokens().bind(arg_ident).word("match").tokens(n.deno_core).seg("_ops").seg(
        "to_cow_one_byte",
    ).parens(no_tokens().mut_ref(n.scope).op(',').op('&').name(arg_ident)).braces(
        ok_or_throw_tokens(arg_ident, arg_ident, throw_exception),
    ).op(';')
}

/// The code for an argument of a string type.
pub open spec fn string_arg_tokens(
    n: Names,
    needs: Needs,
    arg_ident: Seq<char>,
    strings: Strings,
) -> Seq<Token> {
    let arg_temp = unraw(arg_ident) + "_temp"@;
    match strings {
        Strings::String => no_tokens().bind(arg_ident).tokens(to_string_tokens(n, arg_ident)).op(
            ';',
        ),
        Strings::RefStr => no_tokens().tokens(string_buffer_tokens(n, arg_temp)).bind(arg_ident).op(
            '&',
        ).tokens(to_str_tokens(n, arg_ident, arg_temp)).op(';'),
        Strings::CowStr => no_tokens().tokens(string_buffer_tokens(n, arg_temp)).bind(
            arg_ident,
        ).tokens(to_str_tokens(n, arg_ident, arg_temp)).op(';'),
        Strings::CowByte => cow_byte_arg_tokens(
            n,
            arg_ident,
            throw_type_error_static_string_tokens(n, needs, arg_ident),
        ),
    }
}

/// `let mut #arg_ident =
///     match unsafe { #deno_core::_ops::#to_v8_slice::<#deno_core::v8::#array>(
///         &mut #scope, #arg_ident) } {
///     Ok(#arg_ident) => #arg_ident,
///     Err(#err) => { #throw_exception }
/// };`
pub open spec fn make_v8_slice_tokens(
    n: Names,
    arg_ident: Seq<char>,
    buffer: Buffer,
    throw_exception: Seq<Token>,
) -> Seq<Token> {
    let err = unraw(arg_ident) + "_err"@;
    let to_v8_slice = if buffer == Buffer::JsBuffer(BufferMode::Detach) {
        "to_v8_slice_detachable"
    } else {
        "to_v8_slice"
    };
    no_tokens().bind_mut(arg_ident).word("match").word("unsafe").braces(
        no_tokens().tokens(n.deno_core).seg("_ops").seg(to_v8_slice).op2(':', ':').op('<').tokens(
            n.deno_core,
        ).seg("v8").op2(':', ':').name(V8Arg::Uint8Array.spec_name()).op('>').parens(
            no_tokens().mut_ref(n.scope).op(',').name(arg_ident),
        ),
    ).braces(
        ok_or_throw_tokens(arg_ident, err, throw_exception),
    ).op(';')
}

/// The step from the V8 slice to the argument, for the buffer types that there is one for.
pub open spec fn make_buffer_tokens(n: Names, a: Seq<char>, buffer: Buffer) -> Option<Seq<Token>> {
    match buffer {
        // let #a = &mut #a;
        Buffer::Slice(_, NumericArg::U8) => Some(no_tokens().bind(a).mut_ref(a).op(';')),
        // let #a = #a.to_vec();
        Buffer::Vec(NumericArg::U8) => Some(
            no_tokens().bind(a).name(a).dot("to_vec").parens(no_tokens()).op(';'),
        ),
        // let #a = #a.to_boxed_slice();
        Buffer::BoxSlice(NumericArg::U8) => Some(
            no_tokens().bind(a).name(a).dot("to_boxed_slice").parens(no_tokens()).op(';'),
        ),
        // let #a = #a.to_vec().into();
        Buffer::Bytes(BufferMode::Copy) => Some(
            no_tokens().bind(a).name(a).dot("to_vec").parens(no_tokens()).dot("into").parens(
                no_tokens(),
            ).op(';'),
        ),
        // let #a = #deno_core::serde_v8::JsBuffer::from_parts(#a);
        Buffer::JsBuffer(BufferMode::Default | BufferMode::Detach) => Some(
            no_tokens().bind(a).tokens(n.deno_core).seg("serde_v8").seg("JsBuffer").seg(
                "from_parts",
            ).parens(no_tokens().name(a)).op(';'),
        ),
        _ => None,
    }
}

/// The code for an argument of a buffer type, or the error for a type that there is none for.
pub open spec fn buffer_arg_result(
    n: Names,
    needs: Needs,
    arg_ident: Seq<char>,
    buffer: Buffer,
) -> Result<Seq<Token>, V8MappingError> {
    match make_buffer_tokens(n, arg_ident, buffer) {
        Some(make_arg) => Ok(
            no_tokens().tokens(
                make_v8_slice_tokens(
                    n,
                    arg_ident,
                    buffer,
                    throw_type_error_static_string_tokens(n, needs, unraw(arg_ident) + "_err"@),
                ),
            ).tokens(make_arg),
        ),
        None => Err(V8MappingError::NoMapping("a buffer argument", Arg::Buffer(buffer))),
    }
}

/// `let #arg_ident = #opstate.borrow();
/// let #arg_ident = #arg_ident.#borrow::<#state>();`
///
/// A mutable reference is taken with `let mut` and `borrow_mut`.
pub open spec fn state_arg_tokens(
    n: Names,
    arg_ident: Seq<char>,
    ref_type: RefType,
    optional: bool,
    state: Seq<char>,
) -> Seq<Token> {
    let borrow = match ref_type {
        RefType::Ref => if optional {
            "try_borrow"
        } else {
            "borrow"
        },
        RefType::Mut => if optional {
            "try_borrow_mut"
        } else {
            "borrow_mut"
        },
    };
    let start = match ref_type {
        RefType::Ref => no_tokens().bind(arg_ident).name(n.opstate).dot("borrow"),
        RefType::Mut => no_tokens().bind_mut(arg_ident).name(n.opstate).dot("borrow_mut"),
    };
    start.parens(no_tokens()).op(';').bind(arg_ident).name(arg_ident).dot(borrow).op2(':', ':').op(
        '<',
    ).tokens(type_tokens(state)->0).op('>').parens(no_tokens()).op(';')
}

/// The code for an argument that is a reference to an object of the runtime.
pub open spec fn ref_arg_tokens(
    n: Names,
    a: Seq<char>,
    ref_type: RefType,
    special: Special,
) -> Seq<Token> {
    match (ref_type, special) {
        // let #a = &mut #scope;
        (_, Special::HandleScope) => no_tokens().bind(a).mut_ref(n.scope).op(';'),
        // let #a = &#opstate.borrow();
        (RefType::Ref, Special::OpState) => no_tokens().bind(a).op('&').name(n.opstate).dot(
            "borrow",
        ).parens(no_tokens()).op(';'),
        // let #a = &mut #opstate.borrow_mut();
        (RefType::Mut, Special::OpState) => no_tokens().bind(a).mut_ref(n.opstate).dot(
            "borrow_mut",
        ).parens(no_tokens()).op(';'),
    }
}

/// `let #a = #opstate.clone();`
pub open spec fn rc_state_arg_tokens(n: Names, a: Seq<char>) -> Seq<Token> {
    no_tokens().bind(a).name(n.opstate).dot("clone").parens(no_tokens()).op(';')
}

/// The code for an argument that is a V8 value.
pub open spec fn v8_arg_tokens(
    n: Names,
    needs: Needs,
    arg_ident: Seq<char>,
    v8: V8Arg,
    arg: Arg,
) -> Seq<Token> {
    let value = if is_v8_global(arg) {
        v8_global_value_tokens(n.deno_core, n.scope, arg_ident, arg)
    } else {
        v8_local_value_tokens(arg_ident, arg)
    };
    v8_to_arg_tokens(
        v8,
        arg_ident,
        arg,
        n.deno_core,
        throw_type_error_tokens(n, needs, "expected "@ + v8.spec_name()),
        no_tokens().bind(arg_ident).tokens(value).op(';'),
    )
}

/// `let #arg_ident = match #deno_core::_ops::serde_v8_to_rust(&mut #scope, #arg_ident) {
///     Ok(t) => t,
///     Err(#err) => { #throw_exception; }
/// };`
pub open spec fn deserialize_arg_tokens(
    n: Names,
    arg_ident: Seq<char>,
    err: Seq<char>,
    throw_exception: Seq<Token>,
) -> Seq<Token> {
    no_tokens().bind(arg_ident).word("match").tokens(n.deno_core).seg("_ops").seg(
        "serde_v8_to_rust",
    ).parens(no_tokens().mut_ref(n.scope).op(',').name(arg_ident)).braces(
        ok_or_throw_tokens("t"@, err, throw_exception.op(';')),
    ).op(';')
}

/// The code for an argument that is converted by serialization.
pub open spec fn serde_arg_tokens(n: Names, needs: Needs, arg_ident: Seq<char>) -> Seq<Token> {
    let err = unraw(arg_ident) + "_err"@;
    deserialize_arg_tokens(n, arg_ident, err, throw_type_error_string_tokens(n, needs, err))
}

/// What is needed once the code for the argument is there.
pub open spec fn arg_needs(needs: Needs, arg: Arg) -> Needs {
    match arg {
        // Only the isolate, not a full scope.
        Arg::String(_)
        | Arg::OptionString(Strings::String)
        | Arg::V8Global(_)
        | Arg::OptionV8Global(_) => Needs { isolate: true, ..needs },
        Arg::Buffer(_) | Arg::Ref(_, Special::HandleScope) | Arg::SerdeV8(_) => Needs {
            scope: true,
            ..needs
        },
        Arg::Ref(_, Special::OpState)
        | Arg::RcRefCell(Special::OpState)
        | Arg::State(_, _)
        | Arg::OptionState(_, _) => Needs { opstate: true, ..needs },
        _ => needs,
    }
}

/// The code for the argument with the name `a`, or the error for a type that there is none for.
pub open spec fn arg_result(n: Names, needs: Needs, a: Seq<char>, arg: Arg) -> Result<
    Seq<Token>,
    V8MappingError,
> {
    match arg {
        Arg::Numeric(numeric) => Ok(numeric_arg_tokens(n, needs, a, numeric)),
        Arg::OptionNumeric(numeric) => Ok(option_numeric_arg_tokens(n, needs, a, numeric)),
        Arg::OptionString(Strings::String) => Ok(option_string_arg_tokens(n, a)),
        Arg::String(strings) => Ok(string_arg_tokens(n, needs, a, strings)),
        Arg::Buffer(buffer) => buffer_arg_result(n, needs, a, buffer),
        Arg::External(External::Ptr(_)) => Ok(from_arg_option_tokens(n, needs, a, "external"@)),
        Arg::Ref(ref_type, special) => Ok(ref_arg_tokens(n, a, ref_type, special)),
        Arg::RcRefCell(Special::OpState) => Ok(rc_state_arg_tokens(n, a)),
        Arg::State(ref_type, state) => Ok(state_arg_tokens(n, a, ref_type, false, state@)),
        Arg::OptionState(ref_type, state) => Ok(state_arg_tokens(n, a, ref_type, true, state@)),
        Arg::V8Local(v8)
        | Arg::OptionV8Local(v8)
        | Arg::V8Ref(RefType::Ref, v8)
        | Arg::OptionV8Ref(RefType::Ref, v8)
        | Arg::V8Global(v8)
        | Arg::OptionV8Global(v8) => Ok(v8_arg_tokens(n, needs, a, v8, arg)),
        Arg::SerdeV8(_) => Ok(serde_arg_tokens(n, arg_needs(needs, arg), a)),
        _ => Err(V8MappingError::NoMapping("a slow argument", arg)),
    }
}

/// The text of the type of an op state value is a type.
pub open spec fn state_type_is_valid(arg: Arg) -> bool {
    match arg {
        Arg::State(_, state) => type_tokens(state@) is Some,
        Arg::OptionState(_, state) => type_tokens(state@) is Some,
        _ => true,
    }
}

/// Takes the argument of the given index from the values that the caller passed, where it has the
/// index `input_index`.
pub fn extract_arg(generator_state: &mut GeneratorState, index: usize, input_index: usize) -> (r:
    Result<TokenStream, V8MappingError>)
    ensures
        *final(generator_state) == *old(generator_state),
        r is Ok,
        tokens_of(r->Ok_0) == extract_arg_tokens(
            old(generator_state).names(),
            index as int,
            input_index as nat,
        ),
{
    proof {
        lemma_words();
    }
    let start = if index < generator_state.args.len() {
        Quote::new().word("let").name(&generator_state.args[index])
    } else {
        Quote::new().word("let")
    };
    Ok(
        start.op('=').name(&generator_state.fn_args).dot("get").parens(
            Quote::new().usize_lit(input_index).word("as").word("i32"),
        ).op(';').done(),
    )
}

/// `expected #what`
fn expected(what: &str) -> (message: String)
    requires
        all_word_chars(what@),
        what@.len() < 1015,
    ensures
        message@ == "expected "@ + what@,
        is_plain_message(message@),
{
    proof {
        reveal_strlit("expected ");
    }
    let mut message: String = "expected ".to_owned();
    message.append(what);
    message
}

/// Converts an argument using a simple `to_XXX_option`-style method.
pub fn from_arg_option(generator_state: &mut GeneratorState, arg_ident: &Ident, numeric: &str) -> (r:
    Result<TokenStream, V8MappingError>)
    requires
        all_word_chars(numeric@),
        numeric@.len() < 1015,
    ensures
        *final(generator_state) == *old(generator_state),
        r is Ok,
        tokens_of(r->Ok_0) == from_arg_option_tokens(
            old(generator_state).names(),
            old(generator_state).needs(),
            ident_text(*arg_ident),
            numeric@,
        ),
{
    proof {
        lemma_words();
        reveal_strlit("to_");
        reveal_strlit("_option");
    }
    let exception = throw_type_error(generator_state, expected(numeric))?;
    let mut convert: String = "to_".to_owned();
    convert.append(numeric);
    convert.append("_option");
    Ok(
        Quote::new().word("let").word("Some").parens(Quote::new().name(arg_ident)).op('=').tokens(
            &generator_state.deno_core,
        ).seg("_ops").op2(':', ':').word(convert.as_str()).parens(
            Quote::new().op('&').name(arg_ident),
        ).word("else").braces(Quote::of(exception)).op(';').bind(arg_ident).name(arg_ident).word(
            "as",
        ).word("_").op(';').done(),
    )
}

/// Converts an argument to a number.
fn from_arg_numeric(
    generator_state: &mut GeneratorState,
    arg_ident: &Ident,
    numeric: NumericArg,
) -> (r: Result<TokenStream, V8MappingError>)
    ensures
        *final(generator_state) == *old(generator_state),
        r is Ok,
        tokens_of(r->Ok_0) == numeric_arg_tokens(
            old(generator_state).names(),
            old(generator_state).needs(),
            ident_text(*arg_ident),
            numeric,
        ),
{
    proof {
        lemma_words();
        lemma_conversions();
    }
    match numeric {
        NumericArg::Bool => Ok(
            Quote::new().bind(arg_ident).name(arg_ident).dot("is_true").parens(Quote::new()).op(
                ';',
            ).done(),
        ),
        NumericArg::U8 | NumericArg::U16 | NumericArg::U32 => from_arg_option(
            generator_state,
            arg_ident,
            "u32",
        ),
        NumericArg::I8 | NumericArg::I16 | NumericArg::I32 | NumericArg::Smi => from_arg_option(
            generator_state,
            arg_ident,
            "i32",
        ),
        NumericArg::U64 | NumericArg::Usize => from_arg_option(generator_state, arg_ident, "u64"),
        NumericArg::I64 | NumericArg::Isize => from_arg_option(generator_state, arg_ident, "i64"),
        NumericArg::F32 => from_arg_option(generator_state, arg_ident, "f32"),
        NumericArg::F64 => from_arg_option(generator_state, arg_ident, "f64"),
    }
}

/// The names of the conversions are short.
proof fn lemma_conversions()
    ensures
        "u32"@.len() == 3,
        "i32"@.len() == 3,
        "u64"@.len() == 3,
        "i64"@.len() == 3,
        "f32"@.len() == 3,
        "f64"@.len() == 3,
        "external"@.len() == 8,
        all_word_chars("external"@),
{
    reveal_strlit("u32");
    reveal_strlit("i32");
    reveal_strlit("u64");
    reveal_strlit("i64");
    reveal_strlit("f32");
    reveal_strlit("f64");
    reveal_strlit("external");
}

/// `let #arg_ident = if #arg_ident.is_null_or_undefined() { None } else { #some };`
fn optional_arg(arg_ident: &Ident, some: Quote) -> (stream: TokenStream)
    ensures
        tokens_of(stream) == optional_arg_tokens(ident_text(*arg_ident), some@),
{
    proof {
        lemma_words();
    }
    Quote::new().bind(arg_ident).word("if").name(arg_ident).dot("is_null_or_undefined").parens(
        Quote::new(),
    ).braces(Quote::new().word("None")).word("else").braces(some).op(';').done()
}

/// `#deno_core::_ops::to_string(&mut #scope, &#arg_ident)`
fn to_string(generator_state: &GeneratorState, arg_ident: &Ident) -> (q: Quote)
    ensures
        q@ == to_string_tokens(generator_state.names(), ident_text(*arg_ident)),
{
    proof {
        lemma_words();
    }
    Quote::new().tokens(&generator_state.deno_core).seg("_ops").seg("to_string").parens(
        Quote::new().mut_ref(&generator_state.scope).op(',').op('&').name(arg_ident),
    )
}

/// Converts an argument to a number, if it is there.
fn from_arg_option_numeric(
    generator_state: &mut GeneratorState,
    arg_ident: &Ident,
    numeric: NumericArg,
) -> (r: Result<TokenStream, V8MappingError>)
    ensures
        *final(generator_state) == *old(generator_state),
        r is Ok,
        tokens_of(r->Ok_0) == option_numeric_arg_tokens(
            old(generator_state).names(),
            old(generator_state).needs(),
            ident_text(*arg_ident),
            numeric,
        ),
{
    proof {
        lemma_words();
    }
    let some = from_arg_numeric(generator_state, arg_ident, numeric)?;
    let some = Quote::of(some).word("Some").parens(Quote::new().name(arg_ident));
    Ok(optional_arg(arg_ident, some))
}

/// Converts an argument to a string, if it is there.
fn from_arg_option_string(generator_state: &mut GeneratorState, arg_ident: &Ident) -> (stream:
    TokenStream)
    ensures
        final(generator_state).follows(
            *old(generator_state),
            Needs { isolate: true, ..old(generator_state).needs() },
        ),
        tokens_of(stream) == option_string_arg_tokens(
            old(generator_state).names(),
            ident_text(*arg_ident),
        ),
{
    proof {
        lemma_words();
    }
    // Only requires isolate, not a full scope
    generator_state.needs_isolate = true;
    let value = to_string(generator_state, arg_ident);
    optional_arg(arg_ident, Quote::new().word("Some").parens(value))
}

/// Declares the buffer `#arg_temp` on the stack.
fn string_buffer(generator_state: &GeneratorState, arg_temp: &Ident) -> (q: Quote)
    ensures
        q@ == string_buffer_tokens(generator_state.names(), ident_text(*arg_temp)),
{
    proof {
        lemma_words();
    }
    let deno_core = &generator_state.deno_core;
    Quote::new().word("let").word("mut").name(arg_temp).op(':').brackets(
        Quote::new().seg("std").seg("mem").seg("MaybeUninit").op('<').word("u8").op('>').op(
            ';',
        ).tokens(deno_core).seg("_ops").seg("STRING_STACK_BUFFER_SIZE"),
    ).op('=').brackets(
        Quote::new().seg("std").seg("mem").seg("MaybeUninit").seg("uninit").parens(
            Quote::new(),
        ).op(';').tokens(deno_core).seg("_ops").seg("STRING_STACK_BUFFER_SIZE"),
    ).op(';')
}

/// `#deno_core::_ops::to_str(&mut #scope, &#arg_ident, &mut #arg_temp)`
fn to_str(generator_state: &GeneratorState, arg_ident: &Ident, arg_temp: &Ident) -> (stream:
    TokenStream)
    ensures
        tokens_of(stream) == to_str_tokens(
            generator_state.names(),
            ident_text(*arg_ident),
            ident_text(*arg_temp),
        ),
{
    proof {
        lemma_words();
    }
    Quote::new().tokens(&generator_state.deno_core).seg("_ops").seg("to_str").parens(
        Quote::new().mut_ref(&generator_state.scope).op(',').op('&').name(arg_ident).op(
            ',',
        ).mut_ref(arg_temp),
    ).done()
}

/// `Ok(#ok) => #ok, Err(#err) => { #throw }`
fn ok_or_throw(ok: &Ident, err: &Ident, throw: Quote) -> (q: Quote)
    ensures
        q@ == ok_or_throw_tokens(ident_text(*ok), ident_text(*err), throw@),
{
    proof {
        lemma_words();
    }
    Quote::new().word("Ok").parens(Quote::new().name(ok)).op2('=', '>').name(ok).op(',').word(
        "Err",
    ).parens(Quote::new().name(err)).op2('=', '>').braces(throw)
}

/// Converts an argument to a string.
fn from_arg_string(
    generator_state: &mut GeneratorState,
    arg_ident: &Ident,
    strings: Strings,
) -> (r: Result<TokenStream, V8MappingError>)
    ensures
        final(generator_state).follows(
            *old(generator_state),
            Needs { isolate: true, ..old(generator_state).needs() },
        ),
        r is Ok,
        tokens_of(r->Ok_0) == string_arg_tokens(
            old(generator_state).names(),
            old(generator_state).needs(),
            ident_text(*arg_ident),
            strings,
        ),
{
    proof {
        lemma_words();
    }
    // Only requires isolate, not a full scope
    generator_state.needs_isolate = true;
    let arg_temp = ident_suffixed(arg_ident, "_temp");
    match strings {
        Strings::String => {
            let value = to_string(generator_state, arg_ident).done();
            Ok(Quote::new().bind(arg_ident).tokens(&value).op(';').done())
        },
        Strings::RefStr => {
            // Trade stack space for potentially non-allocating strings
            let buffer = string_buffer(generator_state, &arg_temp).done();
            let value = to_str(generator_state, arg_ident, &arg_temp);
            Ok(Quote::new().tokens(&buffer).bind(arg_ident).op('&').tokens(&value).op(';').done())
        },
        Strings::CowStr => {
            // Trade stack space for potentially non-allocating strings
            let buffer = string_buffer(generator_state, &arg_temp).done();
            let value = to_str(generator_state, arg_ident, &arg_temp);
            Ok(Quote::new().tokens(&buffer).bind(arg_ident).tokens(&value).op(';').done())
        },
        Strings::CowByte => {
            let throw_exception = throw_type_error_static_string(generator_state, arg_ident)?;
            let arms = ok_or_throw(arg_ident, arg_ident, Quote::of(throw_exception));
            Ok(
                Quote::new().bind(arg_ident).word("match").tokens(&generator_state.deno_core).seg(
                    "_ops",
                ).seg("to_cow_one_byte").parens(
                    Quote::new().mut_ref(&generator_state.scope).op(',').op('&').name(arg_ident),
                ).braces(arms).op(';').done(),
            )
        },
    }
}

/// Converts an argument to a buffer.
pub fn from_arg_buffer(
    generator_state: &mut GeneratorState,
    arg_ident: &Ident,
    buffer: &Buffer,
) -> (r: Result<TokenStream, V8MappingError>)
    ensures
        final(generator_state).follows(
            *old(generator_state),
            Needs { scope: true, ..old(generator_state).needs() },
        ),
        is_result(
            r,
            buffer_arg_result(
                old(generator_state).names(),
                old(generator_state).needs(),
                ident_text(*arg_ident),
                *buffer,
            ),
        ),
{
    proof {
        lemma_words();
    }
    let err = ident_suffixed(arg_ident, "_err");
    let throw_exception = throw_type_error_static_string(generator_state, &err)?;

    generator_state.needs_scope = true;

    let array = NumericArg::U8.v8_array_type().unwrap();

    let to_v8_slice = if *buffer == Buffer::JsBuffer(BufferMode::Detach) {
        "to_v8_slice_detachable"
    } else {
        "to_v8_slice"
    };

    let deno_core = &generator_state.deno_core;
    let arms = ok_or_throw(arg_ident, &err, Quote::of(throw_exception));
    let make_v8slice = Quote::new().bind_mut(arg_ident).word("match").word("unsafe").braces(
        Quote::new().tokens(deno_core).seg("_ops").seg(to_v8_slice).op2(':', ':').op('<').tokens(
            deno_core,
        ).seg("v8").op2(':', ':').word(array.name()).op('>').parens(
            Quote::new().mut_ref(&generator_state.scope).op(',').name(arg_ident),
        ),
    ).braces(arms).op(';').done();

    let make_arg = match buffer {
        Buffer::Slice(_, NumericArg::U8) => Quote::new().bind(arg_ident).mut_ref(arg_ident).op(';'),
        Buffer::Vec(NumericArg::U8) => Quote::new().bind(arg_ident).name(arg_ident).dot(
            "to_vec",
        ).parens(Quote::new()).op(';'),
        Buffer::BoxSlice(NumericArg::U8) => Quote::new().bind(arg_ident).name(arg_ident).dot(
            "to_boxed_slice",
        ).parens(Quote::new()).op(';'),
        Buffer::Bytes(BufferMode::Copy) => Quote::new().bind(arg_ident).name(arg_ident).dot(
            "to_vec",
        ).parens(Quote::new()).dot("into").parens(Quote::new()).op(';'),
        Buffer::JsBuffer(BufferMode::Default | BufferMode::Detach) => Quote::new().bind(
            arg_ident,
        ).tokens(deno_core).seg("serde_v8").seg("JsBuffer").seg("from_parts").parens(
            Quote::new().name(arg_ident),
        ).op(';'),
        _ => {
            return Err(V8MappingError::NoMapping("a buffer argument", Arg::Buffer(*buffer)));
        },
    };

    Ok(Quote::new().tokens(&make_v8slice).tokens(&make_arg.done()).done())
}

/// Takes a reference to an object of the runtime.
fn from_arg_ref(
    generator_state: &mut GeneratorState,
    arg_ident: &Ident,
    ref_type: RefType,
    special: Special,
) -> (stream: TokenStream)
    ensures
        final(generator_state).follows(
            *old(generator_state),
            arg_needs(old(generator_state).needs(), Arg::Ref(ref_type, special)),
        ),
        tokens_of(stream) == ref_arg_tokens(
            old(generator_state).names(),
            ident_text(*arg_ident),
            ref_type,
            special,
        ),
{
    proof {
        lemma_words();
    }
    match (ref_type, special) {
        (_, Special::HandleScope) => {
            generator_state.needs_scope = true;
            Quote::new().bind(arg_ident).mut_ref(&generator_state.scope).op(';').done()
        },
        (RefType::Ref, Special::OpState) => {
            generator_state.needs_opstate = true;
            Quote::new().bind(arg_ident).op('&').name(&generator_state.opstate).dot(
                "borrow",
            ).parens(Quote::new()).op(';').done()
        },
        (RefType::Mut, Special::OpState) => {
            generator_state.needs_opstate = true;
            Quote::new().bind(arg_ident).mut_ref(&generator_state.opstate).dot(
                "borrow_mut",
            ).parens(Quote::new()).op(';').done()
        },
    }
}

/// Shares the op state.
fn from_arg_rc_state(generator_state: &mut GeneratorState, arg_ident: &Ident) -> (stream:
    TokenStream)
    ensures
        final(generator_state).follows(
            *old(generator_state),
            Needs { opstate: true, ..old(generator_state).needs() },
        ),
        tokens_of(stream) == rc_state_arg_tokens(
            old(generator_state).names(),
            ident_text(*arg_ident),
        ),
{
    proof {
        lemma_words();
    }
    generator_state.needs_opstate = true;
    Quote::new().bind(arg_ident).name(&generator_state.opstate).dot("clone").parens(
        Quote::new(),
    ).op(';').done()
}

/// Takes a reference to a value in the op state.
fn from_arg_state(
    generator_state: &mut GeneratorState,
    arg_ident: &Ident,
    ref_type: RefType,
    optional: bool,
    state: &str,
) -> (r: Result<TokenStream, V8MappingError>)
    requires
        type_tokens(state@) is Some,
    ensures
        final(generator_state).follows(
            *old(generator_state),
            Needs { opstate: true, ..old(generator_state).needs() },
        ),
        r is Ok,
        tokens_of(r->Ok_0) == state_arg_tokens(
            old(generator_state).names(),
            ident_text(*arg_ident),
            ref_type,
            optional,
            state@,
        ),
{
    proof {
        lemma_words();
    }
    generator_state.needs_opstate = true;
    let state_type = parse_type(state).unwrap();
    let borrow = match ref_type {
        RefType::Ref => if optional {
            "try_borrow"
        } else {
            "borrow"
        },
        RefType::Mut => if optional {
            "try_borrow_mut"
        } else {
            "borrow_mut"
        },
    };
    let start = match ref_type {
        RefType::Ref => Quote::new().bind(arg_ident).name(&generator_state.opstate).dot("borrow"),
        RefType::Mut => Quote::new().bind_mut(arg_ident).name(&generator_state.opstate).dot(
            "borrow_mut",
        ),
    };
    Ok(
        start.parens(Quote::new()).op(';').bind(arg_ident).name(arg_ident).dot(borrow).op2(
            ':',
            ':',
        ).op('<').tokens(&state_type).op('>').parens(Quote::new()).op(';').done(),
    )
}

/// Converts an argument to a V8 value of the given class.
fn from_arg_v8(
    generator_state: &mut GeneratorState,
    arg_ident: &Ident,
    v8: V8Arg,
    arg: &Arg,
) -> (r: Result<TokenStream, V8MappingError>)
    requires
        is_v8_local(*arg) || is_v8_global(*arg),
    ensures
        final(generator_state).follows(
            *old(generator_state),
            arg_needs(old(generator_state).needs(), *arg),
        ),
        r is Ok,
        tokens_of(r->Ok_0) == v8_arg_tokens(
            old(generator_state).names(),
            old(generator_state).needs(),
            ident_text(*arg_ident),
            v8,
            *arg,
        ),
{
    let extract_intermediate = match arg {
        Arg::V8Global(_) | Arg::OptionV8Global(_) => {
            // Only requires isolate, not a full scope
            generator_state.needs_isolate = true;
            v8_intermediate_to_global_arg(
                &generator_state.deno_core,
                &generator_state.scope,
                arg_ident,
                arg,
            )
        },
        _ => v8_intermediate_to_arg(arg_ident, arg),
    };
    let throw_type_error = throw_type_error(generator_state, expected(v8.name()))?;
    v8_to_arg(
        &v8,
        arg_ident,
        arg,
        &generator_state.deno_core,
        throw_type_error,
        extract_intermediate,
    )
}

/// Converts an argument by deserialization.
fn from_arg_serde(generator_state: &mut GeneratorState, arg_ident: &Ident) -> (r: Result<
    TokenStream,
    V8MappingError,
>)
    ensures
        final(generator_state).follows(
            *old(generator_state),
            Needs { scope: true, ..old(generator_state).needs() },
        ),
        r is Ok,
        tokens_of(r->Ok_0) == serde_arg_tokens(
            old(generator_state).names(),
            Needs { scope: true, ..old(generator_state).needs() },
            ident_text(*arg_ident),
        ),
{
    proof {
        lemma_words();
    }
    generator_state.needs_scope = true;
    let err = ident_suffixed(arg_ident, "_err");
    let throw_exception = throw_type_error_string(generator_state, &err)?;
    let arms = ok_or_throw(&ident_new("t"), &err, Quote::of(throw_exception).op(';'));
    Ok(
        Quote::new().bind(arg_ident).word("match").tokens(&generator_state.deno_core).seg(
            "_ops",
        ).seg("serde_v8_to_rust").parens(
            Quote::new().mut_ref(&generator_state.scope).op(',').name(arg_ident),
        ).braces(arms).op(';').done(),
    )
}

/// Generates the code for the argument of the given name and type.
fn from_named_arg(generator_state: &mut GeneratorState, arg_ident: &Ident, arg: &Arg) -> (r: Result<
    TokenStream,
    V8MappingError,
>)
    requires
        state_type_is_valid(*arg),
    ensures
        final(generator_state).follows(
            *old(generator_state),
            arg_needs(old(generator_state).needs(), *arg),
        ),
        is_result(
            r,
            arg_result(
                old(generator_state).names(),
                old(generator_state).needs(),
                ident_text(*arg_ident),
                *arg,
            ),
        ),
{
    proof {
        lemma_conversions();
    }
    match arg {
        Arg::Numeric(numeric) => from_arg_numeric(generator_state, arg_ident, *numeric),
        Arg::OptionNumeric(numeric) => from_arg_option_numeric(
            generator_state,
            arg_ident,
            *numeric,
        ),
        Arg::OptionString(Strings::String) => Ok(
            from_arg_option_string(generator_state, arg_ident),
        ),
        Arg::String(strings) => from_arg_string(generator_state, arg_ident, *strings),
        Arg::Buffer(buffer) => from_arg_buffer(generator_state, arg_ident, buffer),
        Arg::External(External::Ptr(_)) => from_arg_option(
            generator_state,
            arg_ident,
            "external",
        ),
        Arg::Ref(ref_type, special) => Ok(
            from_arg_ref(generator_state, arg_ident, *ref_type, *special),
        ),
        Arg::RcRefCell(Special::OpState) => Ok(from_arg_rc_state(generator_state, arg_ident)),
        Arg::State(ref_type, state) => from_arg_state(
            generator_state,
            arg_ident,
            *ref_type,
            false,
            state.as_str(),
        ),
        Arg::OptionState(ref_type, state) => from_arg_state(
            generator_state,
            arg_ident,
            *ref_type,
            true,
            state.as_str(),
        ),
        Arg::V8Local(v8)
        | Arg::OptionV8Local(v8)
        | Arg::V8Ref(RefType::Ref, v8)
        | Arg::OptionV8Ref(RefType::Ref, v8)
        | Arg::V8Global(v8)
        | Arg::OptionV8Global(v8) => from_arg_v8(generator_state, arg_ident, *v8, arg),
        Arg::SerdeV8(_) => from_arg_serde(generator_state, arg_ident),
        _ => Err(V8MappingError::NoMapping("a slow argument", arg.clone())),
    }
}

/// Generates the code for the argument of the given index and type. The type of a value in the op
/// state has to be a type of Rust.
pub fn from_arg(generator_state: &mut GeneratorState, index: usize, arg: &Arg) -> (r: Result<
    TokenStream,
    V8MappingError,
>)
    requires
        index < old(generator_state).args@.len(),
        state_type_is_valid(*arg),
    ensures
        final(generator_state).follows(
            *old(generator_state),
            arg_needs(old(generator_state).needs(), *arg),
        ),
        is_result(
            r,
            arg_result(
                old(generator_state).names(),
                old(generator_state).needs(),
                old(generator_state).names().args[index as int],
                *arg,
            ),
        ),
{
    let arg_ident = ident_clone(&generator_state.args[index]);
    from_named_arg(generator_state, &arg_ident, arg)
}

} // verus!
