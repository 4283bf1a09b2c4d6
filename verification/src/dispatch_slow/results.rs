//! Code that hands the result of the op to the caller.
use crate::dispatch_slow::throw::{
    throw_exception, throw_exception_needs, throw_exception_tokens, throw_type_error_string,
    throw_type_error_string_tokens,
};
use crate::generator_state::{GeneratorState, Names, Needs};
use crate::signature::{Arg, Buffer, BufferMode, External, NumericArg, RetVal, Strings};
use crate::token::{is_word, no_tokens, unraw, Token, TokenSeq};
use crate::token_stream::{ident_new, ident_suffixed, ident_text, tokens_of, Quote};
use crate::words::lemma_words;
use crate::{is_result, V8MappingError};
use proc_macro2::{Ident, TokenStream};
use vstd::pervasive::{arbitrary, unreached};
use vstd::prelude::*;

verus! {

/// `#retval.#method(#result as #ty);`
pub open spec fn set_as_tokens(n: Names, method: &str, ty: &str) -> Seq<Token> {
    no_tokens().name(n.retval).dot(method).parens(
        no_tokens().name(n.result).word("as").word(ty),
    ).op(';')
}

/// `#retval.set_null();`
pub open spec fn set_null_tokens(n: Names) -> Seq<Token> {
    no_tokens().name(n.retval).dot("set_null").parens(no_tokens()).op(';')
}

/// The code that hands over a number.
pub open spec fn return_numeric_tokens(n: Names, numeric: NumericArg) -> Seq<Token> {
    match numeric {
        NumericArg::Bool => set_as_tokens(n, "set_bool", "bool"),
        NumericArg::U8 | NumericArg::U16 | NumericArg::U32 => set_as_tokens(n, "set_uint32", "u32"),
        NumericArg::I8 | NumericArg::I16 | NumericArg::I32 | NumericArg::Smi => set_as_tokens(
            n,
            "set_int32",
            "i32",
        ),
        // #retval.set(v8::BigInt::new_from_i64(&mut scope, #result as _).into());
        NumericArg::I64 | NumericArg::Isize => set_bigint_tokens(n, "new_from_i64", "scope"@),
        // #retval.set(v8::BigInt::new_from_u64(&mut #scope, #result as _).into());
        NumericArg::U64 | NumericArg::Usize => set_bigint_tokens(n, "new_from_u64", n.scope),
        NumericArg::F32 | NumericArg::F64 => set_as_tokens(n, "set_double", "_"),
    }
}

/// `#retval.set(v8::BigInt::#new_bigint(&mut #scope, #result as _).into());`
pub open spec fn set_bigint_tokens(n: Names, new_bigint: &str, scope: Seq<char>) -> Seq<Token> {
    no_tokens().name(n.retval).dot("set").parens(
        no_tokens().word("v8").seg("BigInt").seg(new_bigint).parens(
            no_tokens().mut_ref(scope).op(',').name(n.result).word("as").word("_"),
        ).dot("into").parens(no_tokens()),
    ).op(';')
}

/// `if #result.is_empty() {
///     #retval.set_empty_string();
/// } else {
///     let temp = #deno_core::v8::String::#new_string(#new_args).unwrap();
///     #retval.set(temp.into());
/// }`
pub open spec fn return_string_tokens(
    n: Names,
    new_string: &str,
    new_args: Seq<Token>,
) -> Seq<Token> {
    no_tokens().word("if").name(n.result).dot("is_empty").parens(no_tokens()).braces(
        no_tokens().name(n.retval).dot("set_empty_string").parens(no_tokens()).op(';'),
    ).word("else").braces(
        no_tokens().bind("temp"@).tokens(n.deno_core).seg("v8").seg("String").seg(
            new_string,
        ).parens(new_args).dot("unwrap").parens(no_tokens()).op(';').name(n.retval).dot(
            "set",
        ).parens(no_tokens().word("temp").dot("into").parens(no_tokens())).op(';'),
    )
}

/// `#retval.set(#result.into())`
pub open spec fn set_result_tokens(n: Names) -> Seq<Token> {
    no_tokens().name(n.retval).dot("set").parens(
        no_tokens().name(n.result).dot("into").parens(no_tokens()),
    )
}

/// `let #result = match #deno_core::_ops::serde_rust_to_v8(&mut #scope, #result) {
///     Ok(t) => t,
///     Err(#err) => { #throw_exception }
/// };
/// #retval.set(#result.into())`
pub open spec fn serialize_result_tokens(
    n: Names,
    err: Seq<char>,
    throw_exception: Seq<Token>,
) -> Seq<Token> {
    no_tokens().bind(n.result).word("match").tokens(n.deno_core).seg("_ops").seg(
        "serde_rust_to_v8",
    ).parens(no_tokens().mut_ref(n.scope).op(',').name(n.result)).braces(
        no_tokens().word("Ok").parens(no_tokens().word("t")).op2('=', '>').word("t").op(',').word(
            "Err",
        ).parens(no_tokens().name(err)).op2('=', '>').braces(throw_exception),
    ).op(';').tokens(set_result_tokens(n))
}

/// The code that hands over a result that is converted by serialization.
pub open spec fn return_serde_tokens(n: Names, needs: Needs) -> Seq<Token> {
    let err = unraw(n.retval) + "_err"@;
    serialize_result_tokens(n, err, throw_type_error_string_tokens(n, needs, err))
}

/// `#retval.set(#deno_core::_ops::ToV8Value::to_v8_value(#result, &mut #scope));`
pub open spec fn return_buffer_tokens(n: Names) -> Seq<Token> {
    no_tokens().name(n.retval).dot("set").parens(
        no_tokens().tokens(n.deno_core).seg("_ops").seg("ToV8Value").seg("to_v8_value").parens(
            no_tokens().name(n.result).op(',').mut_ref(n.scope),
        ),
    ).op(';')
}

/// `#retval.set(#deno_core::v8::External::new(&mut #scope, #result as _).into())`
pub open spec fn return_external_tokens(n: Names) -> Seq<Token> {
    no_tokens().name(n.retval).dot("set").parens(
        no_tokens().tokens(n.deno_core).seg("v8").seg("External").seg("new").parens(
            no_tokens().mut_ref(n.scope).op(',').name(n.result).word("as").word("_"),
        ).dot("into").parens(no_tokens()),
    )
}

/// `if let Some(#result) = #result { #some } else { #retval.set_null(); }`
pub open spec fn return_option_tokens(n: Names, some: Seq<Token>) -> Seq<Token> {
    no_tokens().word("if").word("let").word("Some").parens(no_tokens().name(n.result)).op(
        '=',
    ).name(n.result).braces(some).word("else").braces(set_null_tokens(n))
}

/// The buffer types that can be returned.
pub open spec fn is_returned_buffer(buffer: Buffer) -> bool {
    match buffer {
        Buffer::JsBuffer(BufferMode::Default)
        | Buffer::Vec(NumericArg::U8)
        | Buffer::BoxSlice(NumericArg::U8)
        | Buffer::BytesMut(BufferMode::Default) => true,
        _ => false,
    }
}

/// Handing over a result of this type, which is not optional, needs the scope.
pub open spec fn plain_return_needs_scope(ret_type: Arg) -> bool {
    match ret_type {
        Arg::Numeric(
            NumericArg::I64 | NumericArg::Isize | NumericArg::U64 | NumericArg::Usize,
        ) => true,
        Arg::String(Strings::String | Strings::CowByte) => true,
        Arg::SerdeV8(_) | Arg::External(External::Ptr(_)) => true,
        Arg::Buffer(buffer) => is_returned_buffer(buffer),
        _ => false,
    }
}

/// What is needed once the code for a result of this type is there: always the return value, and
/// the scope for the values that are made in it.
pub open spec fn return_needs(needs: Needs, ret_type: Arg) -> Needs {
    let inner = match ret_type.spec_some_type() {
        Some(some_type) => some_type,
        None => ret_type,
    };
    Needs { retval: true, scope: needs.scope || plain_return_needs_scope(inner), ..needs }
}

/// The code for a result of this type, which is not optional, or the error for a type that there
/// is none for.
pub open spec fn plain_return_result(n: Names, needs: Needs, ret_type: Arg) -> Result<
    Seq<Token>,
    V8MappingError,
> {
    match ret_type {
        Arg::Void => Ok(set_null_tokens(n)),
        Arg::Numeric(numeric) => Ok(return_numeric_tokens(n, numeric)),
        Arg::String(Strings::String) => Ok(
            return_string_tokens(
                n,
                "new",
                no_tokens().mut_ref(n.scope).op(',').op('&').name(n.result),
            ),
        ),
        Arg::String(Strings::CowByte) => Ok(
            return_string_tokens(
                n,
                "new_from_one_byte",
                no_tokens().mut_ref(n.scope).op(',').op('&').name(n.result).op(',').tokens(
                    n.deno_core,
                ).seg("v8").seg("NewStringType").seg("Normal"),
            ),
        ),
        Arg::V8Local(_) => Ok(set_result_tokens(n)),
        Arg::SerdeV8(_) => Ok(return_serde_tokens(n, return_needs(needs, ret_type))),
        Arg::Buffer(buffer) if is_returned_buffer(buffer) => Ok(return_buffer_tokens(n)),
        Arg::External(External::Ptr(_)) => Ok(return_external_tokens(n)),
        _ => Err(V8MappingError::NoMapping("a slow return value", ret_type)),
    }
}

/// The code for a result of this type, or the error for a type that there is none for. An optional
/// type is handled like the type under the `Option`, in a branch.
pub open spec fn return_result(n: Names, needs: Needs, ret_type: Arg) -> Result<
    Seq<Token>,
    V8MappingError,
> {
    match ret_type.spec_some_type() {
        Some(some_type) => match plain_return_result(n, needs, some_type) {
            Ok(some) => Ok(return_option_tokens(n, some)),
            Err(error) => Err(error),
        },
        None => plain_return_result(n, needs, ret_type),
    }
}

/// `match #result {
///     Ok(#result) => { #infallible }
///     Err(err) => { #exception }
/// };`
pub open spec fn return_match_tokens(
    n: Names,
    infallible: Seq<Token>,
    exception: Seq<Token>,
) -> Seq<Token> {
    no_tokens().word("match").name(n.result).braces(
        no_tokens().word("Ok").parens(no_tokens().name(n.result)).op2('=', '>').braces(
            infallible,
        ).word("Err").parens(no_tokens().word("err")).op2('=', '>').braces(exception),
    ).op(';')
}

/// The code for a result that may be an error.
pub open spec fn fallible_return_result(n: Names, needs: Needs, ret_type: Arg) -> Result<
    Seq<Token>,
    V8MappingError,
> {
    match return_result(n, needs, ret_type) {
        Ok(infallible) => Ok(
            return_match_tokens(
                n,
                infallible,
                throw_exception_tokens(n, return_needs(needs, ret_type)),
            ),
        ),
        Err(error) => Err(error),
    }
}

/// What is needed once the code for a result that may be an error is there, or once it is clear
/// that there is none.
pub open spec fn fallible_return_needs(n: Names, needs: Needs, ret_type: Arg) -> Needs {
    if return_result(n, needs, ret_type) is Ok {
        throw_exception_needs(return_needs(needs, ret_type))
    } else {
        return_needs(needs, ret_type)
    }
}

/// The code for a value of this type as a V8 value, or the error for a type that there is none
/// for.
pub open spec fn v8_value_result(n: Names, ret_type: Arg) -> Result<Seq<Token>, V8MappingError> {
    match ret_type {
        // Ok(#deno_core::v8::null(#scope).into())
        Arg::Void => Ok(
            ok_tokens(
                no_tokens().tokens(n.deno_core).seg("v8").seg("null").parens(
                    no_tokens().name(n.scope),
                ).dot("into").parens(no_tokens()),
            ),
        ),
        // Ok(#deno_core::v8::Boolean::new(#scope, #result).into())
        Arg::Numeric(NumericArg::Bool) => Ok(
            ok_tokens(
                v8_value_new_tokens(n, "Boolean", "new", no_tokens().name(n.result)),
            ),
        ),
        // Ok(#deno_core::v8::Integer::new(#scope, #result as i32).into())
        Arg::Numeric(
            NumericArg::I8 | NumericArg::I16 | NumericArg::I32 | NumericArg::Smi,
        ) => Ok(
            ok_tokens(
                v8_value_new_tokens(
                    n,
                    "Integer",
                    "new",
                    no_tokens().name(n.result).word("as").word("i32"),
                ),
            ),
        ),
        // Ok(#deno_core::v8::Integer::new_from_unsigned(#scope, #result).into())
        Arg::Numeric(NumericArg::U8 | NumericArg::U16 | NumericArg::U32) => Ok(
            ok_tokens(
                v8_value_new_tokens(n, "Integer", "new_from_unsigned", no_tokens().name(n.result)),
            ),
        ),
        // Ok(#deno_core::_ops::ToV8Value::to_v8_value(#result, #scope))
        Arg::Buffer(buffer) if is_returned_buffer(buffer) => Ok(
            ok_tokens(
                no_tokens().tokens(n.deno_core).seg("_ops").seg("ToV8Value").seg(
                    "to_v8_value",
                ).parens(no_tokens().name(n.result).op(',').name(n.scope)),
            ),
        ),
        // Ok(#deno_core::v8::External::new(#scope, #result as _).into())
        Arg::External(External::Ptr(_)) => Ok(
            ok_tokens(
                v8_value_new_tokens(
                    n,
                    "External",
                    "new",
                    no_tokens().name(n.result).word("as").word("_"),
                ),
            ),
        ),
        _ => Err(V8MappingError::NoMapping("a v8 return value", ret_type)),
    }
}

/// `Ok(#value)`
pub open spec fn ok_tokens(value: Seq<Token>) -> Seq<Token> {
    no_tokens().word("Ok").parens(value)
}

/// `#deno_core::v8::#class::#new_value(#scope, #value).into()`
pub open spec fn v8_value_new_tokens(
    n: Names,
    class: &str,
    new_value: &str,
    value: Seq<Token>,
) -> Seq<Token> {
    no_tokens().tokens(n.deno_core).seg("v8").seg(class).seg(new_value).parens(
        no_tokens().name(n.scope).op(',').tokens(value),
    ).dot("into").parens(no_tokens())
}

/// The result is there when the op returns.
pub open spec fn is_immediate(ret_val: RetVal) -> bool {
    ret_val is Infallible || ret_val is Result
}

/// The code for a result that is there when the op returns.
pub open spec fn ret_val_result(n: Names, needs: Needs, ret_val: RetVal) -> Result<
    Seq<Token>,
    V8MappingError,
>
    recommends
        is_immediate(ret_val),
{
    match ret_val {
        RetVal::Infallible(ret_type) => return_result(n, needs, ret_type),
        RetVal::Result(ret_type) => fallible_return_result(n, needs, ret_type),
        _ => arbitrary(),
    }
}

/// What is needed once the code for such a result is there, or once it is clear that there is
/// none.
pub open spec fn ret_val_needs(n: Names, needs: Needs, ret_val: RetVal) -> Needs
    recommends
        is_immediate(ret_val),
{
    match ret_val {
        RetVal::Infallible(ret_type) => return_needs(needs, ret_type),
        RetVal::Result(ret_type) => fallible_return_needs(n, needs, ret_type),
        _ => arbitrary(),
    }
}

/// Generates the code that hands over a number that V8 has a type for.
fn set_as(generator_state: &GeneratorState, method: &str, ty: &str) -> (stream: TokenStream)
    requires
        is_word(method@),
        is_word(ty@),
    ensures
        tokens_of(stream) == set_as_tokens(generator_state.names(), method, ty),
{
    proof {
        lemma_words();
    }
    Quote::new().name(&generator_state.retval).dot(method).parens(
        Quote::new().name(&generator_state.result).word("as").word(ty),
    ).op(';').done()
}

/// Generates the code that hands over `null`.
fn set_null(generator_state: &GeneratorState) -> (q: Quote)
    ensures
        q@ == set_null_tokens(generator_state.names()),
{
    proof {
        lemma_words();
    }
    Quote::new().name(&generator_state.retval).dot("set_null").parens(Quote::new()).op(';')
}

/// Generates the code that hands over a big integer.
fn set_bigint(generator_state: &GeneratorState, new_bigint: &str, scope: &Ident) -> (stream:
    TokenStream)
    requires
        is_word(new_bigint@),
    ensures
        tokens_of(stream) == set_bigint_tokens(
            generator_state.names(),
            new_bigint,
            ident_text(*scope),
        ),
{
    proof {
        lemma_words();
    }
    Quote::new().name(&generator_state.retval).dot("set").parens(
        Quote::new().word("v8").seg("BigInt").seg(new_bigint).parens(
            Quote::new().mut_ref(scope).op(',').name(&generator_state.result).word("as").word("_"),
        ).dot("into").parens(Quote::new()),
    ).op(';').done()
}

/// Generates the code that hands over a number.
fn return_numeric(generator_state: &GeneratorState, numeric: NumericArg) -> (stream: TokenStream)
    ensures
        tokens_of(stream) == return_numeric_tokens(generator_state.names(), numeric),
{
    proof {
        lemma_words();
    }
    match numeric {
        NumericArg::Bool => set_as(generator_state, "set_bool", "bool"),
        NumericArg::U8 | NumericArg::U16 | NumericArg::U32 => set_as(
            generator_state,
            "set_uint32",
            "u32",
        ),
        NumericArg::I8 | NumericArg::I16 | NumericArg::I32 | NumericArg::Smi => set_as(
            generator_state,
            "set_int32",
            "i32",
        ),
        NumericArg::I64 | NumericArg::Isize => set_bigint(
            generator_state,
            "new_from_i64",
            &ident_new("scope"),
        ),
        NumericArg::U64 | NumericArg::Usize => set_bigint(
            generator_state,
            "new_from_u64",
            &generator_state.scope,
        ),
        NumericArg::F32 | NumericArg::F64 => set_as(generator_state, "set_double", "_"),
    }
}

/// Generates the code that hands over a string.
fn return_string(generator_state: &GeneratorState, new_string: &str, new_args: Quote) -> (stream:
    TokenStream)
    requires
        is_word(new_string@),
    ensures
        tokens_of(stream) == return_string_tokens(generator_state.names(), new_string, new_args@),
{
    proof {
        lemma_words();
    }
    let retval = &generator_state.retval;
    Quote::new().word("if").name(&generator_state.result).dot("is_empty").parens(
        Quote::new(),
    ).braces(
        Quote::new().name(retval).dot("set_empty_string").parens(Quote::new()).op(';'),
    ).word("else").braces(
        Quote::new().word("let").word("temp").op('=').tokens(&generator_state.deno_core).seg(
            "v8",
        ).seg("String").seg(new_string).parens(new_args).dot("unwrap").parens(Quote::new()).op(
            ';',
        ).name(retval).dot("set").parens(
            Quote::new().word("temp").dot("into").parens(Quote::new()),
        ).op(';'),
    ).done()
}

/// Generates the code that hands over a V8 value.
fn set_result(generator_state: &GeneratorState) -> (stream: TokenStream)
    ensures
        tokens_of(stream) == set_result_tokens(generator_state.names()),
{
    proof {
        lemma_words();
    }
    Quote::new().name(&generator_state.retval).dot("set").parens(
        Quote::new().name(&generator_state.result).dot("into").parens(Quote::new()),
    ).done()
}

/// Generates the code that hands over a value by serialization.
fn return_serde(generator_state: &mut GeneratorState) -> (r: Result<TokenStream, V8MappingError>)
    ensures
        *final(generator_state) == *old(generator_state),
        r is Ok,
        tokens_of(r->Ok_0) == return_serde_tokens(
            old(generator_state).names(),
            old(generator_state).needs(),
        ),
{
    proof {
        lemma_words();
    }
    let err = ident_suffixed(&generator_state.retval, "_err");
    let throw_exception = throw_type_error_string(generator_state, &err)?;
    let set = set_result(generator_state);
    let result = &generator_state.result;
    Ok(
        Quote::new().bind(result).word("match").tokens(&generator_state.deno_core).seg("_ops").seg(
            "serde_rust_to_v8",
        ).parens(Quote::new().mut_ref(&generator_state.scope).op(',').name(result)).braces(
            Quote::new().word("Ok").parens(Quote::new().word("t")).op2('=', '>').word("t").op(
                ',',
            ).word("Err").parens(Quote::new().name(&err)).op2('=', '>').braces(
                Quote::of(throw_exception),
            ),
        ).op(';').tokens(&set).done(),
    )
}

/// Generates the code that hands over a buffer.
fn return_buffer(generator_state: &GeneratorState) -> (stream: TokenStream)
    ensures
        tokens_of(stream) == return_buffer_tokens(generator_state.names()),
{
    proof {
        lemma_words();
    }
    Quote::new().name(&generator_state.retval).dot("set").parens(
        Quote::new().tokens(&generator_state.deno_core).seg("_ops").seg("ToV8Value").seg(
            "to_v8_value",
        ).parens(
            Quote::new().name(&generator_state.result).op(',').mut_ref(&generator_state.scope),
        ),
    ).op(';').done()
}

/// Generates the code that hands over a foreign pointer.
fn return_external(generator_state: &GeneratorState) -> (stream: TokenStream)
    ensures
        tokens_of(stream) == return_external_tokens(generator_state.names()),
{
    proof {
        lemma_words();
    }
    Quote::new().name(&generator_state.retval).dot("set").parens(
        Quote::new().tokens(&generator_state.deno_core).seg("v8").seg("External").seg(
            "new",
        ).parens(
            Quote::new().mut_ref(&generator_state.scope).op(',').name(
                &generator_state.result,
            ).word("as").word("_"),
        ).dot("into").parens(Quote::new()),
    ).done()
}

/// Generates the code for a result that cannot be an error.
pub fn return_value_infallible(generator_state: &mut GeneratorState, ret_type: &Arg) -> (r: Result<
    TokenStream,
    V8MappingError,
>)
    ensures
        final(generator_state).follows(
            *old(generator_state),
            return_needs(old(generator_state).needs(), *ret_type),
        ),
        is_result(
            r,
            return_result(
                old(generator_state).names(),
                old(generator_state).needs(),
                *ret_type,
            ),
        ),
    decreases (if ret_type.spec_is_option() { 1int } else { 0int }),
{
    proof {
        lemma_words();
    }
    generator_state.needs_retval = true;
    match ret_type {
        Arg::Void => Ok(set_null(generator_state).done()),
        Arg::Numeric(numeric) => {
            match numeric {
                NumericArg::I64 | NumericArg::Isize | NumericArg::U64 | NumericArg::Usize => {
                    generator_state.needs_scope = true;
                },
                _ => {},
            }
            Ok(return_numeric(generator_state, *numeric))
        },
        Arg::String(Strings::String) => {
            generator_state.needs_scope = true;
            let new_args = Quote::new().mut_ref(&generator_state.scope).op(',').op('&').name(
                &generator_state.result,
            );
            Ok(return_string(generator_state, "new", new_args))
        },
        Arg::String(Strings::CowByte) => {
            generator_state.needs_scope = true;
            let new_args = Quote::new().mut_ref(&generator_state.scope).op(',').op('&').name(
                &generator_state.result,
            ).op(',').tokens(&generator_state.deno_core).seg("v8").seg("NewStringType").seg(
                "Normal",
            );
            Ok(return_string(generator_state, "new_from_one_byte", new_args))
        },
        Arg::V8Local(_) => Ok(set_result(generator_state)),
        Arg::SerdeV8(_) => {
            generator_state.needs_scope = true;
            return_serde(generator_state)
        },
        Arg::Buffer(
            Buffer::JsBuffer(BufferMode::Default)
            | Buffer::Vec(NumericArg::U8)
            | Buffer::BoxSlice(NumericArg::U8)
            | Buffer::BytesMut(BufferMode::Default),
        ) => {
            generator_state.needs_scope = true;
            Ok(return_buffer(generator_state))
        },
        Arg::External(External::Ptr(_)) => {
            generator_state.needs_scope = true;
            Ok(return_external(generator_state))
        },
        _ => {
            match ret_type.some_type() {
                Some(some_type) => {
                    // We support all optional types by generating the infallible version in a
                    // branch
                    let some = return_value_infallible(generator_state, &some_type)?;
                    let result = &generator_state.result;
                    Ok(
                        Quote::new().word("if").word("let").word("Some").parens(
                            Quote::new().name(result),
                        ).op('=').name(result).braces(Quote::of(some)).word("else").braces(
                            set_null(generator_state),
                        ).done(),
                    )
                },
                None => Err(V8MappingError::NoMapping("a slow return value", ret_type.clone())),
            }
        },
    }
}

/// Generates the code for a result that may be an error.
pub fn return_value_result(generator_state: &mut GeneratorState, ret_type: &Arg) -> (r: Result<
    TokenStream,
    V8MappingError,
>)
    ensures
        final(generator_state).follows(
            *old(generator_state),
            fallible_return_needs(
                old(generator_state).names(),
                old(generator_state).needs(),
                *ret_type,
            ),
        ),
        is_result(
            r,
            fallible_return_result(
                old(generator_state).names(),
                old(generator_state).needs(),
                *ret_type,
            ),
        ),
{
    proof {
        lemma_words();
    }
    let infallible = return_value_infallible(generator_state, ret_type)?;
    let exception = throw_exception(generator_state)?;
    let result = &generator_state.result;
    Ok(
        Quote::new().word("match").name(result).braces(
            Quote::new().word("Ok").parens(Quote::new().name(result)).op2('=', '>').braces(
                Quote::of(infallible),
            ).word("Err").parens(Quote::new().word("err")).op2('=', '>').braces(
                Quote::of(exception),
            ),
        ).op(';').done(),
    )
}

/// Generates the code that hands the result of the op to the caller. There is none for a result
/// that comes later.
pub fn return_value(generator_state: &mut GeneratorState, ret_type: &RetVal) -> (r: Result<
    TokenStream,
    V8MappingError,
>)
    requires
        is_immediate(*ret_type),
    ensures
        final(generator_state).follows(
            *old(generator_state),
            ret_val_needs(
                old(generator_state).names(),
                old(generator_state).needs(),
                *ret_type,
            ),
        ),
        is_result(
            r,
            ret_val_result(
                old(generator_state).names(),
                old(generator_state).needs(),
                *ret_type,
            ),
        ),
{
    match ret_type {
        RetVal::Infallible(ret_type) => return_value_infallible(generator_state, ret_type),
        RetVal::Result(ret_type) => return_value_result(generator_state, ret_type),
        _ => unreached(),
    }
}

/// `Ok(#value)`
fn ok_value(value: Quote) -> (stream: TokenStream)
    ensures
        tokens_of(stream) == ok_tokens(value@),
{
    proof {
        lemma_words();
    }
    Quote::new().word("Ok").parens(value).done()
}

/// `#deno_core::v8::#class::#new_value(#scope, #value).into()`
fn v8_value_new(
    generator_state: &GeneratorState,
    class: &str,
    new_value: &str,
    value: Quote,
) -> (q: Quote)
    requires
        is_word(class@),
        is_word(new_value@),
    ensures
        q@ == v8_value_new_tokens(generator_state.names(), class, new_value, value@),
{
    proof {
        lemma_words();
    }
    Quote::new().tokens(&generator_state.deno_core).seg("v8").seg(class).seg(new_value).parens(
        Quote::new().name(&generator_state.scope).op(',').tokens(&value.done()),
    ).dot("into").parens(Quote::new())
}

/// Puts a typed result into a V8 value.
pub fn return_value_v8_value(generator_state: &GeneratorState, ret_type: &Arg) -> (r: Result<
    TokenStream,
    V8MappingError,
>)
    ensures
        is_result(r, v8_value_result(generator_state.names(), *ret_type)),
{
    proof {
        lemma_words();
    }
    let deno_core = &generator_state.deno_core;
    let scope = &generator_state.scope;
    let result = Quote::new().name(&generator_state.result);
    let value = match ret_type {
        Arg::Void => Quote::new().tokens(deno_core).seg("v8").seg("null").parens(
            Quote::new().name(scope),
        ).dot("into").parens(Quote::new()),
        Arg::Numeric(NumericArg::Bool) => v8_value_new(generator_state, "Boolean", "new", result),
        Arg::Numeric(
            NumericArg::I8 | NumericArg::I16 | NumericArg::I32 | NumericArg::Smi,
        ) => v8_value_new(generator_state, "Integer", "new", result.word("as").word("i32")),
        Arg::Numeric(NumericArg::U8 | NumericArg::U16 | NumericArg::U32) => v8_value_new(
            generator_state,
            "Integer",
            "new_from_unsigned",
            result,
        ),
        Arg::Buffer(
            Buffer::JsBuffer(BufferMode::Default)
            | Buffer::Vec(NumericArg::U8)
            | Buffer::BoxSlice(NumericArg::U8)
            | Buffer::BytesMut(BufferMode::Default),
        ) => Quote::new().tokens(deno_core).seg("_ops").seg("ToV8Value").seg("to_v8_value").parens(
            result.op(',').name(scope),
        ),
        Arg::External(External::Ptr(_)) => v8_value_new(
            generator_state,
            "External",
            "new",
            result.word("as").word("_"),
        ),
        _ => {
            return Err(V8MappingError::NoMapping("a v8 return value", ret_type.clone()));
        },
    };
    Ok(ok_value(value))
}

} // verus!
