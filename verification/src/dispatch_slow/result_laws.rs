//! What the code for a result hands to the caller.
use crate::dispatch_slow::results::{
    fallible_return_needs, fallible_return_result, is_immediate, ret_val_needs, ret_val_result,
    return_needs, return_result, v8_value_result,
};
use crate::dispatch_slow::throw::{throw_exception_tokens, throw_type_error_string_tokens};
use crate::dispatch_slow::throw_laws::law_exception_is_thrown;
use crate::generator_state::{Names, Needs};
use crate::signature::{
    Arg, Buffer, BufferMode, External, NumericArg, RefType, RetVal, Strings, V8Arg,
};
use crate::token::{no_tokens, unraw, Token, TokenSeq};
use crate::V8MappingError;
use vstd::prelude::*;

verus! {

/// The code for a result is made of its type and of the names alone: it never matters what the
/// arguments needed.
pub proof fn law_result_code_ignores_needs(n: Names, needs: Needs, other: Needs, ret_type: Arg)
    ensures
        return_result(n, needs, ret_type) == return_result(n, other, ret_type),
{
}

/// Of the names, the code for a result uses the result, the return value, the scope and the path of
/// the core crate.
pub proof fn law_result_code_uses_few_names(n: Names, other: Names, needs: Needs, ret_type: Arg)
    requires
        n.deno_core == other.deno_core,
        n.scope == other.scope,
        n.result == other.result,
        n.retval == other.retval,
    ensures
        return_result(n, needs, ret_type) == return_result(other, needs, ret_type),
        v8_value_result(n, ret_type) == v8_value_result(other, ret_type),
{
}

/// Each result needs the return value. The scope is needed for the values that are made in it: big
/// integers, strings, serialized values, buffers and pointers, optional or not. Nothing else is.
pub proof fn law_result_needs(needs: Needs, ret_type: Arg)
    ensures
        return_needs(needs, ret_type).retval,
        return_needs(needs, ret_type).scope <==> {
            ||| needs.scope
            ||| ret_type is SerdeV8
            ||| ret_type is External
            ||| ret_type == Arg::String(Strings::String)
            ||| ret_type == Arg::String(Strings::CowByte)
            ||| ret_type == Arg::OptionString(Strings::String)
            ||| ret_type == Arg::OptionString(Strings::CowByte)
            ||| ret_type == Arg::Buffer(Buffer::JsBuffer(BufferMode::Default))
            ||| ret_type == Arg::Buffer(Buffer::BytesMut(BufferMode::Default))
            ||| ret_type == Arg::Buffer(Buffer::Vec(NumericArg::U8))
            ||| ret_type == Arg::Buffer(Buffer::BoxSlice(NumericArg::U8))
            ||| ret_type matches Arg::Numeric(numeric) && (numeric == NumericArg::I64 || numeric
                == NumericArg::U64 || numeric == NumericArg::Isize || numeric == NumericArg::Usize)
            ||| ret_type matches Arg::OptionNumeric(numeric) && (numeric == NumericArg::I64
                || numeric == NumericArg::U64 || numeric == NumericArg::Isize || numeric
                == NumericArg::Usize)
        },
        return_needs(needs, ret_type).args == needs.args,
        return_needs(needs, ret_type).isolate == needs.isolate,
        return_needs(needs, ret_type).opstate == needs.opstate,
        return_needs(needs, ret_type).opctx == needs.opctx,
{
}

/// There is code exactly for: no value, numbers, owned and byte strings, local V8 values, serialized
/// values, pointers, buffers that own their bytes, and the options of these. The error names the
/// type, without its `Option`.
pub proof fn law_result_without_code(n: Names, needs: Needs, ret_type: Arg)
    ensures
        return_result(n, needs, ret_type) is Ok <==> {
            ||| ret_type is Void
            ||| ret_type is Numeric
            ||| ret_type is OptionNumeric
            ||| ret_type is V8Local
            ||| ret_type is OptionV8Local
            ||| ret_type is SerdeV8
            ||| ret_type is External
            ||| ret_type == Arg::String(Strings::String)
            ||| ret_type == Arg::String(Strings::CowByte)
            ||| ret_type == Arg::OptionString(Strings::String)
            ||| ret_type == Arg::OptionString(Strings::CowByte)
            ||| ret_type == Arg::Buffer(Buffer::JsBuffer(BufferMode::Default))
            ||| ret_type == Arg::Buffer(Buffer::BytesMut(BufferMode::Default))
            ||| ret_type == Arg::Buffer(Buffer::Vec(NumericArg::U8))
            ||| ret_type == Arg::Buffer(Buffer::BoxSlice(NumericArg::U8))
        },
        return_result(n, needs, ret_type) matches Err(V8MappingError::NoMapping(place, named)) ==> {
            &&& place == "a slow return value"
            &&& match ret_type {
                Arg::OptionString(strings) => named == Arg::String(strings),
                Arg::OptionState(ref_type, state) => named == Arg::State(ref_type, state),
                Arg::OptionV8Ref(ref_type, v8) => named == Arg::V8Ref(ref_type, v8),
                Arg::OptionV8Global(v8) => named == Arg::V8Global(v8),
                _ => named == ret_type,
            }
        },
        return_result(n, needs, ret_type) matches Err(error) ==> fallible_return_result(
            n,
            needs,
            ret_type,
        ) == Err::<Seq<Token>, V8MappingError>(error),
{
}

/// An optional result is null exactly where it is `None`, and otherwise what the plain result under
/// the same name is.
pub proof fn law_optional_result_is_unwrapped(n: Names, needs: Needs, ret_type: Arg, inner: Arg)
    requires
        return_result(n, needs, ret_type) is Ok,
        (ret_type matches Arg::OptionNumeric(numeric) && inner == Arg::Numeric(numeric)) || (
        ret_type matches Arg::OptionString(strings) && inner == Arg::String(strings)) || (
        ret_type matches Arg::OptionV8Local(v8) && inner == Arg::V8Local(v8)),
    ensures
        return_result(n, needs, ret_type)->Ok_0 == no_tokens().word("if").word("let").word(
            "Some",
        ).parens(no_tokens().name(n.result)).op('=').name(n.result).braces(
            return_result(n, needs, inner)->Ok_0,
        ).word("else").braces(
            no_tokens().name(n.retval).dot("set_null").parens(no_tokens()).op(';'),
        ),
{
}

/// No value is null. A number that V8 has a type for is handed over as the result cast to that type,
/// by the method for it: booleans, unsigned and signed integers of up to 32 bits, and floats.
pub proof fn law_number_is_returned(n: Names, needs: Needs, numeric: NumericArg)
    requires
        numeric != NumericArg::I64 && numeric != NumericArg::Isize && numeric != NumericArg::U64
            && numeric != NumericArg::Usize,
    ensures
        ({
            let handed_over = |method: &str, ty: &str|
                Ok::<Seq<Token>, V8MappingError>(
                    no_tokens().name(n.retval).dot(method).parens(
                        no_tokens().name(n.result).word("as").word(ty),
                    ).op(';'),
                );
            let code = return_result(n, needs, Arg::Numeric(numeric));
            if numeric == NumericArg::Bool {
                code == handed_over("set_bool", "bool")
            } else if numeric == NumericArg::U8 || numeric == NumericArg::U16 || numeric
                == NumericArg::U32 {
                code == handed_over("set_uint32", "u32")
            } else if numeric == NumericArg::F32 || numeric == NumericArg::F64 {
                code == handed_over("set_double", "_")
            } else {
                code == handed_over("set_int32", "i32")
            }
        }),
        return_result(n, needs, Arg::Void) == Ok::<Seq<Token>, V8MappingError>(
            no_tokens().name(n.retval).dot("set_null").parens(no_tokens()).op(';'),
        ),
{
}

/// An integer of more than 32 bits is handed over as a big integer made of the result, by the
/// constructor of its signedness. The scope of a signed one goes by the fixed name `scope`.
pub proof fn law_big_integer_is_returned(n: Names, needs: Needs, numeric: NumericArg)
    requires
        numeric == NumericArg::I64 || numeric == NumericArg::Isize || numeric == NumericArg::U64
            || numeric == NumericArg::Usize,
    ensures
        ({
            let signed = numeric == NumericArg::I64 || numeric == NumericArg::Isize;
            return_result(n, needs, Arg::Numeric(numeric)) == Ok::<Seq<Token>, V8MappingError>(
                no_tokens().name(n.retval).dot("set").parens(
                    no_tokens().word("v8").seg("BigInt").seg(
                        if signed {
                            "new_from_i64"
                        } else {
                            "new_from_u64"
                        },
                    ).parens(
                        no_tokens().op('&').word("mut").name(
                            if signed {
                                "scope"@
                            } else {
                                n.scope
                            },
                        ).op(',').name(n.result).word("as").word("_"),
                    ).dot("into").parens(no_tokens()),
                ).op(';'),
            )
        }),
{
}

/// A string is handed over as the empty string exactly where the result is empty, and otherwise as a
/// V8 string made of the result: of its characters, or of its bytes for a byte string.
pub proof fn law_string_is_returned(n: Names, needs: Needs, strings: Strings)
    requires
        strings == Strings::String || strings == Strings::CowByte,
    ensures
        ({
            let of_result = no_tokens().op('&').word("mut").name(n.scope).op(',').op('&').name(
                n.result,
            );
            let new_string = if strings == Strings::String {
                no_tokens().tokens(n.deno_core).seg("v8").seg("String").seg("new").parens(of_result)
            } else {
                no_tokens().tokens(n.deno_core).seg("v8").seg("String").seg(
                    "new_from_one_byte",
                ).parens(
                    of_result.op(',').tokens(n.deno_core).seg("v8").seg("NewStringType").seg(
                        "Normal",
                    ),
                )
            };
            &&& return_result(n, needs, Arg::String(strings)) is Ok
            &&& return_result(n, needs, Arg::String(strings))->Ok_0 =~~= no_tokens().word(
                "if",
            ).name(n.result).dot("is_empty").parens(no_tokens()).braces(
                no_tokens().name(n.retval).dot("set_empty_string").parens(no_tokens()).op(';'),
            ).word("else").braces(
                no_tokens().word("let").word("temp").op('=').tokens(new_string).dot(
                    "unwrap",
                ).parens(no_tokens()).op(';').name(n.retval).dot("set").parens(
                    no_tokens().word("temp").dot("into").parens(no_tokens()),
                ).op(';'),
            )
        }),
{
}

/// A V8 value is handed over as it is. A serialized value is first made a V8 value in the scope, and
/// the text of the error is thrown where that fails.
pub proof fn law_value_is_returned(n: Names, needs: Needs, v8: V8Arg, class: String)
    ensures
        ({
            let err = unraw(n.retval) + "_err"@;
            let start = no_tokens().word("let").name(n.result).op('=').word("match").tokens(
                n.deno_core,
            ).seg("_ops").seg("serde_rust_to_v8").parens(
                no_tokens().op('&').word("mut").name(n.scope).op(',').name(n.result),
            ).braces(
                no_tokens().word("Ok").parens(no_tokens().word("t")).op2('=', '>').word("t").op(
                    ',',
                ).word("Err").parens(no_tokens().name(err)).op2('=', '>').braces(
                    throw_type_error_string_tokens(n, (Needs { scope: true, ..needs }), err),
                ),
            ).op(';');
            let set = no_tokens().name(n.retval).dot("set").parens(
                no_tokens().name(n.result).dot("into").parens(no_tokens()),
            );
            &&& return_result(n, needs, Arg::V8Local(v8)) == Ok::<Seq<Token>, V8MappingError>(set)
            &&& return_result(n, needs, Arg::SerdeV8(class)) == Ok::<Seq<Token>, V8MappingError>(
                start.tokens(set),
            )
        }),
{
}

/// A buffer that owns its bytes, and a pointer, are handed over as V8 values made of the result.
pub proof fn law_buffer_or_pointer_is_returned(
    n: Names,
    needs: Needs,
    buffer: Buffer,
    ref_type: RefType,
)
    ensures
        return_result(n, needs, Arg::Buffer(buffer)) is Ok ==> return_result(
            n,
            needs,
            Arg::Buffer(buffer),
        )->Ok_0 == no_tokens().name(n.retval).dot("set").parens(
            no_tokens().tokens(n.deno_core).seg("_ops").seg("ToV8Value").seg("to_v8_value").parens(
                no_tokens().name(n.result).op(',').op('&').word("mut").name(n.scope),
            ),
        ).op(';'),
        return_result(n, needs, Arg::External(External::Ptr(ref_type))) == Ok::<
            Seq<Token>,
            V8MappingError,
        >(
            no_tokens().name(n.retval).dot("set").parens(
                no_tokens().tokens(n.deno_core).seg("v8").seg("External").seg("new").parens(
                    no_tokens().op('&').word("mut").name(n.scope).op(',').name(n.result).word(
                        "as",
                    ).word("_"),
                ).dot("into").parens(no_tokens()),
            ),
        ),
{
}

/// A fallible result, of whatever type, is handed over like the plain result where it is `Ok`, and
/// thrown where it is `Err`: the error goes to `to_v8_error` and the exception to `throw_exception`,
/// and the function returns. The code that throws is the same for all types, up to the scope, which
/// it declares unless the result needs it.
pub proof fn law_error_of_the_op_is_thrown(n: Names, needs: Needs, ret_type: Arg) -> (declarations:
    Seq<Token>)
    requires
        return_result(n, needs, ret_type) is Ok,
    ensures
        fallible_return_result(n, needs, ret_type) == Ok::<Seq<Token>, V8MappingError>(
            no_tokens().word("match").name(n.result).braces(
                no_tokens().word("Ok").parens(no_tokens().name(n.result)).op2('=', '>').braces(
                    return_result(n, needs, ret_type)->Ok_0,
                ).word("Err").parens(no_tokens().word("err")).op2('=', '>').braces(
                    declarations.word("let").word("err").op('=').word("err").dot("into").parens(
                        no_tokens(),
                    ).op(';').word("let").word("exception").op('=').tokens(n.deno_core).seg(
                        "error",
                    ).seg("to_v8_error").parens(
                        no_tokens().op('&').word("mut").name(n.scope).op(',').name(n.opctx).dot(
                            "get_error_class_fn",
                        ).op(',').op('&').word("err").op(','),
                    ).op(';').name(n.scope).dot("throw_exception").parens(
                        no_tokens().word("exception"),
                    ).op(';').word("return").op(';'),
                ),
            ).op(';'),
        ),
        fallible_return_result(n, needs, ret_type)->Ok_0 == no_tokens().word("match").name(
            n.result,
        ).braces(
            no_tokens().word("Ok").parens(no_tokens().name(n.result)).op2('=', '>').braces(
                return_result(n, needs, ret_type)->Ok_0,
            ).word("Err").parens(no_tokens().word("err")).op2('=', '>').braces(
                throw_exception_tokens(n, return_needs(needs, ret_type)),
            ),
        ).op(';'),
        fallible_return_needs(n, needs, ret_type) == (Needs {
            args: needs.args || !needs.opctx,
            ..return_needs(needs, ret_type)
        }),
{
    law_exception_is_thrown(n, return_needs(needs, ret_type))
}

/// Two fallible results throw by the same code, whatever their types are: it matters only whether
/// the function declares the scope, the arguments and the context. What they do with a value is what
/// they would do with it if they could not fail.
pub proof fn law_errors_of_all_types_are_alike(
    n: Names,
    needs: Needs,
    other: Needs,
    ret_type: Arg,
    other_type: Arg,
) -> (throw: Seq<Token>)
    requires
        return_result(n, needs, ret_type) is Ok,
        return_result(n, other, other_type) is Ok,
        return_needs(needs, ret_type).scope == return_needs(other, other_type).scope,
        needs.args == other.args,
        needs.opctx == other.opctx,
    ensures
        ({
            let handled = |ok: Seq<Token>|
                Ok::<Seq<Token>, V8MappingError>(
                    no_tokens().word("match").name(n.result).braces(
                        no_tokens().word("Ok").parens(no_tokens().name(n.result)).op2(
                            '=',
                            '>',
                        ).braces(ok).word("Err").parens(no_tokens().word("err")).op2(
                            '=',
                            '>',
                        ).braces(throw),
                    ).op(';'),
                );
            &&& fallible_return_result(n, needs, ret_type) == handled(
                return_result(n, needs, ret_type)->Ok_0,
            )
            &&& fallible_return_result(n, other, other_type) == handled(
                return_result(n, other, other_type)->Ok_0,
            )
        }),
        throw.len() >= 2,
        throw[throw.len() - 2] == Token::Ident("return"@),
{
    law_exception_is_thrown(n, return_needs(needs, ret_type));
    law_exception_is_thrown(n, return_needs(other, other_type));
    throw_exception_tokens(n, return_needs(needs, ret_type))
}

/// Without code for the result, what it needs is asked for all the same, and nothing for an
/// exception.
pub proof fn law_fallible_result_without_code(n: Names, needs: Needs, ret_type: Arg)
    requires
        return_result(n, needs, ret_type) is Err,
    ensures
        fallible_return_needs(n, needs, ret_type) == return_needs(needs, ret_type),
{
}

/// A result that is there at once is plain or fallible, and handled as such.
pub proof fn law_immediate_result(n: Names, needs: Needs, ret_type: Arg, ret_val: RetVal)
    ensures
        is_immediate(ret_val) <==> ret_val is Infallible || ret_val is Result,
        ret_val_result(n, needs, RetVal::Infallible(ret_type)) == return_result(n, needs, ret_type),
        ret_val_needs(n, needs, RetVal::Infallible(ret_type)) == return_needs(needs, ret_type),
        ret_val_result(n, needs, RetVal::Result(ret_type)) == fallible_return_result(
            n,
            needs,
            ret_type,
        ),
        ret_val_needs(n, needs, RetVal::Result(ret_type)) == fallible_return_needs(
            n,
            needs,
            ret_type,
        ),
{
}

/// As a V8 value, the result is wrapped in `Ok`: null for no value, and otherwise a value made of the
/// result by the constructor of its class. Other types have no code, and the error names them.
pub proof fn law_result_as_v8_value(n: Names, ret_type: Arg)
    ensures
        ({
            let ok = |value: Seq<Token>|
                Ok::<Seq<Token>, V8MappingError>(no_tokens().word("Ok").parens(value));
            let made = |class: &str, by: &str, value: Seq<Token>|
                no_tokens().tokens(n.deno_core).seg("v8").seg(class).seg(by).parens(
                    no_tokens().name(n.scope).op(',').tokens(value),
                ).dot("into").parens(no_tokens());
            let result = no_tokens().name(n.result);
            let code = v8_value_result(n, ret_type);
            match ret_type {
                Arg::Void => code == ok(
                    no_tokens().tokens(n.deno_core).seg("v8").seg("null").parens(
                        no_tokens().name(n.scope),
                    ).dot("into").parens(no_tokens()),
                ),
                Arg::Numeric(numeric) => if numeric == NumericArg::Bool {
                    code == ok(made("Boolean", "new", result))
                } else if numeric == NumericArg::U8 || numeric == NumericArg::U16 || numeric
                    == NumericArg::U32 {
                    code == ok(made("Integer", "new_from_unsigned", result))
                } else if numeric == NumericArg::I8 || numeric == NumericArg::I16 || numeric
                    == NumericArg::I32 || numeric == NumericArg::Smi {
                    code == ok(made("Integer", "new", result.word("as").word("i32")))
                } else {
                    code == Err::<Seq<Token>, V8MappingError>(
                        V8MappingError::NoMapping("a v8 return value", ret_type),
                    )
                },
                Arg::External(_) => code == ok(
                    made("External", "new", result.word("as").word("_")),
                ),
                Arg::Buffer(buffer) => if buffer == Buffer::JsBuffer(BufferMode::Default) || buffer
                    == Buffer::BytesMut(BufferMode::Default) || buffer == Buffer::Vec(
                    NumericArg::U8,
                ) || buffer == Buffer::BoxSlice(NumericArg::U8) {
                    code == ok(
                        no_tokens().tokens(n.deno_core).seg("_ops").seg("ToV8Value").seg(
                            "to_v8_value",
                        ).parens(result.op(',').name(n.scope)),
                    )
                } else {
                    code == Err::<Seq<Token>, V8MappingError>(
                        V8MappingError::NoMapping("a v8 return value", ret_type),
                    )
                },
                _ => code == Err::<Seq<Token>, V8MappingError>(
                    V8MappingError::NoMapping("a v8 return value", ret_type),
                ),
            }
        }),
{
}

} // verus!
