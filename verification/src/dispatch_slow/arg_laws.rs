//! What the code for an argument does with the value that the caller passed, or with the runtime.
use crate::dispatch_slow::args::{
    arg_needs, arg_result, extract_arg_tokens, from_arg_option_tokens, state_type_is_valid,
};
use crate::dispatch_slow::throw::{
    throw_type_error_static_string_tokens, throw_type_error_string_tokens, throw_type_error_tokens,
};
use crate::generator_state::{Names, Needs};
use crate::signature::{
    Arg, Buffer, BufferMode, External, NumericArg, RefType, Special, Strings, V8Arg,
};
use crate::token::{no_tokens, unraw, Token, TokenSeq};
use crate::token_stream::type_tokens;
use crate::V8MappingError;
use vstd::prelude::*;

verus! {

/// The argument of an index is the value of the given input index, under the name of the argument.
/// Only the name is missing where the argument has none.
pub proof fn law_input_is_extracted(n: Names, index: int, input_index: nat)
    requires
        0 <= index,
    ensures
        ({
            let taken = no_tokens().op('=').name(n.fn_args).op('.').word("get").parens(
                no_tokens().usize_lit(input_index).word("as").word("i32"),
            ).op(';');
            &&& index < n.args.len() ==> extract_arg_tokens(n, index, input_index) =~= seq![
                Token::Ident("let"@),
                Token::Ident(n.args[index]),
            ] + taken
            &&& index >= n.args.len() ==> extract_arg_tokens(n, index, input_index) =~= seq![
                Token::Ident("let"@),
            ] + taken
        }),
{
}

/// There is no code exactly for: no value at all, an optional string that is not owned, a buffer of
/// elements other than bytes or in a mode that is not supported, a shared scope, and a mutable
/// reference to a V8 value. The error names the type, and buffers have a message of their own.
pub proof fn law_argument_without_code(n: Names, needs: Needs, a: Seq<char>, arg: Arg)
    ensures
        arg_result(n, needs, a, arg) is Err <==> {
            ||| arg is Void
            ||| arg matches Arg::OptionString(strings) && strings != Strings::String
            ||| arg == Arg::RcRefCell(Special::HandleScope)
            ||| arg matches Arg::V8Ref(ref_type, _) && ref_type == RefType::Mut
            ||| arg matches Arg::OptionV8Ref(ref_type, _) && ref_type == RefType::Mut
            ||| arg matches Arg::Buffer(Buffer::Slice(_, numeric)) && numeric != NumericArg::U8
            ||| arg matches Arg::Buffer(Buffer::Vec(numeric)) && numeric != NumericArg::U8
            ||| arg matches Arg::Buffer(Buffer::BoxSlice(numeric)) && numeric != NumericArg::U8
            ||| arg matches Arg::Buffer(Buffer::Bytes(mode)) && mode != BufferMode::Copy
            ||| arg matches Arg::Buffer(Buffer::BytesMut(_))
            ||| arg == Arg::Buffer(Buffer::JsBuffer(BufferMode::Copy))
        },
        arg_result(n, needs, a, arg) is Err && arg is Buffer ==> arg_result(n, needs, a, arg)
            == Err::<Seq<Token>, V8MappingError>(
            V8MappingError::NoMapping("a buffer argument", arg),
        ),
        arg_result(n, needs, a, arg) is Err && !(arg is Buffer) ==> arg_result(n, needs, a, arg)
            == Err::<Seq<Token>, V8MappingError>(
            V8MappingError::NoMapping("a slow argument", arg),
        ),
{
}

/// The code for an argument is made of its type and of the names alone; of what is needed already
/// it only matters whether the function declares the scope.
pub proof fn law_argument_code_ignores_needs(
    n: Names,
    needs: Needs,
    other: Needs,
    a: Seq<char>,
    arg: Arg,
)
    requires
        needs.scope == other.scope,
    ensures
        arg_result(n, needs, a, arg) == arg_result(n, other, a, arg),
{
}

/// Where the code for an argument uses the scope anyway, or throws nothing, nothing that is needed
/// already matters: serialized values, objects of the runtime, booleans, and strings other than
/// byte strings.
pub proof fn law_argument_code_without_own_scope(
    n: Names,
    needs: Needs,
    other: Needs,
    a: Seq<char>,
    arg: Arg,
)
    requires
        arg is SerdeV8 || arg is Ref || arg is RcRefCell || arg is State || arg is OptionState
            || arg == Arg::Numeric(NumericArg::Bool) || arg is OptionString || (
        arg matches Arg::String(strings) && strings != Strings::CowByte),
    ensures
        arg_result(n, needs, a, arg) == arg_result(n, other, a, arg),
{
}

/// Of the names, the code for an argument uses its own, the path of the core crate, the scope, the
/// callback information that a scope is made from, and the op state. In particular it never uses
/// the values that the caller passed: those it has under its own name.
pub proof fn law_argument_code_uses_its_own_name(
    n: Names,
    other: Names,
    needs: Needs,
    a: Seq<char>,
    arg: Arg,
)
    requires
        n.deno_core == other.deno_core,
        n.scope == other.scope,
        n.info == other.info,
        n.opstate == other.opstate,
    ensures
        arg_result(n, needs, a, arg) == arg_result(other, needs, a, arg),
{
}

/// An argument is needed for the scope, the isolate or the op state, and never takes a need back:
/// buffers, serialized values and the scope itself need the scope; strings and global V8 values the
/// isolate; everything that lives in the op state the op state.
pub proof fn law_argument_needs(needs: Needs, arg: Arg)
    ensures
        arg_needs(needs, arg).scope <==> needs.scope || arg is Buffer || arg is SerdeV8 || (
        arg matches Arg::Ref(_, special) && special == Special::HandleScope),
        arg_needs(needs, arg).isolate <==> needs.isolate || arg is String || arg == Arg::OptionString(
            Strings::String,
        ) || arg is V8Global || arg is OptionV8Global,
        arg_needs(needs, arg).opstate <==> needs.opstate || arg is State || arg is OptionState
            || arg == Arg::RcRefCell(Special::OpState) || (arg matches Arg::Ref(_, special)
            && special == Special::OpState),
        arg_needs(needs, arg).args == needs.args,
        arg_needs(needs, arg).retval == needs.retval,
        arg_needs(needs, arg).opctx == needs.opctx,
{
}

/// A boolean is read off the value; any other number goes through a checked conversion to the
/// widest type of its family, and the value is turned down with a `TypeError` where that fails:
/// unsigned and signed integers of up to 32 bits, of more, and floats each have their own.
pub proof fn law_number_is_converted(n: Names, needs: Needs, a: Seq<char>, numeric: NumericArg)
    ensures
        numeric == NumericArg::Bool ==> arg_result(n, needs, a, Arg::Numeric(numeric)) == Ok::<
            Seq<Token>,
            V8MappingError,
        >(
            no_tokens().word("let").name(a).op('=').name(a).op('.').word("is_true").parens(
                no_tokens(),
            ).op(';'),
        ),
        numeric != NumericArg::Bool ==> ({
            let kind = if numeric == NumericArg::U8 || numeric == NumericArg::U16 || numeric
                == NumericArg::U32 {
                "u32"@
            } else if numeric == NumericArg::U64 || numeric == NumericArg::Usize {
                "u64"@
            } else if numeric == NumericArg::I64 || numeric == NumericArg::Isize {
                "i64"@
            } else if numeric == NumericArg::F32 {
                "f32"@
            } else if numeric == NumericArg::F64 {
                "f64"@
            } else {
                "i32"@
            };
            arg_result(n, needs, a, Arg::Numeric(numeric)) == Ok::<Seq<Token>, V8MappingError>(
                from_arg_option_tokens(n, needs, a, kind),
            )
        }),
{
}

/// A checked conversion calls `to_<kind>_option` on the value, throws `expected <kind>` where that
/// gives nothing, and casts what it gives to the type of the argument.
pub proof fn law_conversion_is_checked(n: Names, needs: Needs, a: Seq<char>, kind: Seq<char>)
    ensures
        from_arg_option_tokens(n, needs, a, kind) == no_tokens().word("let").word("Some").parens(
            no_tokens().name(a),
        ).op('=').tokens(n.deno_core).seg("_ops").op2(':', ':').name(
            "to_"@ + kind + "_option"@,
        ).parens(no_tokens().op('&').name(a)).word("else").braces(
            throw_type_error_tokens(n, needs, "expected "@ + kind),
        ).op(';').word("let").name(a).op('=').name(a).word("as").word("_").op(';'),
{
}

/// A foreign pointer goes through a checked conversion too, whatever it points to.
pub proof fn law_pointer_is_converted(n: Names, needs: Needs, a: Seq<char>, ref_type: RefType)
    ensures
        arg_result(n, needs, a, Arg::External(External::Ptr(ref_type))) == Ok::<
            Seq<Token>,
            V8MappingError,
        >(from_arg_option_tokens(n, needs, a, "external"@)),
{
}

/// An optional number is `None` exactly where the value is null or undefined; otherwise it is `Some`
/// of what the code for the plain number makes of it.
pub proof fn law_optional_number(n: Names, needs: Needs, a: Seq<char>, numeric: NumericArg)
    ensures
        arg_result(n, needs, a, Arg::OptionNumeric(numeric)) == Ok::<Seq<Token>, V8MappingError>(
            no_tokens().word("let").name(a).op('=').word("if").name(a).op('.').word(
                "is_null_or_undefined",
            ).parens(no_tokens()).braces(no_tokens().word("None")).word("else").braces(
                arg_result(n, needs, a, Arg::Numeric(numeric))->Ok_0.word("Some").parens(
                    no_tokens().name(a),
                ),
            ).op(';'),
        ),
{
}

/// An owned string is read from the value, and an optional one is `None` exactly where the value is
/// null or undefined and otherwise `Some` of the same string.
pub proof fn law_owned_string_is_read(n: Names, needs: Needs, a: Seq<char>)
    ensures
        ({
            let string = no_tokens().tokens(n.deno_core).seg("_ops").seg("to_string").parens(
                no_tokens().op('&').word("mut").name(n.scope).op(',').op('&').name(a),
            );
            &&& arg_result(n, needs, a, Arg::String(Strings::String)) == Ok::<
                Seq<Token>,
                V8MappingError,
            >(no_tokens().word("let").name(a).op('=').tokens(string).op(';'))
            &&& arg_result(n, needs, a, Arg::OptionString(Strings::String)) == Ok::<
                Seq<Token>,
                V8MappingError,
            >(
                no_tokens().word("let").name(a).op('=').word("if").name(a).op('.').word(
                    "is_null_or_undefined",
                ).parens(no_tokens()).braces(no_tokens().word("None")).word("else").braces(
                    no_tokens().word("Some").parens(string),
                ).op(';'),
            )
        }),
{
}

/// A borrowed string is read into a buffer on the stack that the code declares for it, under the
/// name of the argument with `_temp` behind it. A slice and a clone-on-write string differ in
/// nothing but the reference that the slice takes.
pub proof fn law_borrowed_string_is_read(n: Names, needs: Needs, a: Seq<char>) -> (buffer: Seq<
    Token,
>)
    ensures
        ({
            let temp = unraw(a) + "_temp"@;
            let size = |start: Seq<Token>|
                start.op(';').tokens(n.deno_core).seg("_ops").seg("STRING_STACK_BUFFER_SIZE");
            let uninit = no_tokens().seg("std").seg("mem").seg("MaybeUninit");
            let string = no_tokens().tokens(n.deno_core).seg("_ops").seg("to_str").parens(
                no_tokens().op('&').word("mut").name(n.scope).op(',').op('&').name(a).op(
                    ',',
                ).op('&').word("mut").name(temp),
            );
            &&& buffer == no_tokens().word("let").word("mut").name(temp).op(':').brackets(
                size(uninit.op('<').word("u8").op('>')),
            ).op('=').brackets(size(uninit.seg("uninit").parens(no_tokens()))).op(';')
            &&& arg_result(n, needs, a, Arg::String(Strings::CowStr)) == Ok::<
                Seq<Token>,
                V8MappingError,
            >(no_tokens().tokens(buffer).word("let").name(a).op('=').tokens(string).op(';'))
            &&& arg_result(n, needs, a, Arg::String(Strings::RefStr)) == Ok::<
                Seq<Token>,
                V8MappingError,
            >(
                no_tokens().tokens(buffer).word("let").name(a).op('=').op('&').tokens(string).op(
                    ';',
                ),
            )
        }),
{
    let temp = unraw(a) + "_temp"@;
    no_tokens().word("let").word("mut").name(temp).op(':').brackets(
        no_tokens().seg("std").seg("mem").seg("MaybeUninit").op('<').word("u8").op('>').op(
            ';',
        ).tokens(n.deno_core).seg("_ops").seg("STRING_STACK_BUFFER_SIZE"),
    ).op('=').brackets(
        no_tokens().seg("std").seg("mem").seg("MaybeUninit").seg("uninit").parens(no_tokens()).op(
            ';',
        ).tokens(n.deno_core).seg("_ops").seg("STRING_STACK_BUFFER_SIZE"),
    ).op(';')
}

/// A byte string is read from the value; where the value is no byte string, the message that the
/// conversion gives is thrown.
pub proof fn law_byte_string_is_read(n: Names, needs: Needs, a: Seq<char>)
    ensures
        arg_result(n, needs, a, Arg::String(Strings::CowByte)) == Ok::<Seq<Token>, V8MappingError>(
            no_tokens().word("let").name(a).op('=').word("match").tokens(n.deno_core).seg(
                "_ops",
            ).seg("to_cow_one_byte").parens(
                no_tokens().op('&').word("mut").name(n.scope).op(',').op('&').name(a),
            ).braces(
                no_tokens().word("Ok").parens(no_tokens().name(a)).op2('=', '>').name(a).op(
                    ',',
                ).word("Err").parens(no_tokens().name(a)).op2('=', '>').braces(
                    throw_type_error_static_string_tokens(n, needs, a),
                ),
            ).op(';'),
        ),
{
}

/// A buffer is taken as a slice of the bytes that the caller passed, and the message of the
/// conversion is thrown where the value is no byte array. The memory of the caller is detached
/// exactly for a JavaScript buffer that asks for that: every other type takes the very same slice,
/// whatever else is needed. What is made of the slice depends on the type alone: a reference to it,
/// a copy of it as a vector, a boxed slice or bytes, or a JavaScript buffer that owns it.
pub proof fn law_buffer_is_taken(n: Names, needs: Needs, a: Seq<char>, buffer: Buffer) -> (make:
    Seq<Token>)
    requires
        arg_result(n, needs, a, Arg::Buffer(buffer)) is Ok,
    ensures
        arg_result(n, needs, a, Arg::Buffer(buffer))->Ok_0 =~= seq![
            Token::Ident("let"@),
            Token::Ident("mut"@),
            Token::Ident(a),
        ].op('=').word("match").word("unsafe").braces(
            no_tokens().tokens(n.deno_core).seg("_ops").seg(
                if buffer == Buffer::JsBuffer(BufferMode::Detach) {
                    "to_v8_slice_detachable"
                } else {
                    "to_v8_slice"
                },
            ).op2(':', ':').op('<').tokens(n.deno_core).seg("v8").seg("Uint8Array").op('>').parens(
                no_tokens().op('&').word("mut").name(n.scope).op(',').name(a),
            ),
        ).braces(
            no_tokens().word("Ok").parens(no_tokens().name(a)).op2('=', '>').name(a).op(',').word(
                "Err",
            ).parens(no_tokens().name(unraw(a) + "_err"@)).op2('=', '>').braces(
                throw_type_error_static_string_tokens(n, needs, unraw(a) + "_err"@),
            ),
        ).op(';') + make,
        ({
            let bind = no_tokens().word("let").name(a).op('=');
            &&& buffer is Slice ==> make == bind.op('&').word("mut").name(a).op(';')
            &&& buffer is Vec ==> make == bind.name(a).dot("to_vec").parens(no_tokens()).op(';')
            &&& buffer is BoxSlice ==> make == bind.name(a).dot("to_boxed_slice").parens(
                no_tokens(),
            ).op(';')
            &&& buffer is Bytes ==> make == bind.name(a).dot("to_vec").parens(no_tokens()).dot(
                "into",
            ).parens(no_tokens()).op(';')
            &&& buffer is JsBuffer ==> make == bind.tokens(n.deno_core).seg("serde_v8").seg(
                "JsBuffer",
            ).seg("from_parts").parens(no_tokens().name(a)).op(';')
        }),
{
    let bind = no_tokens().word("let").name(a).op('=');
    match buffer {
        Buffer::Slice(_, _) => bind.op('&').word("mut").name(a).op(';'),
        Buffer::Vec(_) => bind.name(a).dot("to_vec").parens(no_tokens()).op(';'),
        Buffer::BoxSlice(_) => bind.name(a).dot("to_boxed_slice").parens(no_tokens()).op(';'),
        Buffer::JsBuffer(_) => bind.tokens(n.deno_core).seg("serde_v8").seg("JsBuffer").seg(
            "from_parts",
        ).parens(no_tokens().name(a)).op(';'),
        _ => bind.name(a).dot("to_vec").parens(no_tokens()).dot("into").parens(no_tokens()).op(
            ';',
        ),
    }
}

/// Two buffers take their slices by the same statement, whatever their types are and whatever is
/// needed already besides the scope, as long as both or neither ask for the memory to be detached.
pub proof fn law_buffers_are_taken_alike(
    n: Names,
    needs: Needs,
    other: Needs,
    a: Seq<char>,
    buffer: Buffer,
    other_buffer: Buffer,
)
    requires
        arg_result(n, needs, a, Arg::Buffer(buffer)) is Ok,
        arg_result(n, other, a, Arg::Buffer(other_buffer)) is Ok,
        needs.scope == other.scope,
        buffer == Buffer::JsBuffer(BufferMode::Detach) <==> other_buffer == Buffer::JsBuffer(
            BufferMode::Detach,
        ),
    ensures
        arg_result(n, needs, a, Arg::Buffer(buffer))->Ok_0.take(9) =~= arg_result(
            n,
            other,
            a,
            Arg::Buffer(other_buffer),
        )->Ok_0.take(9),
        arg_result(n, needs, a, Arg::Buffer(buffer))->Ok_0[8] == Token::Punct(';', false),
{
    law_buffer_is_taken(n, needs, a, buffer);
    law_buffer_is_taken(n, other, a, other_buffer);
}

/// The objects of the runtime are borrowed or shared: the scope always mutably, the op state as the
/// reference asks, and the cell around it by a clone. Nothing of the caller is read.
pub proof fn law_runtime_object_is_handed_over(n: Names, needs: Needs, a: Seq<char>)
    ensures
        ({
            let bind = no_tokens().word("let").name(a).op('=');
            &&& forall|ref_type: RefType| #[trigger]
                arg_result(n, needs, a, Arg::Ref(ref_type, Special::HandleScope)) == Ok::<
                    Seq<Token>,
                    V8MappingError,
                >(bind.op('&').word("mut").name(n.scope).op(';'))
            &&& arg_result(n, needs, a, Arg::Ref(RefType::Ref, Special::OpState)) == Ok::<
                Seq<Token>,
                V8MappingError,
            >(bind.op('&').name(n.opstate).dot("borrow").parens(no_tokens()).op(';'))
            &&& arg_result(n, needs, a, Arg::Ref(RefType::Mut, Special::OpState)) == Ok::<
                Seq<Token>,
                V8MappingError,
            >(
                bind.op('&').word("mut").name(n.opstate).dot("borrow_mut").parens(no_tokens()).op(
                    ';',
                ),
            )
            &&& arg_result(n, needs, a, Arg::RcRefCell(Special::OpState)) == Ok::<
                Seq<Token>,
                V8MappingError,
            >(bind.name(n.opstate).dot("clone").parens(no_tokens()).op(';'))
        }),
{
}

/// A value in the op state is looked up by its type: through a shared borrow of the op state for a
/// shared reference, and through a mutable one for a mutable reference. An optional value is looked
/// up by a method that can fail, and one that is not optional by one that cannot.
pub proof fn law_state_value_is_borrowed(
    n: Names,
    needs: Needs,
    a: Seq<char>,
    ref_type: RefType,
    state: String,
)
    ensures
        ({
            let mutable = ref_type == RefType::Mut;
            let start = if mutable {
                no_tokens().word("let").word("mut").name(a)
            } else {
                no_tokens().word("let").name(a)
            };
            let borrow = if mutable {
                "borrow_mut"
            } else {
                "borrow"
            };
            let try_borrow = if mutable {
                "try_borrow_mut"
            } else {
                "try_borrow"
            };
            let borrowed = start.op('=').name(n.opstate).dot(borrow).parens(no_tokens()).op(
                ';',
            ).word("let").name(a).op('=').name(a);
            let looked_up = |by: &str|
                borrowed.dot(by).op2(':', ':').op('<').tokens(type_tokens(state@)->0).op(
                    '>',
                ).parens(no_tokens()).op(';');
            &&& arg_result(n, needs, a, Arg::State(ref_type, state)) == Ok::<
                Seq<Token>,
                V8MappingError,
            >(looked_up(borrow))
            &&& arg_result(n, needs, a, Arg::OptionState(ref_type, state)) == Ok::<
                Seq<Token>,
                V8MappingError,
            >(looked_up(try_borrow))
        }),
        state_type_is_valid(Arg::State(ref_type, state)) <==> type_tokens(state@) is Some,
        state_type_is_valid(Arg::OptionState(ref_type, state)) <==> type_tokens(state@) is Some,
{
}

/// Only the types of values in the op state have to be types.
pub proof fn law_other_types_are_valid(arg: Arg)
    requires
        !(arg is State),
        !(arg is OptionState),
    ensures
        state_type_is_valid(arg),
{
}

/// A V8 value is cast to the class of the argument, and `expected <class>` is thrown where it is of
/// another class; the cast of an optional one lets null and undefined through. What is made of the
/// cast value comes last.
pub proof fn law_v8_value_is_cast(
    n: Names,
    needs: Needs,
    a: Seq<char>,
    v8: V8Arg,
    arg: Arg,
) -> (value: Seq<Token>)
    requires
        arg == Arg::V8Local(v8) || arg == Arg::V8Ref(RefType::Ref, v8) || arg == Arg::V8Global(v8)
            || arg == Arg::OptionV8Local(v8) || arg == Arg::OptionV8Ref(RefType::Ref, v8) || arg
            == Arg::OptionV8Global(v8),
    ensures
        arg_result(n, needs, a, arg) is Ok,
        arg_result(n, needs, a, arg)->Ok_0 == no_tokens().word("let").word("Ok").parens(
            no_tokens().word("mut").name(a),
        ).op('=').tokens(n.deno_core).seg("_ops").seg(
            if arg is OptionV8Local || arg is OptionV8Ref || arg is OptionV8Global {
                "v8_try_convert_option"
            } else {
                "v8_try_convert"
            },
        ).op2(':', ':').op('<').tokens(n.deno_core).seg("v8").op2(':', ':').name(
            v8.spec_name(),
        ).op('>').parens(no_tokens().name(a)).word("else").braces(
            throw_type_error_tokens(n, needs, "expected "@ + v8.spec_name()),
        ).op(';').tokens(no_tokens().word("let").name(a).op('=').tokens(value).op(';')),
        ({
            let global = |of: Seq<char>|
                no_tokens().tokens(n.deno_core).seg("v8").seg("Global").seg("new").parens(
                    no_tokens().op('&').word("mut").name(n.scope).op(',').name(of),
                );
            let optional = |some: Seq<Token>|
                no_tokens().word("match").op('&').name(a).braces(
                    no_tokens().word("None").op2('=', '>').word("None").op(',').word(
                        "Some",
                    ).parens(no_tokens().word("v")).op2('=', '>').word("Some").parens(some),
                );
            &&& arg is V8Local || arg is OptionV8Local ==> value == no_tokens().name(a)
            &&& arg is V8Ref ==> value == no_tokens().op('&').name(a)
            &&& arg is OptionV8Ref ==> value == optional(
                no_tokens().seg("std").seg("ops").seg("Deref").seg("deref").parens(
                    no_tokens().word("v"),
                ),
            )
            &&& arg is V8Global ==> value == global(a)
            &&& arg is OptionV8Global ==> value == optional(global("v"@))
        }),
{
    let global = |of: Seq<char>|
        no_tokens().tokens(n.deno_core).seg("v8").seg("Global").seg("new").parens(
            no_tokens().op('&').word("mut").name(n.scope).op(',').name(of),
        );
    let optional = |some: Seq<Token>|
        no_tokens().word("match").op('&').name(a).braces(
            no_tokens().word("None").op2('=', '>').word("None").op(',').word("Some").parens(
                no_tokens().word("v"),
            ).op2('=', '>').word("Some").parens(some),
        );
    match arg {
        Arg::V8Ref(_, _) => no_tokens().op('&').name(a),
        Arg::OptionV8Ref(_, _) => optional(
            no_tokens().seg("std").seg("ops").seg("Deref").seg("deref").parens(
                no_tokens().word("v"),
            ),
        ),
        Arg::V8Global(_) => global(a),
        Arg::OptionV8Global(_) => optional(global("v"@)),
        _ => no_tokens().name(a),
    }
}

/// A serialized value is read in the scope, whatever type it is read as, and the text of the error
/// is thrown where that fails. The scope is there for the exception too.
pub proof fn law_serialized_value_is_read(n: Names, needs: Needs, a: Seq<char>, class: String)
    ensures
        arg_result(n, needs, a, Arg::SerdeV8(class)) == Ok::<Seq<Token>, V8MappingError>(
            no_tokens().word("let").name(a).op('=').word("match").tokens(n.deno_core).seg(
                "_ops",
            ).seg("serde_v8_to_rust").parens(
                no_tokens().op('&').word("mut").name(n.scope).op(',').name(a),
            ).braces(
                no_tokens().word("Ok").parens(no_tokens().word("t")).op2('=', '>').word("t").op(
                    ',',
                ).word("Err").parens(no_tokens().name(unraw(a) + "_err"@)).op2('=', '>').braces(
                    throw_type_error_string_tokens(
                        n,
                        (Needs { scope: true, ..needs }),
                        unraw(a) + "_err"@,
                    ).op(';'),
                ),
            ).op(';'),
        ),
{
}

} // verus!
