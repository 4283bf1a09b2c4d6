//! That the generated code declares its names before it uses them.
use crate::config::MacroConfig;
use crate::dispatch_shared::{
    is_v8_global, v8_global_value_tokens, v8_local_value_tokens, v8_to_arg_tokens,
};
use crate::dispatch_slow::args::{
    arg_needs, arg_result, buffer_arg_result, convert_arg_tokens, cow_byte_arg_tokens,
    deserialize_arg_tokens, extract_arg_tokens, make_buffer_tokens, make_v8_slice_tokens,
    numeric_arg_tokens, numeric_conversion, option_string_arg_tokens, optional_arg_tokens,
    rc_state_arg_tokens, ref_arg_tokens, state_arg_tokens, string_arg_tokens, string_buffer_tokens,
    to_str_tokens, to_string_tokens, v8_arg_tokens,
};
use crate::dispatch_slow::generate::{
    all_mapped, args_code, body_needs, body_tokens, call_args_tokens, call_tokens, declares_isolate,
    dispatch_result, function_tokens, lemma_args_mapping, pick_up_needs, pick_up_tokens,
    picks_up_error, prologue_needs, prologue_tokens, signature_code, take_error_tokens, tokens_if,
    ArgsCode,
};
use crate::dispatch_slow::laws::{
    input_count, law_args_needs_only_grow, law_needs_only_grow, value_type,
};
use crate::dispatch_slow::prologue::{
    fn_args_tokens, isolate_tokens, opctx_tokens, opstate_tokens, retval_tokens, scope_tokens,
};
use crate::dispatch_slow::results::{
    fallible_return_needs, fallible_return_result, is_immediate, plain_return_needs_scope,
    plain_return_result, ret_val_result, return_buffer_tokens, return_external_tokens,
    return_match_tokens, return_needs, return_numeric_tokens, return_option_tokens, return_result,
    return_string_tokens, serialize_result_tokens, set_null_tokens, set_result_tokens,
};
use crate::dispatch_slow::throw::{
    error_text_tokens, maybe_args_tokens, maybe_opctx_tokens, maybe_scope_tokens,
    one_byte_msg_tokens, throw_err_tokens, throw_exception_needs, throw_exception_tokens,
    throw_msg_tokens, throw_type_error_static_string_tokens, throw_type_error_string_tokens,
    throw_type_error_tokens,
};
use crate::generator_state::{Names, Needs};
use crate::signature::{
    Arg, Buffer, External, NumericArg, ParsedSignature, RefType, Special, Strings, V8Arg,
};
use crate::token::{no_tokens, unraw, Bracket, Token, TokenSeq};
use crate::token_stream::type_tokens;
use crate::words::{is_fixed_word, lemma_fixed_words};
use vstd::prelude::*;

verus! {

/// `text` is one of the names that the generated function declares for itself: the scope, the
/// return value, the arguments, the context and the op state.
pub open spec fn is_declared_name(n: Names, text: Seq<char>) -> bool {
    ||| text == n.scope
    ||| text == n.retval
    ||| text == n.fn_args
    ||| text == n.opctx
    ||| text == n.opstate
}

/// `text` neither is such a name nor introduces one.
#[verifier::opaque]
pub open spec fn is_neutral(n: Names, text: Seq<char>) -> bool {
    &&& !is_declared_name(n, text)
    &&& text != "let"@
    &&& text != "mut"@
}

/// Where a reader of the code stands.
pub struct Reader {
    /// The names that are declared here.
    pub declared: Set<Seq<char>>,
    /// The last word was `let`, or `mut` behind `let`.
    pub at_binding: bool,
    /// Each name was declared where it was used.
    pub ok: bool,
}

/// The reader behind one more token. A name behind `let` or `let mut` is declared from there on to
/// the end of the brackets that it stands in; anywhere else it is used.
pub open spec fn read_token(n: Names, reader: Reader, token: Token) -> Reader
    decreases token,
{
    match token {
        Token::Ident(text) => if is_neutral(n, text) {
            Reader { at_binding: false, ..reader }
        } else if !is_declared_name(n, text) {
            Reader { at_binding: text == "let"@ || reader.at_binding, ..reader }
        } else if reader.at_binding {
            Reader { declared: reader.declared.insert(text), at_binding: false, ..reader }
        } else {
            Reader { ok: reader.ok && reader.declared.contains(text), ..reader }
        },
        Token::Group(_, inner) => Reader {
            at_binding: false,
            ok: read(n, Reader { at_binding: false, ..reader }, inner).ok,
            ..reader
        },
        _ => Reader { at_binding: false, ..reader },
    }
}

/// The reader behind the code.
pub open spec fn read(n: Names, reader: Reader, code: Seq<Token>) -> Reader
    decreases code,
{
    if code.len() == 0 {
        reader
    } else {
        read_token(n, read(n, reader, code.drop_last()), code.last())
    }
}

/// Each name that the function declares for itself is declared where the code uses it.
pub open spec fn is_well_scoped(n: Names, code: Seq<Token>) -> bool {
    read(n, Reader { declared: Set::empty(), at_binding: false, ok: true }, code).ok
}

/// The code holds neither such a name nor a word that introduces one, not even inside brackets.
pub open spec fn is_foreign(n: Names, code: Seq<Token>) -> bool
    decreases code,
{
    forall|i: int| 0 <= i < code.len() ==> is_foreign_token(n, #[trigger] code[i])
}

/// The token holds neither such a name nor a word that introduces one.
pub open spec fn is_foreign_token(n: Names, token: Token) -> bool
    decreases token,
{
    match token {
        Token::Ident(text) => is_neutral(n, text),
        Token::Group(_, inner) => is_foreign(n, inner),
        _ => true,
    }
}

/// The names are told apart from the words of the generated code. The scope may be named `scope`
/// and the context `opctx`.
pub open spec fn names_are_fresh(n: Names) -> bool {
    &&& forall|text: Seq<char>| #[trigger] is_fixed_word(text) ==> !is_declared_name(n, text)
    &&& !is_declared_name(n, "let"@)
    &&& !is_declared_name(n, "mut"@)
    &&& is_declared_name(n, "scope"@) ==> n.scope == "scope"@
    &&& is_declared_name(n, "opctx"@) ==> n.opctx == "opctx"@
    &&& forall|numeric: NumericArg|
        numeric != NumericArg::Bool ==> #[trigger] is_neutral(
            n,
            "to_"@ + numeric_conversion(numeric) + "_option"@,
        )
    &&& is_neutral(n, "to_"@ + "external"@ + "_option"@)
    &&& forall|v8: V8Arg| is_neutral(n, #[trigger] v8.spec_name())
    &&& is_foreign(n, n.deno_core)
    &&& is_neutral(n, n.info)
    &&& is_neutral(n, n.result)
    &&& is_neutral(n, n.slow_function)
    &&& is_neutral(n, unraw(n.retval) + "_err"@)
    &&& forall|i: int| 0 <= i < n.args.len() ==> #[trigger] arg_is_fresh(n, n.args[i])
}

/// The name of an argument, and the names made from it, are told apart from the names that the
/// function declares for itself.
pub open spec fn arg_is_fresh(n: Names, a: Seq<char>) -> bool {
    &&& is_neutral(n, a)
    &&& is_neutral(n, unraw(a) + "_temp"@)
    &&& is_neutral(n, unraw(a) + "_err"@)
}

/// What is needed is declared.
pub open spec fn covers(n: Names, declared: Set<Seq<char>>, needs: Needs) -> bool {
    &&& needs.scope || needs.isolate ==> declared.contains(n.scope)
    &&& needs.retval ==> declared.contains(n.retval)
    &&& needs.args ==> declared.contains(n.fn_args)
    &&& needs.opctx ==> declared.contains(n.opctx)
    &&& needs.opstate ==> declared.contains(n.opstate)
}

/// The reader stands between two statements or in front of an expression, and no name was
/// undeclared so far.
pub open spec fn is_settled(reader: Reader) -> bool {
    reader.ok && !reader.at_binding
}

broadcast proof fn lemma_read_empty(n: Names, reader: Reader)
    ensures
        #[trigger] read(n, reader, no_tokens()) == reader,
{
}

broadcast proof fn lemma_read_push(n: Names, reader: Reader, code: Seq<Token>, token: Token)
    ensures
        #[trigger] read(n, reader, code.push(token)) == read_token(
            n,
            read(n, reader, code),
            token,
        ),
{
    assert(code.push(token).drop_last() =~= code);
}

broadcast proof fn lemma_read_add(n: Names, reader: Reader, a: Seq<Token>, b: Seq<Token>)
    ensures
        #[trigger] read(n, reader, a + b) == read(n, read(n, reader, a), b),
    decreases b.len(),
{
    if b.len() == 0 {
        assert(a + b =~= a);
    } else {
        lemma_read_add(n, reader, a, b.drop_last());
        assert((a + b).drop_last() =~= a + b.drop_last());
    }
}

broadcast proof fn lemma_read_group(n: Names, reader: Reader, bracket: Bracket, inner: Seq<Token>)
    ensures
        #[trigger] read_token(n, reader, Token::Group(bracket, inner)) == (Reader {
            at_binding: false,
            ok: read(n, Reader { at_binding: false, ..reader }, inner).ok,
            ..reader
        }),
{
}

broadcast group group_read {
    lemma_read_empty,
    lemma_read_group,
    lemma_read_push,
    lemma_read_add,
}

/// Code without such names leaves the reader where it is.
proof fn lemma_read_foreign(n: Names, reader: Reader, code: Seq<Token>)
    requires
        is_foreign(n, code),
        is_settled(reader),
    ensures
        read(n, reader, code) == reader,
    decreases code,
{
    if code.len() > 0 {
        let token = code.last();
        lemma_read_foreign(n, reader, code.drop_last());
        assert(is_foreign_token(n, token));
        assert(read(n, reader, code) == read_token(n, reader, token));
        if let Token::Group(_, inner) = token {
            lemma_read_foreign(n, reader, inner);
        }
    }
}

/// What the reader makes of the words of the generated code and of the names in it.
proof fn lemma_words_read(n: Names)
    requires
        names_are_fresh(n),
    ensures
        !is_neutral(n, "let"@) && !is_declared_name(n, "let"@),
        !is_neutral(n, "mut"@) && !is_declared_name(n, "mut"@) && "mut"@ != "let"@,
        is_declared_name(n, n.scope) && !is_neutral(n, n.scope),
        is_declared_name(n, n.retval) && !is_neutral(n, n.retval),
        is_declared_name(n, n.fn_args) && !is_neutral(n, n.fn_args),
        is_declared_name(n, n.opctx) && !is_neutral(n, n.opctx),
        is_declared_name(n, n.opstate) && !is_neutral(n, n.opstate),
        n.scope == "scope"@ || is_neutral(n, "scope"@),
        n.opctx == "opctx"@ || is_neutral(n, "opctx"@),
        forall|reader: Reader|
            is_settled(reader) ==> #[trigger] read(n, reader, n.deno_core) == reader,
        is_neutral(n, "BigInt"@),
        is_neutral(n, "Boolean"@),
        is_neutral(n, "CallbackScope"@),
        is_neutral(n, "Deref"@),
        is_neutral(n, "Err"@),
        is_neutral(n, "Error"@),
        is_neutral(n, "Exception"@),
        is_neutral(n, "External"@),
        is_neutral(n, "FunctionCallbackArguments"@),
        is_neutral(n, "FunctionCallbackInfo"@),
        is_neutral(n, "Global"@),
        is_neutral(n, "Integer"@),
        is_neutral(n, "JsBuffer"@),
        is_neutral(n, "Local"@),
        is_neutral(n, "MaybeUninit"@),
        is_neutral(n, "NewStringType"@),
        is_neutral(n, "None"@),
        is_neutral(n, "Normal"@),
        is_neutral(n, "Ok"@),
        is_neutral(n, "OpCtx"@),
        is_neutral(n, "ReturnValue"@),
        is_neutral(n, "STRING_STACK_BUFFER_SIZE"@),
        is_neutral(n, "Self"@),
        is_neutral(n, "Some"@),
        is_neutral(n, "String"@),
        is_neutral(n, "ToV8Value"@),
        is_neutral(n, "_"@),
        is_neutral(n, "_ops"@),
        is_neutral(n, "anyhow"@),
        is_neutral(n, "as"@),
        is_neutral(n, "as_bytes"@),
        is_neutral(n, "bool"@),
        is_neutral(n, "borrow"@),
        is_neutral(n, "borrow_mut"@),
        is_neutral(n, "call"@),
        is_neutral(n, "cast"@),
        is_neutral(n, "clone"@),
        is_neutral(n, "const"@),
        is_neutral(n, "data"@),
        is_neutral(n, "deref"@),
        is_neutral(n, "else"@),
        is_neutral(n, "err"@),
        is_neutral(n, "error"@),
        is_neutral(n, "exc"@),
        is_neutral(n, "exception"@),
        is_neutral(n, "extern"@),
        is_neutral(n, "fn"@),
        is_neutral(n, "format"@),
        is_neutral(n, "from"@),
        is_neutral(n, "from_function_callback_info"@),
        is_neutral(n, "from_parts"@),
        is_neutral(n, "get"@),
        is_neutral(n, "get_error_class_fn"@),
        is_neutral(n, "i32"@),
        is_neutral(n, "if"@),
        is_neutral(n, "into"@),
        is_neutral(n, "is_empty"@),
        is_neutral(n, "is_null_or_undefined"@),
        is_neutral(n, "is_true"@),
        is_neutral(n, "isolate"@),
        is_neutral(n, "match"@),
        is_neutral(n, "mem"@),
        is_neutral(n, "msg"@),
        is_neutral(n, "new"@),
        is_neutral(n, "new_from_i64"@),
        is_neutral(n, "new_from_one_byte"@),
        is_neutral(n, "new_from_u64"@),
        is_neutral(n, "new_from_unsigned"@),
        is_neutral(n, "null"@),
        is_neutral(n, "ops"@),
        is_neutral(n, "return"@),
        is_neutral(n, "serde_rust_to_v8"@),
        is_neutral(n, "serde_v8"@),
        is_neutral(n, "serde_v8_to_rust"@),
        is_neutral(n, "set"@),
        is_neutral(n, "set_bool"@),
        is_neutral(n, "set_double"@),
        is_neutral(n, "set_empty_string"@),
        is_neutral(n, "set_int32"@),
        is_neutral(n, "set_null"@),
        is_neutral(n, "set_uint32"@),
        is_neutral(n, "state"@),
        is_neutral(n, "std"@),
        is_neutral(n, "t"@),
        is_neutral(n, "temp"@),
        is_neutral(n, "throw_exception"@),
        is_neutral(n, "to_boxed_slice"@),
        is_neutral(n, "to_cow_one_byte"@),
        is_neutral(n, "to_str"@),
        is_neutral(n, "to_string"@),
        is_neutral(n, "to_v8_error"@),
        is_neutral(n, "to_v8_slice"@),
        is_neutral(n, "to_v8_slice_detachable"@),
        is_neutral(n, "to_v8_value"@),
        is_neutral(n, "to_vec"@),
        is_neutral(n, "try_borrow"@),
        is_neutral(n, "try_borrow_mut"@),
        is_neutral(n, "type_error"@),
        is_neutral(n, "u32"@),
        is_neutral(n, "u8"@),
        is_neutral(n, "uninit"@),
        is_neutral(n, "unsafe"@),
        is_neutral(n, "unsafely_take_last_error_for_ops_only"@),
        is_neutral(n, "unwrap"@),
        is_neutral(n, "v"@),
        is_neutral(n, "v8"@),
        is_neutral(n, "v8_try_convert"@),
        is_neutral(n, "v8_try_convert_option"@),
        is_neutral(n, "value"@),
{
    reveal(is_neutral);
    reveal_strlit("let");
    reveal_strlit("mut");
    reveal_strlit("scope");
    reveal_strlit("opctx");
    assert("let"@.len() == 3 && "let"@[0] == 'l');
    assert("mut"@.len() == 3 && "mut"@[0] == 'm');
    assert("scope"@.len() == 5);
    assert("opctx"@.len() == 5);
    assert forall|reader: Reader| is_settled(reader) implies #[trigger] read(
        n,
        reader,
        n.deno_core,
    ) == reader by {
        lemma_read_foreign(n, reader, n.deno_core);
    }
    assert forall|text: Seq<char>| #[trigger] is_fixed_word(text) implies is_neutral(n, text) by {
        lemma_fixed_words(text);
    }
    assert(is_fixed_word("BigInt"@));
    assert(is_fixed_word("Boolean"@));
    assert(is_fixed_word("CallbackScope"@));
    assert(is_fixed_word("Deref"@));
    assert(is_fixed_word("Err"@));
    assert(is_fixed_word("Error"@));
    assert(is_fixed_word("Exception"@));
    assert(is_fixed_word("External"@));
    assert(is_fixed_word("FunctionCallbackArguments"@));
    assert(is_fixed_word("FunctionCallbackInfo"@));
    assert(is_fixed_word("Global"@));
    assert(is_fixed_word("Integer"@));
    assert(is_fixed_word("JsBuffer"@));
    assert(is_fixed_word("Local"@));
    assert(is_fixed_word("MaybeUninit"@));
    assert(is_fixed_word("NewStringType"@));
    assert(is_fixed_word("None"@));
    assert(is_fixed_word("Normal"@));
    assert(is_fixed_word("Ok"@));
    assert(is_fixed_word("OpCtx"@));
    assert(is_fixed_word("ReturnValue"@));
    assert(is_fixed_word("STRING_STACK_BUFFER_SIZE"@));
    assert(is_fixed_word("Self"@));
    assert(is_fixed_word("Some"@));
    assert(is_fixed_word("String"@));
    assert(is_fixed_word("ToV8Value"@));
    assert(is_fixed_word("_"@));
    assert(is_fixed_word("_ops"@));
    assert(is_fixed_word("anyhow"@));
    assert(is_fixed_word("as"@));
    assert(is_fixed_word("as_bytes"@));
    assert(is_fixed_word("bool"@));
    assert(is_fixed_word("borrow"@));
    assert(is_fixed_word("borrow_mut"@));
    assert(is_fixed_word("call"@));
    assert(is_fixed_word("cast"@));
    assert(is_fixed_word("clone"@));
    assert(is_fixed_word("const"@));
    assert(is_fixed_word("data"@));
    assert(is_fixed_word("deref"@));
    assert(is_fixed_word("else"@));
    assert(is_fixed_word("err"@));
    assert(is_fixed_word("error"@));
    assert(is_fixed_word("exc"@));
    assert(is_fixed_word("exception"@));
    assert(is_fixed_word("extern"@));
    assert(is_fixed_word("fn"@));
    assert(is_fixed_word("format"@));
    assert(is_fixed_word("from"@));
    assert(is_fixed_word("from_function_callback_info"@));
    assert(is_fixed_word("from_parts"@));
    assert(is_fixed_word("get"@));
    assert(is_fixed_word("get_error_class_fn"@));
    assert(is_fixed_word("i32"@));
    assert(is_fixed_word("if"@));
    assert(is_fixed_word("into"@));
    assert(is_fixed_word("is_empty"@));
    assert(is_fixed_word("is_null_or_undefined"@));
    assert(is_fixed_word("is_true"@));
    assert(is_fixed_word("isolate"@));
    assert(is_fixed_word("match"@));
    assert(is_fixed_word("mem"@));
    assert(is_fixed_word("msg"@));
    assert(is_fixed_word("new"@));
    assert(is_fixed_word("new_from_i64"@));
    assert(is_fixed_word("new_from_one_byte"@));
    assert(is_fixed_word("new_from_u64"@));
    assert(is_fixed_word("new_from_unsigned"@));
    assert(is_fixed_word("null"@));
    assert(is_fixed_word("ops"@));
    assert(is_fixed_word("return"@));
    assert(is_fixed_word("serde_rust_to_v8"@));
    assert(is_fixed_word("serde_v8"@));
    assert(is_fixed_word("serde_v8_to_rust"@));
    assert(is_fixed_word("set"@));
    assert(is_fixed_word("set_bool"@));
    assert(is_fixed_word("set_double"@));
    assert(is_fixed_word("set_empty_string"@));
    assert(is_fixed_word("set_int32"@));
    assert(is_fixed_word("set_null"@));
    assert(is_fixed_word("set_uint32"@));
    assert(is_fixed_word("state"@));
    assert(is_fixed_word("std"@));
    assert(is_fixed_word("t"@));
    assert(is_fixed_word("temp"@));
    assert(is_fixed_word("throw_exception"@));
    assert(is_fixed_word("to_boxed_slice"@));
    assert(is_fixed_word("to_cow_one_byte"@));
    assert(is_fixed_word("to_str"@));
    assert(is_fixed_word("to_string"@));
    assert(is_fixed_word("to_v8_error"@));
    assert(is_fixed_word("to_v8_slice"@));
    assert(is_fixed_word("to_v8_slice_detachable"@));
    assert(is_fixed_word("to_v8_value"@));
    assert(is_fixed_word("to_vec"@));
    assert(is_fixed_word("try_borrow"@));
    assert(is_fixed_word("try_borrow_mut"@));
    assert(is_fixed_word("type_error"@));
    assert(is_fixed_word("u32"@));
    assert(is_fixed_word("u8"@));
    assert(is_fixed_word("uninit"@));
    assert(is_fixed_word("unsafe"@));
    assert(is_fixed_word("unsafely_take_last_error_for_ops_only"@));
    assert(is_fixed_word("unwrap"@));
    assert(is_fixed_word("v"@));
    assert(is_fixed_word("v8"@));
    assert(is_fixed_word("v8_try_convert"@));
    assert(is_fixed_word("v8_try_convert_option"@));
    assert(is_fixed_word("value"@));
}

/// The declarations at the start of the function, one by one.
proof fn lemma_read_declarations(n: Names, reader: Reader)
    requires
        names_are_fresh(n),
        is_settled(reader),
    ensures
        read(n, reader, scope_tokens(n)) == (Reader {
            declared: reader.declared.insert(n.scope),
            ..reader
        }),
        read(n, reader, retval_tokens(n)) == (Reader {
            declared: reader.declared.insert(n.retval),
            ..reader
        }),
        read(n, reader, fn_args_tokens(n)) == (Reader {
            declared: reader.declared.insert(n.fn_args),
            ..reader
        }),
        reader.declared.contains(n.fn_args) ==> read(n, reader, opctx_tokens(n)) == (Reader {
            declared: reader.declared.insert(n.opctx),
            ..reader
        }),
        reader.declared.contains(n.opctx) ==> read(n, reader, isolate_tokens(n)) == (Reader {
            declared: reader.declared.insert(n.scope),
            ..reader
        }),
        reader.declared.contains(n.opctx) ==> read(n, reader, opstate_tokens(n)) == (Reader {
            declared: reader.declared.insert(n.opstate),
            ..reader
        }),
{
    broadcast use group_read;

    lemma_words_read(n);
}

/// The message of an exception.
proof fn lemma_read_one_byte_msg(n: Names, reader: Reader, message: Seq<Token>)
    requires
        names_are_fresh(n),
        is_settled(reader),
        reader.declared.contains(n.scope),
        read(n, reader, message) == reader,
    ensures
        read(n, reader, one_byte_msg_tokens(n, message)) == reader,
{
    broadcast use group_read;

    lemma_words_read(n);
}

/// The end of the code that throws an exception with a message.
proof fn lemma_read_throw_msg(n: Names, reader: Reader, kind: &str)
    requires
        names_are_fresh(n),
        is_settled(reader),
        reader.declared.contains(n.scope),
        is_neutral(n, kind@),
    ensures
        read(n, reader, throw_msg_tokens(n, kind)) == reader,
{
    broadcast use group_read;

    lemma_words_read(n);
}

/// Three pieces of code, one behind the other.
proof fn lemma_read_three(n: Names, reader: Reader, a: Seq<Token>, b: Seq<Token>, c: Seq<Token>)
    ensures
        read(n, reader, no_tokens().tokens(a).tokens(b).tokens(c)) == read(
            n,
            read(n, read(n, reader, a), b),
            c,
        ),
{
    broadcast use group_read;

}

/// The declaration of the scope, where the function does not declare it.
proof fn lemma_read_maybe_scope(n: Names, needs: Needs, reader: Reader)
    requires
        names_are_fresh(n),
        is_settled(reader),
        covers(n, reader.declared, needs),
    ensures
        is_settled(read(n, reader, maybe_scope_tokens(n, needs))),
        read(n, reader, maybe_scope_tokens(n, needs)).declared == reader.declared.insert(n.scope),
{
    lemma_read_empty(n, reader);
    lemma_read_declarations(n, reader);
    assert(needs.scope ==> reader.declared.insert(n.scope) =~= reader.declared);
}

/// The code that makes a message from the error in the variable `message`, behind the declaration
/// of the scope.
proof fn lemma_read_error_text(
    n: Names,
    reader: Reader,
    maybe_scope: Seq<Token>,
    message: Seq<char>,
    throw: Seq<Token>,
)
    requires
        names_are_fresh(n),
        is_settled(read(n, reader, maybe_scope)),
        read(n, reader, maybe_scope).declared.contains(n.scope),
        is_neutral(n, message),
    ensures
        read(n, reader, error_text_tokens(n, maybe_scope, message).tokens(throw)) == read(
            n,
            read(n, reader, maybe_scope),
            throw,
        ),
{
    broadcast use group_read;

    lemma_words_read(n);
}

/// The code that throws an exception with a message can stand wherever what is needed is declared:
/// it declares the scope for itself, where the function does not.
pub proof fn law_throw_type_error_is_well_scoped(
    n: Names,
    needs: Needs,
    reader: Reader,
    message: Seq<char>,
)
    requires
        names_are_fresh(n),
        is_settled(reader),
        covers(n, reader.declared, needs),
    ensures
        read(n, reader, throw_type_error_tokens(n, needs, message)).ok,
        is_neutral(n, message) ==> read(
            n,
            reader,
            throw_type_error_string_tokens(n, needs, message),
        ).ok,
        is_neutral(n, message) ==> read(
            n,
            reader,
            throw_type_error_static_string_tokens(n, needs, message),
        ).ok,
{
    let maybe_scope = maybe_scope_tokens(n, needs);
    let scoped = read(n, reader, maybe_scope);
    lemma_read_maybe_scope(n, needs, reader);
    lemma_words_read(n);
    lemma_read_throw_msg(n, scoped, "type_error");
    lemma_read_throw_msg(n, scoped, "error");
    let text = no_tokens().str_lit(message);
    assert(read(n, scoped, text) == scoped) by {
        broadcast use group_read;

    }
    lemma_read_one_byte_msg(n, scoped, text);
    lemma_read_three(
        n,
        reader,
        maybe_scope,
        one_byte_msg_tokens(n, text),
        throw_msg_tokens(n, "type_error"),
    );
    if is_neutral(n, message) {
        let text = no_tokens().name(message);
        assert(read(n, scoped, text) == scoped) by {
            broadcast use group_read;

        }
        lemma_read_one_byte_msg(n, scoped, text);
        lemma_read_three(
            n,
            reader,
            maybe_scope,
            one_byte_msg_tokens(n, text),
            throw_msg_tokens(n, "error"),
        );
        lemma_read_error_text(n, reader, maybe_scope, message, throw_msg_tokens(n, "error"));
    }
}

/// The code that throws the error in the variable `err`, behind the declarations that it needs.
proof fn lemma_read_throw_err(
    n: Names,
    reader: Reader,
    maybe_scope: Seq<Token>,
    maybe_args: Seq<Token>,
    maybe_opctx: Seq<Token>,
)
    requires
        names_are_fresh(n),
        ({
            let declared = read(
                n,
                read(n, read(n, reader, maybe_scope), maybe_args),
                maybe_opctx,
            );
            &&& is_settled(declared)
            &&& declared.declared.contains(n.scope)
            &&& declared.declared.contains(n.opctx)
        }),
    ensures
        read(n, reader, throw_err_tokens(n, maybe_scope, maybe_args, maybe_opctx)).ok,
{
    broadcast use group_read;

    lemma_words_read(n);
}

/// The code that throws the error in the variable `err` can stand wherever what is needed is
/// declared: it declares the scope and the context for itself, where the function does not.
pub proof fn law_throw_exception_is_well_scoped(n: Names, needs: Needs, reader: Reader)
    requires
        names_are_fresh(n),
        is_settled(reader),
        covers(n, reader.declared, throw_exception_needs(needs)),
    ensures
        read(n, reader, throw_exception_tokens(n, needs)).ok,
{
    let maybe_scope = maybe_scope_tokens(n, needs);
    let maybe_args = maybe_args_tokens(n, needs);
    let maybe_opctx = maybe_opctx_tokens(n, needs);
    lemma_read_maybe_scope(n, needs, reader);
    let scoped = read(n, reader, maybe_scope);
    lemma_read_declarations(n, scoped);
    lemma_read_empty(n, scoped);
    let with_args = read(n, scoped, maybe_args);
    lemma_read_declarations(n, with_args);
    lemma_read_empty(n, with_args);
    lemma_read_throw_err(n, reader, maybe_scope, maybe_args, maybe_opctx);
}

/// The code that takes an argument from the values that the caller passed.
proof fn lemma_read_extract_arg(n: Names, reader: Reader, index: int, input_index: nat)
    requires
        names_are_fresh(n),
        is_settled(reader),
        reader.declared.contains(n.fn_args),
        0 <= index < n.args.len(),
    ensures
        read(n, reader, extract_arg_tokens(n, index, input_index)) == reader,
{
    broadcast use group_read;

    lemma_words_read(n);
    assert(arg_is_fresh(n, n.args[index]));
}

/// The code that converts an argument with a check.
proof fn lemma_read_convert_arg(
    n: Names,
    reader: Reader,
    a: Seq<char>,
    numeric: Seq<char>,
    exception: Seq<Token>,
)
    requires
        names_are_fresh(n),
        is_settled(reader),
        arg_is_fresh(n, a),
        is_neutral(n, "to_"@ + numeric + "_option"@),
        read(n, reader, exception).ok,
    ensures
        read(n, reader, convert_arg_tokens(n, a, numeric, exception)) == reader,
{
    broadcast use group_read;

    lemma_words_read(n);
}

/// The code for an argument that is a number.
proof fn lemma_read_numeric_arg(
    n: Names,
    needs: Needs,
    reader: Reader,
    a: Seq<char>,
    numeric: NumericArg,
)
    requires
        names_are_fresh(n),
        is_settled(reader),
        arg_is_fresh(n, a),
        covers(n, reader.declared, needs),
    ensures
        read(n, reader, numeric_arg_tokens(n, needs, a, numeric)) == reader,
{
    if numeric == NumericArg::Bool {
        broadcast use group_read;

        lemma_words_read(n);
    } else {
        let conversion = numeric_conversion(numeric);
        let message = "expected "@ + conversion;
        law_throw_type_error_is_well_scoped(n, needs, reader, message);
        lemma_read_convert_arg(
            n,
            reader,
            a,
            conversion,
            throw_type_error_tokens(n, needs, message),
        );
    }
}

/// The code for an argument that may be missing.
proof fn lemma_read_optional_arg(n: Names, reader: Reader, a: Seq<char>, some: Seq<Token>)
    requires
        names_are_fresh(n),
        is_settled(reader),
        arg_is_fresh(n, a),
        read(n, reader, some).ok,
    ensures
        read(n, reader, optional_arg_tokens(a, some)) == reader,
{
    broadcast use group_read;

    lemma_words_read(n);
}

/// Code with `Some` of an argument behind it.
proof fn lemma_read_some(n: Names, reader: Reader, code: Seq<Token>, a: Seq<char>)
    requires
        names_are_fresh(n),
        is_settled(reader),
        arg_is_fresh(n, a),
        read(n, reader, code) == reader,
    ensures
        read(n, reader, code.word("Some").parens(no_tokens().name(a))) == reader,
{
    broadcast use group_read;

    lemma_words_read(n);
}

/// The code for an argument that is a string that may be missing.
proof fn lemma_read_option_string_arg(n: Names, reader: Reader, a: Seq<char>)
    requires
        names_are_fresh(n),
        is_settled(reader),
        arg_is_fresh(n, a),
        reader.declared.contains(n.scope),
    ensures
        read(n, reader, option_string_arg_tokens(n, a)) == reader,
{
    let some = no_tokens().word("Some").parens(to_string_tokens(n, a));
    assert(read(n, reader, some).ok) by {
        broadcast use group_read;

        lemma_words_read(n);
    }
    lemma_read_optional_arg(n, reader, a, some);
}

/// The code for an argument that is a string of bytes.
proof fn lemma_read_cow_byte_arg(n: Names, reader: Reader, a: Seq<char>, throw: Seq<Token>)
    requires
        names_are_fresh(n),
        is_settled(reader),
        arg_is_fresh(n, a),
        reader.declared.contains(n.scope),
        read(n, reader, throw).ok,
    ensures
        read(n, reader, cow_byte_arg_tokens(n, a, throw)) == reader,
{
    broadcast use group_read;

    lemma_words_read(n);
}

/// The buffer on the stack for a string.
proof fn lemma_read_string_buffer(n: Names, reader: Reader, a: Seq<char>)
    requires
        names_are_fresh(n),
        is_settled(reader),
        arg_is_fresh(n, a),
    ensures
        read(n, reader, string_buffer_tokens(n, unraw(a) + "_temp"@)) == reader,
{
    broadcast use group_read;

    lemma_words_read(n);
}

/// The code for an argument that is a string slice, behind its buffer.
proof fn lemma_read_str_arg(n: Names, reader: Reader, a: Seq<char>, buffer: Seq<Token>)
    requires
        names_are_fresh(n),
        is_settled(reader),
        arg_is_fresh(n, a),
        reader.declared.contains(n.scope),
        read(n, reader, buffer) == reader,
    ensures
        ({
            let to_str = to_str_tokens(n, a, unraw(a) + "_temp"@);
            let start = no_tokens().tokens(buffer).bind(a);
            &&& read(n, reader, start.op('&').tokens(to_str).op(';')) == reader
            &&& read(n, reader, start.tokens(to_str).op(';')) == reader
        }),
{
    broadcast use group_read;

    lemma_words_read(n);
}

/// The code for an argument of a string type.
proof fn lemma_read_string_arg(
    n: Names,
    needs: Needs,
    reader: Reader,
    a: Seq<char>,
    strings: Strings,
)
    requires
        names_are_fresh(n),
        is_settled(reader),
        arg_is_fresh(n, a),
        covers(n, reader.declared, needs),
        reader.declared.contains(n.scope),
    ensures
        read(n, reader, string_arg_tokens(n, needs, a, strings)) == reader,
{
    match strings {
        Strings::String => {
            broadcast use group_read;

            lemma_words_read(n);
        },
        Strings::RefStr | Strings::CowStr => {
            lemma_read_string_buffer(n, reader, a);
            lemma_read_str_arg(n, reader, a, string_buffer_tokens(n, unraw(a) + "_temp"@));
        },
        Strings::CowByte => {
            law_throw_type_error_is_well_scoped(n, needs, reader, a);
            lemma_read_cow_byte_arg(
                n,
                reader,
                a,
                throw_type_error_static_string_tokens(n, needs, a),
            );
        },
    }
}

/// The code that takes the V8 slice of a buffer.
proof fn lemma_read_v8_slice(
    n: Names,
    reader: Reader,
    a: Seq<char>,
    buffer: Buffer,
    throw: Seq<Token>,
)
    requires
        names_are_fresh(n),
        is_settled(reader),
        arg_is_fresh(n, a),
        reader.declared.contains(n.scope),
        read(n, reader, throw).ok,
    ensures
        read(n, reader, make_v8_slice_tokens(n, a, buffer, throw)) == reader,
{
    broadcast use group_read;

    lemma_words_read(n);
}

/// The code for an argument of a buffer type.
#[verifier::rlimit(40)]
#[verifier::spinoff_prover]
proof fn lemma_read_buffer_arg(
    n: Names,
    needs: Needs,
    reader: Reader,
    a: Seq<char>,
    buffer: Buffer,
)
    requires
        names_are_fresh(n),
        is_settled(reader),
        arg_is_fresh(n, a),
        covers(n, reader.declared, needs),
        reader.declared.contains(n.scope),
        buffer_arg_result(n, needs, a, buffer) is Ok,
    ensures
        read(n, reader, buffer_arg_result(n, needs, a, buffer)->Ok_0) == reader,
{
    let err = unraw(a) + "_err"@;
    let throw = throw_type_error_static_string_tokens(n, needs, err);
    let slice = make_v8_slice_tokens(n, a, buffer, throw);
    let make_arg = make_buffer_tokens(n, a, buffer)->0;
    law_throw_type_error_is_well_scoped(n, needs, reader, err);
    lemma_read_v8_slice(n, reader, a, buffer, throw);
    assert(read(n, reader, make_arg) == reader) by {
        broadcast use group_read;

        lemma_words_read(n);
    }
    lemma_read_empty(n, reader);
    lemma_read_add(n, reader, no_tokens(), slice);
    lemma_read_add(n, reader, no_tokens().tokens(slice), make_arg);
}

/// The code for an argument that is a value in the op state.
proof fn lemma_read_state_arg(
    n: Names,
    reader: Reader,
    a: Seq<char>,
    ref_type: RefType,
    optional: bool,
    state: Seq<char>,
)
    requires
        names_are_fresh(n),
        is_settled(reader),
        arg_is_fresh(n, a),
        reader.declared.contains(n.opstate),
        is_foreign(n, type_tokens(state)->0),
    ensures
        read(n, reader, state_arg_tokens(n, a, ref_type, optional, state)) == reader,
{
    broadcast use group_read;

    lemma_words_read(n);
    lemma_read_foreign(n, reader, type_tokens(state)->0);
}

/// The code for an argument that is an object of the runtime.
proof fn lemma_read_ref_arg(
    n: Names,
    reader: Reader,
    a: Seq<char>,
    ref_type: RefType,
    special: Special,
)
    requires
        names_are_fresh(n),
        is_settled(reader),
        arg_is_fresh(n, a),
        special == Special::HandleScope ==> reader.declared.contains(n.scope),
        special == Special::OpState ==> reader.declared.contains(n.opstate),
    ensures
        read(n, reader, ref_arg_tokens(n, a, ref_type, special)) == reader,
        special == Special::OpState ==> read(n, reader, rc_state_arg_tokens(n, a)) == reader,
{
    broadcast use group_read;

    lemma_words_read(n);
}

/// The code that converts a V8 value to a class.
proof fn lemma_read_v8_to_arg(
    n: Names,
    reader: Reader,
    v8: V8Arg,
    a: Seq<char>,
    arg: Arg,
    throw: Seq<Token>,
    extract: Seq<Token>,
)
    requires
        names_are_fresh(n),
        is_settled(reader),
        arg_is_fresh(n, a),
        read(n, reader, throw).ok,
        read(n, reader, extract) == reader,
    ensures
        read(n, reader, v8_to_arg_tokens(v8, a, arg, n.deno_core, throw, extract)) == reader,
{
    broadcast use group_read;

    lemma_words_read(n);
}

/// The code for an argument that is a V8 value.
proof fn lemma_read_v8_arg(
    n: Names,
    needs: Needs,
    reader: Reader,
    a: Seq<char>,
    v8: V8Arg,
    arg: Arg,
)
    requires
        names_are_fresh(n),
        is_settled(reader),
        arg_is_fresh(n, a),
        covers(n, reader.declared, needs),
        is_v8_global(arg) ==> reader.declared.contains(n.scope),
    ensures
        read(n, reader, v8_arg_tokens(n, needs, a, v8, arg)) == reader,
{
    let value = if is_v8_global(arg) {
        v8_global_value_tokens(n.deno_core, n.scope, a, arg)
    } else {
        v8_local_value_tokens(a, arg)
    };
    let extract = no_tokens().bind(a).tokens(value).op(';');
    assert(read(n, reader, extract) == reader) by {
        broadcast use group_read;

        lemma_words_read(n);
    }
    let message = "expected "@ + v8.spec_name();
    law_throw_type_error_is_well_scoped(n, needs, reader, message);
    lemma_read_v8_to_arg(
        n,
        reader,
        v8,
        a,
        arg,
        throw_type_error_tokens(n, needs, message),
        extract,
    );
}

/// The code that converts an argument by serialization.
proof fn lemma_read_deserialize_arg(
    n: Names,
    reader: Reader,
    a: Seq<char>,
    throw: Seq<Token>,
)
    requires
        names_are_fresh(n),
        is_settled(reader),
        arg_is_fresh(n, a),
        reader.declared.contains(n.scope),
        read(n, reader, throw).ok,
    ensures
        read(n, reader, deserialize_arg_tokens(n, a, unraw(a) + "_err"@, throw)) == reader,
{
    broadcast use group_read;

    lemma_words_read(n);
}

/// The type of a value in the op state holds none of the names.
pub open spec fn arg_type_is_foreign(n: Names, arg: Arg) -> bool {
    match arg {
        Arg::State(_, state) => is_foreign(n, type_tokens(state@)->0),
        Arg::OptionState(_, state) => is_foreign(n, type_tokens(state@)->0),
        _ => true,
    }
}

/// The code for an argument can stand wherever what it needs is declared.
pub proof fn law_arg_is_well_scoped(
    n: Names,
    needs: Needs,
    reader: Reader,
    a: Seq<char>,
    arg: Arg,
)
    requires
        names_are_fresh(n),
        is_settled(reader),
        arg_is_fresh(n, a),
        arg_type_is_foreign(n, arg),
        covers(n, reader.declared, arg_needs(needs, arg)),
        arg_result(n, needs, a, arg) is Ok,
    ensures
        read(n, reader, arg_result(n, needs, a, arg)->Ok_0) == reader,
{
    match arg {
        Arg::Numeric(numeric) => lemma_read_numeric_arg(n, needs, reader, a, numeric),
        Arg::OptionNumeric(numeric) => {
            let number = numeric_arg_tokens(n, needs, a, numeric);
            lemma_read_numeric_arg(n, needs, reader, a, numeric);
            lemma_read_some(n, reader, number, a);
            lemma_read_optional_arg(
                n,
                reader,
                a,
                number.word("Some").parens(no_tokens().name(a)),
            );
        },
        Arg::OptionString(Strings::String) => lemma_read_option_string_arg(n, reader, a),
        Arg::String(strings) => lemma_read_string_arg(n, needs, reader, a, strings),
        Arg::Buffer(buffer) => lemma_read_buffer_arg(n, needs, reader, a, buffer),
        Arg::External(External::Ptr(_)) => {
            let message = "expected "@ + "external"@;
            law_throw_type_error_is_well_scoped(n, needs, reader, message);
            lemma_read_convert_arg(
                n,
                reader,
                a,
                "external"@,
                throw_type_error_tokens(n, needs, message),
            );
        },
        Arg::Ref(ref_type, special) => lemma_read_ref_arg(n, reader, a, ref_type, special),
        Arg::RcRefCell(special) => lemma_read_ref_arg(n, reader, a, RefType::Ref, special),
        Arg::State(ref_type, state) => lemma_read_state_arg(n, reader, a, ref_type, false, state@),
        Arg::OptionState(ref_type, state) => lemma_read_state_arg(
            n,
            reader,
            a,
            ref_type,
            true,
            state@,
        ),
        Arg::V8Local(v8)
        | Arg::OptionV8Local(v8)
        | Arg::V8Ref(_, v8)
        | Arg::OptionV8Ref(_, v8)
        | Arg::V8Global(v8)
        | Arg::OptionV8Global(v8) => lemma_read_v8_arg(n, needs, reader, a, v8, arg),
        Arg::SerdeV8(_) => {
            let err = unraw(a) + "_err"@;
            let needs = arg_needs(needs, arg);
            law_throw_type_error_is_well_scoped(n, needs, reader, err);
            lemma_read_deserialize_arg(
                n,
                reader,
                a,
                throw_type_error_string_tokens(n, needs, err),
            );
        },
        _ => {},
    }
}

/// A list of arguments.
proof fn lemma_read_call_args(n: Names, reader: Reader, args: Seq<Seq<char>>)
    requires
        is_settled(reader),
        forall|i: int| 0 <= i < args.len() ==> #[trigger] arg_is_fresh(n, args[i]),
    ensures
        read(n, reader, call_args_tokens(args)) == reader,
    decreases args.len(),
{
    broadcast use group_read;

    if args.len() > 0 {
        assert(arg_is_fresh(n, args.last()));
        lemma_read_call_args(n, reader, args.drop_last());
    }
}

/// The call of the op.
proof fn lemma_read_call(n: Names, reader: Reader)
    requires
        names_are_fresh(n),
        is_settled(reader),
    ensures
        read(n, reader, call_tokens(n)) == reader,
{
    broadcast use group_read;

    lemma_words_read(n);
    lemma_read_call_args(n, reader, n.args);
}

/// The code for the first arguments can stand wherever what it needs is declared, and the values
/// that the caller passed are.
proof fn lemma_read_args(n: Names, needs: Needs, reader: Reader, args: Seq<Arg>, count: nat)
    requires
        names_are_fresh(n),
        is_settled(reader),
        count <= n.args.len(),
        forall|i: int| 0 <= i < count ==> #[trigger] arg_type_is_foreign(n, args[i]),
        all_mapped(args, count as int),
        covers(n, reader.declared, args_code(n, needs, args, count).needs),
        input_count(args, count) > 0 ==> reader.declared.contains(n.fn_args),
    ensures
        read(n, reader, args_code(n, needs, args, count).args) == reader,
        read(n, reader, args_code(n, needs, args, count).deferred) == reader,
    decreases count,
{
    lemma_read_empty(n, reader);
    if count > 0 {
        let index = count - 1;
        let arg = args[index];
        let before = args_code(n, needs, args, index as nat);
        lemma_args_mapping(n, needs, args, count);
        lemma_args_mapping(n, needs, args, index as nat);
        law_needs_only_grow(n, before.needs, arg);
        lemma_read_args(n, needs, reader, args, index as nat);
        assert(arg_is_fresh(n, n.args[index]));
        assert(arg_type_is_foreign(n, args[index]));
        law_arg_is_well_scoped(n, before.needs, reader, n.args[index], arg);
        let code = arg_result(n, before.needs, n.args[index], arg)->Ok_0;
        if arg.spec_is_virtual() {
            lemma_read_add(n, reader, before.deferred, code);
        } else {
            let extract = extract_arg_tokens(n, index, before.inputs);
            lemma_read_extract_arg(n, reader, index, before.inputs);
            lemma_read_add(n, reader, before.args, extract);
            lemma_read_add(n, reader, before.args.tokens(extract), code);
        }
    }
}

/// The code that hands over a number.
proof fn lemma_read_return_numeric(n: Names, reader: Reader, numeric: NumericArg)
    requires
        names_are_fresh(n),
        is_settled(reader),
        reader.declared.contains(n.retval),
        plain_return_needs_scope(Arg::Numeric(numeric)) ==> reader.declared.contains(n.scope),
    ensures
        read(n, reader, return_numeric_tokens(n, numeric)) == reader,
{
    broadcast use group_read;

    lemma_words_read(n);
}

/// The code that hands over a string.
proof fn lemma_read_return_string(
    n: Names,
    reader: Reader,
    new_string: &str,
    new_args: Seq<Token>,
)
    requires
        names_are_fresh(n),
        is_settled(reader),
        reader.declared.contains(n.retval),
        is_neutral(n, new_string@),
        read(n, reader, new_args).ok,
    ensures
        read(n, reader, return_string_tokens(n, new_string, new_args)) == reader,
{
    broadcast use group_read;

    lemma_words_read(n);
}

/// The code that converts the result by serialization.
proof fn lemma_read_serialize_result(n: Names, reader: Reader, throw: Seq<Token>)
    requires
        names_are_fresh(n),
        is_settled(reader),
        reader.declared.contains(n.retval),
        reader.declared.contains(n.scope),
        read(n, reader, throw).ok,
    ensures
        read(n, reader, serialize_result_tokens(n, unraw(n.retval) + "_err"@, throw)) == reader,
{
    broadcast use group_read;

    lemma_words_read(n);
}

/// The code that hands over a result that needs no more than one statement.
proof fn lemma_read_return_simple(n: Names, reader: Reader)
    requires
        names_are_fresh(n),
        is_settled(reader),
        reader.declared.contains(n.retval),
    ensures
        read(n, reader, set_null_tokens(n)) == reader,
        read(n, reader, set_result_tokens(n)) == reader,
        reader.declared.contains(n.scope) ==> read(n, reader, return_buffer_tokens(n)) == reader,
        reader.declared.contains(n.scope) ==> read(n, reader, return_external_tokens(n)) == reader,
{
    broadcast use group_read;

    lemma_words_read(n);
}

/// The code that hands over a result of a type that is not optional.
proof fn lemma_read_plain_return(n: Names, needs: Needs, reader: Reader, ret_type: Arg)
    requires
        names_are_fresh(n),
        is_settled(reader),
        covers(n, reader.declared, needs),
        reader.declared.contains(n.retval),
        plain_return_needs_scope(ret_type) ==> reader.declared.contains(n.scope),
        plain_return_result(n, needs, ret_type) is Ok,
    ensures
        read(n, reader, plain_return_result(n, needs, ret_type)->Ok_0) == reader,
{
    lemma_read_return_simple(n, reader);
    match ret_type {
        Arg::Numeric(numeric) => lemma_read_return_numeric(n, reader, numeric),
        Arg::String(strings) => {
            let first = no_tokens().mut_ref(n.scope).op(',').op('&').name(n.result);
            let both = first.op(',').tokens(n.deno_core).seg("v8").seg("NewStringType").seg(
                "Normal",
            );
            lemma_words_read(n);
            assert(read(n, reader, first).ok && read(n, reader, both).ok) by {
                broadcast use group_read;

            }
            lemma_read_return_string(n, reader, "new", first);
            lemma_read_return_string(n, reader, "new_from_one_byte", both);
        },
        Arg::SerdeV8(_) => {
            let err = unraw(n.retval) + "_err"@;
            let needs = return_needs(needs, ret_type);
            law_throw_type_error_is_well_scoped(n, needs, reader, err);
            lemma_read_serialize_result(n, reader, throw_type_error_string_tokens(n, needs, err));
        },
        _ => {},
    }
}

/// The code that hands over an optional result.
proof fn lemma_read_return_option(n: Names, reader: Reader, some: Seq<Token>)
    requires
        names_are_fresh(n),
        is_settled(reader),
        reader.declared.contains(n.retval),
        read(n, reader, some).ok,
    ensures
        read(n, reader, return_option_tokens(n, some)) == reader,
{
    broadcast use group_read;

    lemma_words_read(n);
}

/// The code that hands over a result or throws an error.
proof fn lemma_read_return_match(
    n: Names,
    reader: Reader,
    infallible: Seq<Token>,
    exception: Seq<Token>,
)
    requires
        names_are_fresh(n),
        is_settled(reader),
        read(n, reader, infallible).ok,
        read(n, reader, exception).ok,
    ensures
        read(n, reader, return_match_tokens(n, infallible, exception)) == reader,
{
    broadcast use group_read;

    lemma_words_read(n);
}

/// The code that hands over a result can stand wherever what it needs is declared.
pub proof fn law_return_is_well_scoped(n: Names, needs: Needs, reader: Reader, ret_type: Arg)
    requires
        names_are_fresh(n),
        is_settled(reader),
        return_result(n, needs, ret_type) is Ok,
        covers(n, reader.declared, return_needs(needs, ret_type)),
    ensures
        read(n, reader, return_result(n, needs, ret_type)->Ok_0) == reader,
{
    match ret_type.spec_some_type() {
        Some(some_type) => {
            lemma_read_plain_return(n, needs, reader, some_type);
            lemma_read_return_option(
                n,
                reader,
                plain_return_result(n, needs, some_type)->Ok_0,
            );
        },
        None => lemma_read_plain_return(n, needs, reader, ret_type),
    }
}

/// The code that hands over a result or throws an error can stand wherever what it needs is
/// declared.
pub proof fn law_fallible_return_is_well_scoped(
    n: Names,
    needs: Needs,
    reader: Reader,
    ret_type: Arg,
)
    requires
        names_are_fresh(n),
        is_settled(reader),
        return_result(n, needs, ret_type) is Ok,
        covers(n, reader.declared, fallible_return_needs(n, needs, ret_type)),
    ensures
        read(n, reader, fallible_return_result(n, needs, ret_type)->Ok_0) == reader,
{
    let after = return_needs(needs, ret_type);
    law_return_is_well_scoped(n, needs, reader, ret_type);
    law_throw_exception_is_well_scoped(n, after, reader);
    lemma_read_return_match(
        n,
        reader,
        return_result(n, needs, ret_type)->Ok_0,
        throw_exception_tokens(n, after),
    );
}

/// One more declaration, where it is needed.
proof fn lemma_read_declaration_if(
    n: Names,
    reader: Reader,
    needed: bool,
    code: Seq<Token>,
    name: Seq<char>,
)
    requires
        is_settled(reader),
        needed ==> read(n, reader, code) == (Reader {
            declared: reader.declared.insert(name),
            ..reader
        }),
    ensures
        is_settled(read(n, reader, tokens_if(needed, code))),
        reader.declared.subset_of(read(n, reader, tokens_if(needed, code)).declared),
        needed ==> read(n, reader, tokens_if(needed, code)).declared.contains(name),
{
    lemma_read_empty(n, reader);
}

/// Six pieces of code, one behind the other.
proof fn lemma_read_six(
    n: Names,
    reader: Reader,
    a: Seq<Token>,
    b: Seq<Token>,
    c: Seq<Token>,
    d: Seq<Token>,
    e: Seq<Token>,
    f: Seq<Token>,
)
    ensures
        read(
            n,
            reader,
            no_tokens().tokens(a).tokens(b).tokens(c).tokens(d).tokens(e).tokens(f),
        ) == read(n, read(n, read(n, read(n, read(n, read(n, reader, a), b), c), d), e), f),
{
    broadcast use group_read;

}

/// The start of the function declares what is needed, each name behind those that its declaration
/// uses.
pub proof fn law_prologue_declares_needs(n: Names, needs: Needs, reader: Reader)
    requires
        names_are_fresh(n),
        is_settled(reader),
    ensures
        is_settled(read(n, reader, prologue_tokens(n, needs))),
        covers(n, read(n, reader, prologue_tokens(n, needs)).declared, prologue_needs(needs)),
{
    let declared = prologue_needs(needs);
    let a = tokens_if(needs.scope, scope_tokens(n));
    let b = tokens_if(needs.retval, retval_tokens(n));
    let c = tokens_if(declared.args, fn_args_tokens(n));
    let d = tokens_if(declared.opctx, opctx_tokens(n));
    let e = tokens_if(declares_isolate(needs), isolate_tokens(n));
    let f = tokens_if(needs.opstate, opstate_tokens(n));
    lemma_read_six(n, reader, a, b, c, d, e, f);
    lemma_read_declarations(n, reader);
    lemma_read_declaration_if(n, reader, needs.scope, scope_tokens(n), n.scope);
    let at_b = read(n, reader, a);
    lemma_read_declarations(n, at_b);
    lemma_read_declaration_if(n, at_b, needs.retval, retval_tokens(n), n.retval);
    let at_c = read(n, at_b, b);
    lemma_read_declarations(n, at_c);
    lemma_read_declaration_if(n, at_c, declared.args, fn_args_tokens(n), n.fn_args);
    let at_d = read(n, at_c, c);
    lemma_read_declarations(n, at_d);
    lemma_read_declaration_if(n, at_d, declared.opctx, opctx_tokens(n), n.opctx);
    let at_e = read(n, at_d, d);
    lemma_read_declarations(n, at_e);
    lemma_read_declaration_if(n, at_e, declares_isolate(needs), isolate_tokens(n), n.scope);
    let at_f = read(n, at_e, e);
    lemma_read_declarations(n, at_f);
    lemma_read_declaration_if(n, at_f, needs.opstate, opstate_tokens(n), n.opstate);
}

/// The code that picks up the error of the fast call.
proof fn lemma_read_pick_up(n: Names, reader: Reader, throw: Seq<Token>)
    requires
        names_are_fresh(n),
        is_settled(reader),
        reader.declared.contains(n.opctx),
        read(n, reader, throw).ok,
    ensures
        read(n, reader, take_error_tokens(throw)) == reader,
{
    broadcast use group_read;

    lemma_words_read(n);
}

/// The body of the function.
proof fn lemma_read_body(
    n: Names,
    reader: Reader,
    pick_up: Seq<Token>,
    code: ArgsCode,
    return_code: Seq<Token>,
)
    requires
        names_are_fresh(n),
        is_settled(reader),
        read(n, reader, pick_up) == reader,
        read(n, reader, code.args) == reader,
        read(n, reader, code.deferred) == reader,
        read(n, reader, call_tokens(n)) == reader,
        read(n, reader, return_code) == reader,
    ensures
        read(n, reader, body_tokens(n, pick_up, code, return_code)) == reader,
{
    let block = code.args.tokens(code.deferred).tokens(call_tokens(n));
    lemma_read_add(n, reader, code.args, code.deferred);
    lemma_read_add(n, reader, code.args.tokens(code.deferred), call_tokens(n));
    lemma_read_statement(n, reader, block);
    let statement = no_tokens().bind(n.result).braces(block).op(';');
    lemma_read_add(n, reader, pick_up, statement);
    lemma_read_add(n, reader, pick_up.tokens(statement), return_code);
}

/// The statement that binds the result of a block.
proof fn lemma_read_statement(n: Names, reader: Reader, block: Seq<Token>)
    requires
        names_are_fresh(n),
        is_settled(reader),
        read(n, reader, block).ok,
    ensures
        read(n, reader, no_tokens().bind(n.result).braces(block).op(';')) == reader,
{
    broadcast use group_read;

    lemma_words_read(n);
}

/// A function.
proof fn lemma_read_function(n: Names, reader: Reader, prologue: Seq<Token>, body: Seq<Token>)
    requires
        names_are_fresh(n),
        is_settled(reader),
        read(n, read(n, reader, prologue), body).ok,
    ensures
        read(n, reader, function_tokens(n, prologue, body)).ok,
{
    broadcast use group_read;

    lemma_words_read(n);
}

/// Each generated function declares the names that it uses before it uses them: the scope, the
/// return value, the arguments, the context and the op state. The caller of the generator has said
/// that the arguments are needed, where it passes values.
pub proof fn law_names_are_declared(
    config: MacroConfig,
    n: Names,
    needs: Needs,
    sig: ParsedSignature,
)
    requires
        names_are_fresh(n),
        sig.args@.len() <= n.args.len(),
        forall|i: int|
            0 <= i < sig.args@.len() ==> #[trigger] arg_type_is_foreign(n, sig.args@[i]),
        is_immediate(sig.ret_val),
        dispatch_result(config, n, needs, sig) is Ok,
        input_count(sig.args@, sig.args@.len()) > 0 ==> needs.args,
    ensures
        is_well_scoped(n, dispatch_result(config, n, needs, sig)->Ok_0),
{
    let args = sig.args@;
    let ret_type = value_type(sig.ret_val);
    let before = pick_up_needs(config, needs, sig);
    let code = signature_code(config, n, needs, sig);
    let body = body_needs(config, n, needs, sig);
    let return_code = ret_val_result(n, code.needs, sig.ret_val)->Ok_0;
    let pick_up = tokens_if(picks_up_error(config, sig), pick_up_tokens(n, needs));
    lemma_args_mapping(n, before, args, args.len());
    law_args_needs_only_grow(n, before, args, args.len());
    law_needs_only_grow(n, code.needs, ret_type);
    law_needs_only_grow(n, body, ret_type);
    // The declarations.
    let reader = Reader { declared: Set::empty(), at_binding: false, ok: true };
    let inside = read(n, reader, prologue_tokens(n, body));
    law_prologue_declares_needs(n, body, reader);
    assert(covers(n, inside.declared, body));
    assert(covers(n, inside.declared, code.needs));
    assert(covers(n, inside.declared, before));
    // The error of the fast call.
    lemma_read_empty(n, inside);
    if picks_up_error(config, sig) {
        law_throw_exception_is_well_scoped(n, before, inside);
        lemma_read_pick_up(n, inside, throw_exception_tokens(n, before));
    }
    // The arguments and the call.
    lemma_read_args(n, before, inside, args, args.len());
    lemma_read_call(n, inside);
    // The result.
    if sig.ret_val is Infallible {
        law_return_is_well_scoped(n, code.needs, inside, ret_type);
    } else {
        law_fallible_return_is_well_scoped(n, code.needs, inside, ret_type);
    }
    lemma_read_body(n, inside, pick_up, code, return_code);
    lemma_read_function(
        n,
        reader,
        prologue_tokens(n, body),
        body_tokens(n, pick_up, code, return_code),
    );
}

} // verus!
