//! The fixed words of the generated code.
use crate::token::is_word;
use vstd::prelude::*;

verus! {

/// `s` is a word that the generated code holds whatever the names are. The words `let` and `mut`,
/// which introduce names, and the words `scope` and `opctx`, which are names, are not among them.
pub open spec fn is_fixed_word(s: Seq<char>) -> bool {
    ||| s == "BigInt"@
    ||| s == "Boolean"@
    ||| s == "CallbackScope"@
    ||| s == "Deref"@
    ||| s == "Err"@
    ||| s == "Error"@
    ||| s == "Exception"@
    ||| s == "External"@
    ||| s == "FunctionCallbackArguments"@
    ||| s == "FunctionCallbackInfo"@
    ||| s == "Global"@
    ||| s == "Integer"@
    ||| s == "JsBuffer"@
    ||| s == "Local"@
    ||| s == "MaybeUninit"@
    ||| s == "NewStringType"@
    ||| s == "None"@
    ||| s == "Normal"@
    ||| s == "Ok"@
    ||| s == "OpCtx"@
    ||| s == "ReturnValue"@
    ||| s == "STRING_STACK_BUFFER_SIZE"@
    ||| s == "Self"@
    ||| s == "Some"@
    ||| s == "String"@
    ||| s == "ToV8Value"@
    ||| s == "_"@
    ||| s == "_ops"@
    ||| s == "anyhow"@
    ||| s == "as"@
    ||| s == "as_bytes"@
    ||| s == "bool"@
    ||| s == "borrow"@
    ||| s == "borrow_mut"@
    ||| s == "call"@
    ||| s == "cast"@
    ||| s == "clone"@
    ||| s == "const"@
    ||| s == "data"@
    ||| s == "deref"@
    ||| s == "else"@
    ||| s == "err"@
    ||| s == "error"@
    ||| s == "exc"@
    ||| s == "exception"@
    ||| s == "extern"@
    ||| s == "fn"@
    ||| s == "format"@
    ||| s == "from"@
    ||| s == "from_function_callback_info"@
    ||| s == "from_parts"@
    ||| s == "get"@
    ||| s == "get_error_class_fn"@
    ||| s == "i32"@
    ||| s == "if"@
    ||| s == "into"@
    ||| s == "is_empty"@
    ||| s == "is_null_or_undefined"@
    ||| s == "is_true"@
    ||| s == "isolate"@
    ||| s == "match"@
    ||| s == "mem"@
    ||| s == "msg"@
    ||| s == "new"@
    ||| s == "new_from_i64"@
    ||| s == "new_from_one_byte"@
    ||| s == "new_from_u64"@
    ||| s == "new_from_unsigned"@
    ||| s == "null"@
    ||| s == "ops"@
    ||| s == "return"@
    ||| s == "serde_rust_to_v8"@
    ||| s == "serde_v8"@
    ||| s == "serde_v8_to_rust"@
    ||| s == "set"@
    ||| s == "set_bool"@
    ||| s == "set_double"@
    ||| s == "set_empty_string"@
    ||| s == "set_int32"@
    ||| s == "set_null"@
    ||| s == "set_uint32"@
    ||| s == "state"@
    ||| s == "std"@
    ||| s == "t"@
    ||| s == "temp"@
    ||| s == "throw_exception"@
    ||| s == "to_boxed_slice"@
    ||| s == "to_cow_one_byte"@
    ||| s == "to_str"@
    ||| s == "to_string"@
    ||| s == "to_v8_error"@
    ||| s == "to_v8_slice"@
    ||| s == "to_v8_slice_detachable"@
    ||| s == "to_v8_value"@
    ||| s == "to_vec"@
    ||| s == "try_borrow"@
    ||| s == "try_borrow_mut"@
    ||| s == "type_error"@
    ||| s == "u32"@
    ||| s == "u8"@
    ||| s == "uninit"@
    ||| s == "unsafe"@
    ||| s == "unsafely_take_last_error_for_ops_only"@
    ||| s == "unwrap"@
    ||| s == "v"@
    ||| s == "v8"@
    ||| s == "v8_try_convert"@
    ||| s == "v8_try_convert_option"@
    ||| s == "value"@
}

/// The texts that the generated code is put together from are words.
pub(crate) proof fn lemma_words()
    ensures
        is_word("BigInt"@),
        is_word("Boolean"@),
        is_word("CallbackScope"@),
        is_word("Deref"@),
        is_word("Err"@),
        is_word("Error"@),
        is_word("Exception"@),
        is_word("External"@),
        is_word("FunctionCallbackArguments"@),
        is_word("FunctionCallbackInfo"@),
        is_word("Global"@),
        is_word("Integer"@),
        is_word("JsBuffer"@),
        is_word("Local"@),
        is_word("MaybeUninit"@),
        is_word("NewStringType"@),
        is_word("None"@),
        is_word("Normal"@),
        is_word("Ok"@),
        is_word("OpCtx"@),
        is_word("ReturnValue"@),
        is_word("STRING_STACK_BUFFER_SIZE"@),
        is_word("Self"@),
        is_word("Some"@),
        is_word("String"@),
        is_word("ToV8Value"@),
        is_word("_"@),
        is_word("_err"@),
        is_word("_ops"@),
        is_word("_option"@),
        is_word("_temp"@),
        is_word("anyhow"@),
        is_word("as"@),
        is_word("as_bytes"@),
        is_word("bool"@),
        is_word("borrow"@),
        is_word("borrow_mut"@),
        is_word("call"@),
        is_word("cast"@),
        is_word("clone"@),
        is_word("const"@),
        is_word("data"@),
        is_word("deref"@),
        is_word("else"@),
        is_word("err"@),
        is_word("error"@),
        is_word("exc"@),
        is_word("exception"@),
        is_word("extern"@),
        is_word("external"@),
        is_word("f32"@),
        is_word("f64"@),
        is_word("fn"@),
        is_word("format"@),
        is_word("from"@),
        is_word("from_function_callback_info"@),
        is_word("from_parts"@),
        is_word("get"@),
        is_word("get_error_class_fn"@),
        is_word("i32"@),
        is_word("i64"@),
        is_word("if"@),
        is_word("into"@),
        is_word("is_empty"@),
        is_word("is_null_or_undefined"@),
        is_word("is_true"@),
        is_word("isolate"@),
        is_word("let"@),
        is_word("match"@),
        is_word("mem"@),
        is_word("msg"@),
        is_word("mut"@),
        is_word("new"@),
        is_word("new_from_i64"@),
        is_word("new_from_one_byte"@),
        is_word("new_from_u64"@),
        is_word("new_from_unsigned"@),
        is_word("null"@),
        is_word("opctx"@),
        is_word("ops"@),
        is_word("return"@),
        is_word("scope"@),
        is_word("serde_rust_to_v8"@),
        is_word("serde_v8"@),
        is_word("serde_v8_to_rust"@),
        is_word("set"@),
        is_word("set_bool"@),
        is_word("set_double"@),
        is_word("set_empty_string"@),
        is_word("set_int32"@),
        is_word("set_null"@),
        is_word("set_uint32"@),
        is_word("state"@),
        is_word("std"@),
        is_word("t"@),
        is_word("temp"@),
        is_word("throw_exception"@),
        is_word("to_"@),
        is_word("to_boxed_slice"@),
        is_word("to_cow_one_byte"@),
        is_word("to_str"@),
        is_word("to_string"@),
        is_word("to_v8_error"@),
        is_word("to_v8_slice"@),
        is_word("to_v8_slice_detachable"@),
        is_word("to_v8_value"@),
        is_word("to_vec"@),
        is_word("try_borrow"@),
        is_word("try_borrow_mut"@),
        is_word("type_error"@),
        is_word("u32"@),
        is_word("u64"@),
        is_word("u8"@),
        is_word("uninit"@),
        is_word("unsafe"@),
        is_word("unsafely_take_last_error_for_ops_only"@),
        is_word("unwrap"@),
        is_word("v"@),
        is_word("v8"@),
        is_word("v8_try_convert"@),
        is_word("v8_try_convert_option"@),
        is_word("value"@),
{
    assert(is_word("BigInt"@)) by {
        reveal_strlit("BigInt");
    }
    assert(is_word("Boolean"@)) by {
        reveal_strlit("Boolean");
    }
    assert(is_word("CallbackScope"@)) by {
        reveal_strlit("CallbackScope");
    }
    assert(is_word("Deref"@)) by {
        reveal_strlit("Deref");
    }
    assert(is_word("Err"@)) by {
        reveal_strlit("Err");
    }
    assert(is_word("Error"@)) by {
        reveal_strlit("Error");
    }
    assert(is_word("Exception"@)) by {
        reveal_strlit("Exception");
    }
    assert(is_word("External"@)) by {
        reveal_strlit("External");
    }
    assert(is_word("FunctionCallbackArguments"@)) by {
        reveal_strlit("FunctionCallbackArguments");
    }
    assert(is_word("FunctionCallbackInfo"@)) by {
        reveal_strlit("FunctionCallbackInfo");
    }
    assert(is_word("Global"@)) by {
        reveal_strlit("Global");
    }
    assert(is_word("Integer"@)) by {
        reveal_strlit("Integer");
    }
    assert(is_word("JsBuffer"@)) by {
        reveal_strlit("JsBuffer");
    }
    assert(is_word("Local"@)) by {
        reveal_strlit("Local");
    }
    assert(is_word("MaybeUninit"@)) by {
        reveal_strlit("MaybeUninit");
    }
    assert(is_word("NewStringType"@)) by {
        reveal_strlit("NewStringType");
    }
    assert(is_word("None"@)) by {
        reveal_strlit("None");
    }
    assert(is_word("Normal"@)) by {
        reveal_strlit("Normal");
    }
    assert(is_word("Ok"@)) by {
        reveal_strlit("Ok");
    }
    assert(is_word("OpCtx"@)) by {
        reveal_strlit("OpCtx");
    }
    assert(is_word("ReturnValue"@)) by {
        reveal_strlit("ReturnValue");
    }
    assert(is_word("STRING_STACK_BUFFER_SIZE"@)) by {
        reveal_strlit("STRING_STACK_BUFFER_SIZE");
    }
    assert(is_word("Self"@)) by {
        reveal_strlit("Self");
    }
    assert(is_word("Some"@)) by {
        reveal_strlit("Some");
    }
    assert(is_word("String"@)) by {
        reveal_strlit("String");
    }
    assert(is_word("ToV8Value"@)) by {
        reveal_strlit("ToV8Value");
    }
    assert(is_word("_"@)) by {
        reveal_strlit("_");
    }
    assert(is_word("_err"@)) by {
        reveal_strlit("_err");
    }
    assert(is_word("_ops"@)) by {
        reveal_strlit("_ops");
    }
    assert(is_word("_option"@)) by {
        reveal_strlit("_option");
    }
    assert(is_word("_temp"@)) by {
        reveal_strlit("_temp");
    }
    assert(is_word("anyhow"@)) by {
        reveal_strlit("anyhow");
    }
    assert(is_word("as"@)) by {
        reveal_strlit("as");
    }
    assert(is_word("as_bytes"@)) by {
        reveal_strlit("as_bytes");
    }
    assert(is_word("bool"@)) by {
        reveal_strlit("bool");
    }
    assert(is_word("borrow"@)) by {
        reveal_strlit("borrow");
    }
    assert(is_word("borrow_mut"@)) by {
        reveal_strlit("borrow_mut");
    }
    assert(is_word("call"@)) by {
        reveal_strlit("call");
    }
    assert(is_word("cast"@)) by {
        reveal_strlit("cast");
    }
    assert(is_word("clone"@)) by {
        reveal_strlit("clone");
    }
    assert(is_word("const"@)) by {
        reveal_strlit("const");
    }
    assert(is_word("data"@)) by {
        reveal_strlit("data");
    }
    assert(is_word("deref"@)) by {
        reveal_strlit("deref");
    }
    assert(is_word("else"@)) by {
        reveal_strlit("else");
    }
    assert(is_word("err"@)) by {
        reveal_strlit("err");
    }
    assert(is_word("error"@)) by {
        reveal_strlit("error");
    }
    assert(is_word("exc"@)) by {
        reveal_strlit("exc");
    }
    assert(is_word("exception"@)) by {
        reveal_strlit("exception");
    }
    assert(is_word("extern"@)) by {
        reveal_strlit("extern");
    }
    assert(is_word("external"@)) by {
        reveal_strlit("external");
    }
    assert(is_word("f32"@)) by {
        reveal_strlit("f32");
    }
    assert(is_word("f64"@)) by {
        reveal_strlit("f64");
    }
    assert(is_word("fn"@)) by {
        reveal_strlit("fn");
    }
    assert(is_word("format"@)) by {
        reveal_strlit("format");
    }
    assert(is_word("from"@)) by {
        reveal_strlit("from");
    }
    assert(is_word("from_function_callback_info"@)) by {
        reveal_strlit("from_function_callback_info");
    }
    assert(is_word("from_parts"@)) by {
        reveal_strlit("from_parts");
    }
    assert(is_word("get"@)) by {
        reveal_strlit("get");
    }
    assert(is_word("get_error_class_fn"@)) by {
        reveal_strlit("get_error_class_fn");
    }
    assert(is_word("i32"@)) by {
        reveal_strlit("i32");
    }
    assert(is_word("i64"@)) by {
        reveal_strlit("i64");
    }
    assert(is_word("if"@)) by {
        reveal_strlit("if");
    }
    assert(is_word("into"@)) by {
        reveal_strlit("into");
    }
    assert(is_word("is_empty"@)) by {
        reveal_strlit("is_empty");
    }
    assert(is_word("is_null_or_undefined"@)) by {
        reveal_strlit("is_null_or_undefined");
    }
    assert(is_word("is_true"@)) by {
        reveal_strlit("is_true");
    }
    assert(is_word("isolate"@)) by {
        reveal_strlit("isolate");
    }
    assert(is_word("let"@)) by {
        reveal_strlit("let");
    }
    assert(is_word("match"@)) by {
        reveal_strlit("match");
    }
    assert(is_word("mem"@)) by {
        reveal_strlit("mem");
    }
    assert(is_word("msg"@)) by {
        reveal_strlit("msg");
    }
    assert(is_word("mut"@)) by {
        reveal_strlit("mut");
    }
    assert(is_word("new"@)) by {
        reveal_strlit("new");
    }
    assert(is_word("new_from_i64"@)) by {
        reveal_strlit("new_from_i64");
    }
    assert(is_word("new_from_one_byte"@)) by {
        reveal_strlit("new_from_one_byte");
    }
    assert(is_word("new_from_u64"@)) by {
        reveal_strlit("new_from_u64");
    }
    assert(is_word("new_from_unsigned"@)) by {
        reveal_strlit("new_from_unsigned");
    }
    assert(is_word("null"@)) by {
        reveal_strlit("null");
    }
    assert(is_word("opctx"@)) by {
        reveal_strlit("opctx");
    }
    assert(is_word("ops"@)) by {
        reveal_strlit("ops");
    }
    assert(is_word("return"@)) by {
        reveal_strlit("return");
    }
    assert(is_word("scope"@)) by {
        reveal_strlit("scope");
    }
    assert(is_word("serde_rust_to_v8"@)) by {
        reveal_strlit("serde_rust_to_v8");
    }
    assert(is_word("serde_v8"@)) by {
        reveal_strlit("serde_v8");
    }
    assert(is_word("serde_v8_to_rust"@)) by {
        reveal_strlit("serde_v8_to_rust");
    }
    assert(is_word("set"@)) by {
        reveal_strlit("set");
    }
    assert(is_word("set_bool"@)) by {
        reveal_strlit("set_bool");
    }
    assert(is_word("set_double"@)) by {
        reveal_strlit("set_double");
    }
    assert(is_word("set_empty_string"@)) by {
        reveal_strlit("set_empty_string");
    }
    assert(is_word("set_int32"@)) by {
        reveal_strlit("set_int32");
    }
    assert(is_word("set_null"@)) by {
        reveal_strlit("set_null");
    }
    assert(is_word("set_uint32"@)) by {
        reveal_strlit("set_uint32");
    }
    assert(is_word("state"@)) by {
        reveal_strlit("state");
    }
    assert(is_word("std"@)) by {
        reveal_strlit("std");
    }
    assert(is_word("t"@)) by {
        reveal_strlit("t");
    }
    assert(is_word("temp"@)) by {
        reveal_strlit("temp");
    }
    assert(is_word("throw_exception"@)) by {
        reveal_strlit("throw_exception");
    }
    assert(is_word("to_"@)) by {
        reveal_strlit("to_");
    }
    assert(is_word("to_boxed_slice"@)) by {
        reveal_strlit("to_boxed_slice");
    }
    assert(is_word("to_cow_one_byte"@)) by {
        reveal_strlit("to_cow_one_byte");
    }
    assert(is_word("to_str"@)) by {
        reveal_strlit("to_str");
    }
    assert(is_word("to_string"@)) by {
        reveal_strlit("to_string");
    }
    assert(is_word("to_v8_error"@)) by {
        reveal_strlit("to_v8_error");
    }
    assert(is_word("to_v8_slice"@)) by {
        reveal_strlit("to_v8_slice");
    }
    assert(is_word("to_v8_slice_detachable"@)) by {
        reveal_strlit("to_v8_slice_detachable");
    }
    assert(is_word("to_v8_value"@)) by {
        reveal_strlit("to_v8_value");
    }
    assert(is_word("to_vec"@)) by {
        reveal_strlit("to_vec");
    }
    assert(is_word("try_borrow"@)) by {
        reveal_strlit("try_borrow");
    }
    assert(is_word("try_borrow_mut"@)) by {
        reveal_strlit("try_borrow_mut");
    }
    assert(is_word("type_error"@)) by {
        reveal_strlit("type_error");
    }
    assert(is_word("u32"@)) by {
        reveal_strlit("u32");
    }
    assert(is_word("u64"@)) by {
        reveal_strlit("u64");
    }
    assert(is_word("u8"@)) by {
        reveal_strlit("u8");
    }
    assert(is_word("uninit"@)) by {
        reveal_strlit("uninit");
    }
    assert(is_word("unsafe"@)) by {
        reveal_strlit("unsafe");
    }
    assert(is_word("unsafely_take_last_error_for_ops_only"@)) by {
        reveal_strlit("unsafely_take_last_error_for_ops_only");
    }
    assert(is_word("unwrap"@)) by {
        reveal_strlit("unwrap");
    }
    assert(is_word("v"@)) by {
        reveal_strlit("v");
    }
    assert(is_word("v8"@)) by {
        reveal_strlit("v8");
    }
    assert(is_word("v8_try_convert"@)) by {
        reveal_strlit("v8_try_convert");
    }
    assert(is_word("v8_try_convert_option"@)) by {
        reveal_strlit("v8_try_convert_option");
    }
    assert(is_word("value"@)) by {
        reveal_strlit("value");
    }
}

/// A fixed word is neither `let` nor `mut`.
pub(crate) proof fn lemma_fixed_words(s: Seq<char>)
    requires
        is_fixed_word(s),
    ensures
        s != "let"@,
        s != "mut"@,
{
    reveal_strlit("let");
    reveal_strlit("mut");
    assert("let"@.len() == 3 && "let"@[0] == 'l' && "let"@[1] == 'e');
    assert("mut"@.len() == 3 && "mut"@[0] == 'm' && "mut"@[1] == 'u');
    reveal_strlit("BigInt");
    assert("BigInt"@.len() == 6);
    reveal_strlit("Boolean");
    assert("Boolean"@.len() == 7);
    reveal_strlit("CallbackScope");
    assert("CallbackScope"@.len() == 13);
    reveal_strlit("Deref");
    assert("Deref"@.len() == 5);
    reveal_strlit("Err");
    assert("Err"@[0] == 'E');
    reveal_strlit("Error");
    assert("Error"@.len() == 5);
    reveal_strlit("Exception");
    assert("Exception"@.len() == 9);
    reveal_strlit("External");
    assert("External"@.len() == 8);
    reveal_strlit("FunctionCallbackArguments");
    assert("FunctionCallbackArguments"@.len() == 25);
    reveal_strlit("FunctionCallbackInfo");
    assert("FunctionCallbackInfo"@.len() == 20);
    reveal_strlit("Global");
    assert("Global"@.len() == 6);
    reveal_strlit("Integer");
    assert("Integer"@.len() == 7);
    reveal_strlit("JsBuffer");
    assert("JsBuffer"@.len() == 8);
    reveal_strlit("Local");
    assert("Local"@.len() == 5);
    reveal_strlit("MaybeUninit");
    assert("MaybeUninit"@.len() == 11);
    reveal_strlit("NewStringType");
    assert("NewStringType"@.len() == 13);
    reveal_strlit("None");
    assert("None"@.len() == 4);
    reveal_strlit("Normal");
    assert("Normal"@.len() == 6);
    reveal_strlit("Ok");
    assert("Ok"@.len() == 2);
    reveal_strlit("OpCtx");
    assert("OpCtx"@.len() == 5);
    reveal_strlit("ReturnValue");
    assert("ReturnValue"@.len() == 11);
    reveal_strlit("STRING_STACK_BUFFER_SIZE");
    assert("STRING_STACK_BUFFER_SIZE"@.len() == 24);
    reveal_strlit("Self");
    assert("Self"@.len() == 4);
    reveal_strlit("Some");
    assert("Some"@.len() == 4);
    reveal_strlit("String");
    assert("String"@.len() == 6);
    reveal_strlit("ToV8Value");
    assert("ToV8Value"@.len() == 9);
    reveal_strlit("_");
    assert("_"@.len() == 1);
    reveal_strlit("_ops");
    assert("_ops"@.len() == 4);
    reveal_strlit("anyhow");
    assert("anyhow"@.len() == 6);
    reveal_strlit("as");
    assert("as"@.len() == 2);
    reveal_strlit("as_bytes");
    assert("as_bytes"@.len() == 8);
    reveal_strlit("bool");
    assert("bool"@.len() == 4);
    reveal_strlit("borrow");
    assert("borrow"@.len() == 6);
    reveal_strlit("borrow_mut");
    assert("borrow_mut"@.len() == 10);
    reveal_strlit("call");
    assert("call"@.len() == 4);
    reveal_strlit("cast");
    assert("cast"@.len() == 4);
    reveal_strlit("clone");
    assert("clone"@.len() == 5);
    reveal_strlit("const");
    assert("const"@.len() == 5);
    reveal_strlit("data");
    assert("data"@.len() == 4);
    reveal_strlit("deref");
    assert("deref"@.len() == 5);
    reveal_strlit("else");
    assert("else"@.len() == 4);
    reveal_strlit("err");
    assert("err"@[0] == 'e');
    reveal_strlit("error");
    assert("error"@.len() == 5);
    reveal_strlit("exc");
    assert("exc"@[0] == 'e');
    reveal_strlit("exception");
    assert("exception"@.len() == 9);
    reveal_strlit("extern");
    assert("extern"@.len() == 6);
    reveal_strlit("fn");
    assert("fn"@.len() == 2);
    reveal_strlit("format");
    assert("format"@.len() == 6);
    reveal_strlit("from");
    assert("from"@.len() == 4);
    reveal_strlit("from_function_callback_info");
    assert("from_function_callback_info"@.len() == 27);
    reveal_strlit("from_parts");
    assert("from_parts"@.len() == 10);
    reveal_strlit("get");
    assert("get"@[0] == 'g');
    reveal_strlit("get_error_class_fn");
    assert("get_error_class_fn"@.len() == 18);
    reveal_strlit("i32");
    assert("i32"@[0] == 'i');
    reveal_strlit("if");
    assert("if"@.len() == 2);
    reveal_strlit("into");
    assert("into"@.len() == 4);
    reveal_strlit("is_empty");
    assert("is_empty"@.len() == 8);
    reveal_strlit("is_null_or_undefined");
    assert("is_null_or_undefined"@.len() == 20);
    reveal_strlit("is_true");
    assert("is_true"@.len() == 7);
    reveal_strlit("isolate");
    assert("isolate"@.len() == 7);
    reveal_strlit("match");
    assert("match"@.len() == 5);
    reveal_strlit("mem");
    assert("mem"@[1] == 'e');
    reveal_strlit("msg");
    assert("msg"@[1] == 's');
    reveal_strlit("new");
    assert("new"@[0] == 'n');
    reveal_strlit("new_from_i64");
    assert("new_from_i64"@.len() == 12);
    reveal_strlit("new_from_one_byte");
    assert("new_from_one_byte"@.len() == 17);
    reveal_strlit("new_from_u64");
    assert("new_from_u64"@.len() == 12);
    reveal_strlit("new_from_unsigned");
    assert("new_from_unsigned"@.len() == 17);
    reveal_strlit("null");
    assert("null"@.len() == 4);
    reveal_strlit("ops");
    assert("ops"@[0] == 'o');
    reveal_strlit("return");
    assert("return"@.len() == 6);
    reveal_strlit("serde_rust_to_v8");
    assert("serde_rust_to_v8"@.len() == 16);
    reveal_strlit("serde_v8");
    assert("serde_v8"@.len() == 8);
    reveal_strlit("serde_v8_to_rust");
    assert("serde_v8_to_rust"@.len() == 16);
    reveal_strlit("set");
    assert("set"@[0] == 's');
    reveal_strlit("set_bool");
    assert("set_bool"@.len() == 8);
    reveal_strlit("set_double");
    assert("set_double"@.len() == 10);
    reveal_strlit("set_empty_string");
    assert("set_empty_string"@.len() == 16);
    reveal_strlit("set_int32");
    assert("set_int32"@.len() == 9);
    reveal_strlit("set_null");
    assert("set_null"@.len() == 8);
    reveal_strlit("set_uint32");
    assert("set_uint32"@.len() == 10);
    reveal_strlit("state");
    assert("state"@.len() == 5);
    reveal_strlit("std");
    assert("std"@[0] == 's');
    reveal_strlit("t");
    assert("t"@.len() == 1);
    reveal_strlit("temp");
    assert("temp"@.len() == 4);
    reveal_strlit("throw_exception");
    assert("throw_exception"@.len() == 15);
    reveal_strlit("to_boxed_slice");
    assert("to_boxed_slice"@.len() == 14);
    reveal_strlit("to_cow_one_byte");
    assert("to_cow_one_byte"@.len() == 15);
    reveal_strlit("to_str");
    assert("to_str"@.len() == 6);
    reveal_strlit("to_string");
    assert("to_string"@.len() == 9);
    reveal_strlit("to_v8_error");
    assert("to_v8_error"@.len() == 11);
    reveal_strlit("to_v8_slice");
    assert("to_v8_slice"@.len() == 11);
    reveal_strlit("to_v8_slice_detachable");
    assert("to_v8_slice_detachable"@.len() == 22);
    reveal_strlit("to_v8_value");
    assert("to_v8_value"@.len() == 11);
    reveal_strlit("to_vec");
    assert("to_vec"@.len() == 6);
    reveal_strlit("try_borrow");
    assert("try_borrow"@.len() == 10);
    reveal_strlit("try_borrow_mut");
    assert("try_borrow_mut"@.len() == 14);
    reveal_strlit("type_error");
    assert("type_error"@.len() == 10);
    reveal_strlit("u32");
    assert("u32"@[0] == 'u');
    reveal_strlit("u8");
    assert("u8"@.len() == 2);
    reveal_strlit("uninit");
    assert("uninit"@.len() == 6);
    reveal_strlit("unsafe");
    assert("unsafe"@.len() == 6);
    reveal_strlit("unsafely_take_last_error_for_ops_only");
    assert("unsafely_take_last_error_for_ops_only"@.len() == 37);
    reveal_strlit("unwrap");
    assert("unwrap"@.len() == 6);
    reveal_strlit("v");
    assert("v"@.len() == 1);
    reveal_strlit("v8");
    assert("v8"@.len() == 2);
    reveal_strlit("v8_try_convert");
    assert("v8_try_convert"@.len() == 14);
    reveal_strlit("v8_try_convert_option");
    assert("v8_try_convert_option"@.len() == 21);
    reveal_strlit("value");
    assert("value"@.len() == 5);
}

} // verus!
