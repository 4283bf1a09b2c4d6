use deno_ops::dispatch_slow::{
    call, extract_arg, from_arg, from_arg_buffer, from_arg_option, return_value,
    return_value_infallible, return_value_result, return_value_v8_value, throw_exception,
    throw_type_error, throw_type_error_static_string, throw_type_error_string, with_fn_args,
    with_isolate, with_opctx, with_opstate, with_retval, with_scope,
};
use deno_ops::generator_state::GeneratorState;
use deno_ops::signature::{
    Arg, Buffer, BufferMode, External, NumericArg, RefType, RetVal, Special, Strings, V8Arg,
};
use deno_ops::V8MappingError;
use proc_macro2::{Delimiter, Ident, Span, TokenStream, TokenTree};

fn ident(text: &str) -> Ident {
    Ident::new(text, Span::call_site())
}

fn state_of(args: &[&str]) -> GeneratorState {
    GeneratorState {
        deno_core: "::core".parse().unwrap(),
        args: args.iter().map(|arg| ident(arg)).collect(),
        result: ident("result"),
        scope: ident("handles"),
        info: ident("info"),
        fn_args: ident("fn_args"),
        opctx: ident("ctx"),
        opstate: ident("op_state"),
        retval: ident("rv"),
        slow_function: ident("v8_fn_ptr"),
        needs_args: false,
        needs_retval: false,
        needs_scope: false,
        needs_isolate: false,
        needs_opstate: false,
        needs_opctx: false,
    }
}

fn state() -> GeneratorState {
    state_of(&["arg0", "arg1"])
}

/// The needs in the order args, retval, scope, isolate, opstate, opctx.
fn needs(state: &GeneratorState) -> [bool; 6] {
    [
        state.needs_args,
        state.needs_retval,
        state.needs_scope,
        state.needs_isolate,
        state.needs_opstate,
        state.needs_opctx,
    ]
}

const NOTHING: [bool; 6] = [false; 6];
const ARGS: [bool; 6] = [true, false, false, false, false, false];
const RETVAL: [bool; 6] = [false, true, false, false, false, false];
const SCOPE: [bool; 6] = [false, false, true, false, false, false];
const ISOLATE: [bool; 6] = [false, false, false, true, false, false];
const OPSTATE: [bool; 6] = [false, false, false, false, true, false];
const OPCTX: [bool; 6] = [false, false, false, false, false, true];
const RETVAL_SCOPE: [bool; 6] = [false, true, true, false, false, false];

fn flatten(stream: TokenStream, out: &mut Vec<String>) {
    for tree in stream {
        match tree {
            TokenTree::Group(group) => {
                let (open, close) = match group.delimiter() {
                    Delimiter::Parenthesis => ("(", ")"),
                    Delimiter::Brace => ("{", "}"),
                    Delimiter::Bracket => ("[", "]"),
                    Delimiter::None => ("<none", "none>"),
                };
                out.push(open.to_string());
                flatten(group.stream(), out);
                out.push(close.to_string());
            }
            other => out.push(other.to_string()),
        }
    }
}

fn texts(stream: TokenStream) -> Vec<String> {
    let mut out = Vec::new();
    flatten(stream, &mut out);
    out
}

/// The stream holds the tokens of the text, whatever the spacing.
fn assert_code(stream: TokenStream, expected: &str) {
    assert_eq!(texts(stream), texts(expected.parse().unwrap()));
}

fn assert_no_mapping(r: Result<TokenStream, V8MappingError>, place: &str, arg: &Arg) {
    match r {
        Ok(stream) => panic!("unexpected code: {}", stream),
        Err(V8MappingError::NoMapping(what, which)) => {
            assert_eq!(what, place);
            assert_eq!(format!("{:?}", which), format!("{:?}", arg));
        }
    }
}

fn arg_code(state: &mut GeneratorState, arg: Arg) -> TokenStream {
    from_arg(state, 0, &arg).unwrap()
}

fn check_arg(arg: Arg, expected_needs: [bool; 6], expected: &str) {
    let mut g = state();
    assert_code(arg_code(&mut g, arg), expected);
    assert_eq!(needs(&g), expected_needs);
}

const SCOPE_DECL: &str =
    "let mut handles = unsafe { ::core::v8::CallbackScope::new(&*info) };";

fn throw_msg(scope: &str, bytes: &str, kind: &str) -> String {
    format!(
        "{} let msg = ::core::v8::String::new_from_one_byte(&mut handles, {}.as_bytes(), \
         ::core::v8::NewStringType::Normal).unwrap(); \
         let exc = ::core::v8::Exception::{}(&mut handles, msg); \
         handles.throw_exception(exc); return;",
        scope, bytes, kind
    )
}

// The declarations.

#[test]
fn scope_is_a_callback_scope() {
    let mut g = state();
    assert_code(with_scope(&mut g), SCOPE_DECL);
    assert_eq!(needs(&g), NOTHING);
}

#[test]
fn double_colons_and_arrows_are_single_operators() {
    let mut g = state();
    assert_eq!(
        with_scope(&mut g).to_string(),
        "let mut handles = unsafe { :: core :: v8 :: CallbackScope :: new (& * info) } ;"
    );
    let code = arg_code(&mut g, Arg::String(Strings::CowByte)).to_string();
    assert!(code.contains("Ok (arg0) => arg0 ,"));
}

#[test]
fn isolate_comes_from_the_context() {
    let mut g = state();
    assert_code(with_isolate(&mut g), "let mut handles = unsafe { &mut *ctx.isolate };");
    assert_eq!(needs(&g), OPCTX);
}

#[test]
fn return_value_comes_from_the_info() {
    let mut g = state();
    assert_code(
        with_retval(&mut g),
        "let mut rv = ::core::v8::ReturnValue::from_function_callback_info(unsafe { &*info });",
    );
    assert_eq!(needs(&g), NOTHING);
}

#[test]
fn arguments_come_from_the_info() {
    let mut g = state();
    assert_code(
        with_fn_args(&mut g),
        "let fn_args = ::core::v8::FunctionCallbackArguments::from_function_callback_info(\
         unsafe { &*info });",
    );
    assert_eq!(needs(&g), NOTHING);
}

#[test]
fn context_comes_from_the_arguments() {
    let mut g = state();
    assert_code(
        with_opctx(&mut g),
        "let ctx = unsafe { &*(::core::v8::Local::<::core::v8::External>::cast(fn_args.data())\
         .value() as *const ::core::_ops::OpCtx) };",
    );
    assert_eq!(needs(&g), ARGS);
}

#[test]
fn op_state_comes_from_the_context() {
    let mut g = state();
    assert_code(with_opstate(&mut g), "let op_state = &ctx.state;");
    assert_eq!(needs(&g), OPCTX);
}

// Exceptions.

const THROW_ERR: &str = "let err = err.into(); \
     let exception = ::core::error::to_v8_error(&mut handles, ctx.get_error_class_fn, &err,); \
     handles.throw_exception(exception); return;";

#[test]
fn throw_exception_declares_scope_and_context_itself() {
    let mut g = state();
    let ctx = with_opctx(&mut state()).to_string();
    let code = throw_exception(&mut g).unwrap();
    assert_code(code, &format!("{} {} {}", SCOPE_DECL, ctx, THROW_ERR));
    // The arguments that the context is read from are declared by the function.
    assert_eq!(needs(&g), ARGS);
}

#[test]
fn throw_exception_uses_what_is_declared() {
    let mut g = state();
    g.needs_scope = true;
    g.needs_opctx = true;
    g.needs_args = true;
    let before = needs(&g);
    assert_code(throw_exception(&mut g).unwrap(), THROW_ERR);
    assert_eq!(needs(&g), before);
}

#[test]
fn throw_exception_declares_arguments_beside_a_declared_context() {
    let mut g = state();
    g.needs_scope = true;
    g.needs_opctx = true;
    let args = with_fn_args(&mut state()).to_string();
    assert_code(throw_exception(&mut g).unwrap(), &format!("{} {}", args, THROW_ERR));
    assert!(!g.needs_args);
}

#[test]
fn throw_type_error_with_and_without_scope() {
    let mut g = state();
    let code = throw_type_error(&mut g, "no \"luck\"".to_string()).unwrap();
    assert_code(code, &throw_msg(SCOPE_DECL, "\"no \\\"luck\\\"\"", "type_error"));
    assert_eq!(needs(&g), NOTHING);
    g.needs_scope = true;
    let code = throw_type_error(&mut g, "no".to_string()).unwrap();
    assert_code(code, &throw_msg("", "\"no\"", "type_error"));
    assert_eq!(needs(&g), SCOPE);
}

#[test]
fn throw_type_error_string_formats_the_error() {
    let expected = "let msg = ::core::v8::String::new(&mut handles, \
         &format!(\"{}\", ::core::anyhow::Error::from(why))).unwrap(); \
         let exc = ::core::v8::Exception::error(&mut handles, msg); \
         handles.throw_exception(exc); return;";
    let mut g = state();
    let code = throw_type_error_string(&mut g, &ident("why")).unwrap();
    assert_code(code, &[SCOPE_DECL, expected].concat());
    g.needs_scope = true;
    assert_code(throw_type_error_string(&mut g, &ident("why")).unwrap(), expected);
}

#[test]
fn throw_type_error_static_string_takes_the_variable() {
    let mut g = state();
    let code = throw_type_error_static_string(&mut g, &ident("why")).unwrap();
    assert_code(code, &throw_msg(SCOPE_DECL, "why", "error"));
    g.needs_scope = true;
    let code = throw_type_error_static_string(&mut g, &ident("why")).unwrap();
    assert_code(code, &throw_msg("", "why", "error"));
}

#[test]
fn every_throw_returns() {
    let mut g = state();
    let codes = vec![
        throw_exception(&mut g).unwrap(),
        throw_type_error(&mut g, "m".to_string()).unwrap(),
        throw_type_error_string(&mut g, &ident("m")).unwrap(),
        throw_type_error_static_string(&mut g, &ident("m")).unwrap(),
    ];
    for code in codes {
        let all = texts(code);
        assert_eq!(all[all.len() - 2..].to_vec(), vec!["return".to_string(), ";".to_string()]);
    }
}

// Arguments.

#[test]
fn extract_arg_takes_the_input_of_the_given_index() {
    let mut g = state();
    let code = extract_arg(&mut g, 1, 7).unwrap();
    assert_code(code, "let arg1 = fn_args.get(7usize as i32);");
    assert_eq!(needs(&g), NOTHING);
}

#[test]
fn extract_arg_without_a_name_leaves_it_out() {
    let mut g = state();
    let code = extract_arg(&mut g, 2, 0).unwrap();
    assert_code(code, "let = fn_args.get(0usize as i32);");
}

fn option_code(a: &str, what: &str) -> String {
    format!(
        "let Some({a}) = ::core::_ops::to_{what}_option(&{a}) else {{ {throw} }}; \
         let {a} = {a} as _;",
        throw = throw_msg(SCOPE_DECL, &format!("\"expected {}\"", what), "type_error")
    )
}

#[test]
fn from_arg_option_checks_the_conversion() {
    let mut g = state();
    let code = from_arg_option(&mut g, &ident("x"), "anything").unwrap();
    assert_code(code, &option_code("x", "anything"));
    assert_eq!(needs(&g), NOTHING);
}

#[test]
fn numbers_go_through_the_conversion_of_their_kind() {
    let kinds = [
        (NumericArg::U8, "u32"),
        (NumericArg::U16, "u32"),
        (NumericArg::U32, "u32"),
        (NumericArg::I8, "i32"),
        (NumericArg::I16, "i32"),
        (NumericArg::I32, "i32"),
        (NumericArg::Smi, "i32"),
        (NumericArg::U64, "u64"),
        (NumericArg::Usize, "u64"),
        (NumericArg::I64, "i64"),
        (NumericArg::Isize, "i64"),
        (NumericArg::F32, "f32"),
        (NumericArg::F64, "f64"),
    ];
    for (numeric, what) in kinds {
        check_arg(Arg::Numeric(numeric), NOTHING, &option_code("arg0", what));
    }
}

#[test]
fn booleans_are_taken_as_they_are() {
    check_arg(Arg::Numeric(NumericArg::Bool), NOTHING, "let arg0 = arg0.is_true();");
}

#[test]
fn the_second_argument_has_the_second_name() {
    let mut g = state();
    let code = from_arg(&mut g, 1, &Arg::Numeric(NumericArg::Bool)).unwrap();
    assert_code(code, "let arg1 = arg1.is_true();");
}

#[test]
fn a_declared_scope_is_used_in_the_exception() {
    let mut g = state();
    g.needs_scope = true;
    let code = arg_code(&mut g, Arg::Numeric(NumericArg::I64));
    let expected = format!(
        "let Some(arg0) = ::core::_ops::to_i64_option(&arg0) else {{ {} }}; let arg0 = arg0 as _;",
        throw_msg("", "\"expected i64\"", "type_error")
    );
    assert_code(code, &expected);
}

#[test]
fn optional_numbers_and_strings() {
    check_arg(
        Arg::OptionNumeric(NumericArg::Bool),
        NOTHING,
        "let arg0 = if arg0.is_null_or_undefined() { None } else { \
         let arg0 = arg0.is_true(); Some(arg0) };",
    );
    check_arg(
        Arg::OptionNumeric(NumericArg::U16),
        NOTHING,
        &format!(
            "let arg0 = if arg0.is_null_or_undefined() {{ None }} else {{ {} Some(arg0) }};",
            option_code("arg0", "u32")
        ),
    );
    check_arg(
        Arg::OptionString(Strings::String),
        ISOLATE,
        "let arg0 = if arg0.is_null_or_undefined() { None } else { \
         Some(::core::_ops::to_string(&mut handles, &arg0)) };",
    );
}

const BUFFER_DECL: &str = "let mut arg0_temp: [::std::mem::MaybeUninit<u8>; \
     ::core::_ops::STRING_STACK_BUFFER_SIZE] = [::std::mem::MaybeUninit::uninit(); \
     ::core::_ops::STRING_STACK_BUFFER_SIZE];";

#[test]
fn strings_need_the_isolate() {
    check_arg(
        Arg::String(Strings::String),
        ISOLATE,
        "let arg0 = ::core::_ops::to_string(&mut handles, &arg0);",
    );
    check_arg(
        Arg::String(Strings::RefStr),
        ISOLATE,
        &format!(
            "{} let arg0 = &::core::_ops::to_str(&mut handles, &arg0, &mut arg0_temp);",
            BUFFER_DECL
        ),
    );
    check_arg(
        Arg::String(Strings::CowStr),
        ISOLATE,
        &format!(
            "{} let arg0 = ::core::_ops::to_str(&mut handles, &arg0, &mut arg0_temp);",
            BUFFER_DECL
        ),
    );
    check_arg(
        Arg::String(Strings::CowByte),
        ISOLATE,
        &format!(
            "let arg0 = match ::core::_ops::to_cow_one_byte(&mut handles, &arg0) {{ \
             Ok(arg0) => arg0, Err(arg0) => {{ {} }} }};",
            throw_msg(SCOPE_DECL, "arg0", "error")
        ),
    );
}

#[test]
fn names_made_from_a_raw_name_are_not_raw() {
    let mut g = state();
    g.args = vec![Ident::new_raw("type", Span::call_site())];
    let all = texts(arg_code(&mut g, Arg::String(Strings::CowStr)));
    assert!(all.contains(&"type_temp".to_string()));
    assert!(all.contains(&"r#type".to_string()));
    let all = texts(arg_code(&mut g, Arg::SerdeV8("T".to_string())));
    assert!(all.contains(&"type_err".to_string()));
}

fn buffer_code(to_v8_slice: &str, make_arg: &str) -> String {
    format!(
        "let mut x = match unsafe {{ ::core::_ops::{}::<::core::v8::Uint8Array>(\
         &mut handles, x) }} {{ Ok(x) => x, Err(x_err) => {{ {} }} }}; {}",
        to_v8_slice,
        throw_msg(SCOPE_DECL, "x_err", "error"),
        make_arg
    )
}

#[test]
fn buffers_are_made_from_slices() {
    let kinds = [
        (Buffer::Slice(RefType::Ref, NumericArg::U8), "to_v8_slice", "let x = &mut x;"),
        (Buffer::Slice(RefType::Mut, NumericArg::U8), "to_v8_slice", "let x = &mut x;"),
        (Buffer::Vec(NumericArg::U8), "to_v8_slice", "let x = x.to_vec();"),
        (Buffer::BoxSlice(NumericArg::U8), "to_v8_slice", "let x = x.to_boxed_slice();"),
        (Buffer::Bytes(BufferMode::Copy), "to_v8_slice", "let x = x.to_vec().into();"),
        (
            Buffer::JsBuffer(BufferMode::Default),
            "to_v8_slice",
            "let x = ::core::serde_v8::JsBuffer::from_parts(x);",
        ),
        (
            Buffer::JsBuffer(BufferMode::Detach),
            "to_v8_slice_detachable",
            "let x = ::core::serde_v8::JsBuffer::from_parts(x);",
        ),
    ];
    for (buffer, to_v8_slice, make_arg) in kinds {
        let mut g = state();
        let code = from_arg_buffer(&mut g, &ident("x"), &buffer).unwrap();
        assert_code(code, &buffer_code(to_v8_slice, make_arg));
        assert_eq!(needs(&g), SCOPE);
        let mut g = state_of(&["x"]);
        let code = from_arg(&mut g, 0, &Arg::Buffer(buffer)).unwrap();
        assert_code(code, &buffer_code(to_v8_slice, make_arg));
        assert_eq!(needs(&g), SCOPE);
    }
}

#[test]
fn other_buffers_have_no_mapping() {
    let kinds = [
        Buffer::Slice(RefType::Ref, NumericArg::U32),
        Buffer::Vec(NumericArg::I8),
        Buffer::BoxSlice(NumericArg::F64),
        Buffer::Bytes(BufferMode::Default),
        Buffer::Bytes(BufferMode::Detach),
        Buffer::BytesMut(BufferMode::Copy),
        Buffer::BytesMut(BufferMode::Default),
        Buffer::JsBuffer(BufferMode::Copy),
    ];
    for buffer in kinds {
        let mut g = state();
        let r = from_arg_buffer(&mut g, &ident("x"), &buffer);
        assert_no_mapping(r, "a buffer argument", &Arg::Buffer(buffer));
        // The scope counts as needed all the same.
        assert_eq!(needs(&g), SCOPE);
    }
}

#[test]
fn pointers_are_converted_with_a_check() {
    for ref_type in [RefType::Ref, RefType::Mut] {
        check_arg(
            Arg::External(External::Ptr(ref_type)),
            NOTHING,
            &option_code("arg0", "external"),
        );
    }
}

#[test]
fn objects_of_the_runtime() {
    check_arg(Arg::Ref(RefType::Ref, Special::HandleScope), SCOPE, "let arg0 = &mut handles;");
    check_arg(Arg::Ref(RefType::Mut, Special::HandleScope), SCOPE, "let arg0 = &mut handles;");
    check_arg(
        Arg::Ref(RefType::Ref, Special::OpState),
        OPSTATE,
        "let arg0 = &op_state.borrow();",
    );
    check_arg(
        Arg::Ref(RefType::Mut, Special::OpState),
        OPSTATE,
        "let arg0 = &mut op_state.borrow_mut();",
    );
    check_arg(Arg::RcRefCell(Special::OpState), OPSTATE, "let arg0 = op_state.clone();");
}

#[test]
fn values_in_the_op_state() {
    let ty = || "my::Map<String, [u8; 4]>".to_string();
    check_arg(
        Arg::State(RefType::Ref, ty()),
        OPSTATE,
        "let arg0 = op_state.borrow(); \
         let arg0 = arg0.borrow::<my::Map<String, [u8; 4]>>();",
    );
    check_arg(
        Arg::State(RefType::Mut, ty()),
        OPSTATE,
        "let mut arg0 = op_state.borrow_mut(); \
         let arg0 = arg0.borrow_mut::<my::Map<String, [u8; 4]>>();",
    );
    check_arg(
        Arg::OptionState(RefType::Ref, ty()),
        OPSTATE,
        "let arg0 = op_state.borrow(); \
         let arg0 = arg0.try_borrow::<my::Map<String, [u8; 4]>>();",
    );
    check_arg(
        Arg::OptionState(RefType::Mut, ty()),
        OPSTATE,
        "let mut arg0 = op_state.borrow_mut(); \
         let arg0 = arg0.try_borrow_mut::<my::Map<String, [u8; 4]>>();",
    );
}

fn v8_code(convert: &str, class: &str, value: &str) -> String {
    format!(
        "let Ok(mut arg0) = ::core::_ops::{}::<::core::v8::{}>(arg0) else {{ {} }}; \
         let arg0 = {};",
        convert,
        class,
        throw_msg(SCOPE_DECL, &format!("\"expected {}\"", class), "type_error"),
        value
    )
}

#[test]
fn local_v8_values() {
    check_arg(
        Arg::V8Local(V8Arg::Function),
        NOTHING,
        &v8_code("v8_try_convert", "Function", "arg0"),
    );
    check_arg(
        Arg::OptionV8Local(V8Arg::JsMap),
        NOTHING,
        &v8_code("v8_try_convert_option", "Map", "arg0"),
    );
    check_arg(
        Arg::V8Ref(RefType::Ref, V8Arg::JsSet),
        NOTHING,
        &v8_code("v8_try_convert", "Set", "&arg0"),
    );
    check_arg(
        Arg::OptionV8Ref(RefType::Ref, V8Arg::Uint8ClampedArray),
        NOTHING,
        &v8_code(
            "v8_try_convert_option",
            "Uint8ClampedArray",
            "match &arg0 { None => None, Some(v) => Some(::std::ops::Deref::deref(v)) }",
        ),
    );
}

#[test]
fn global_v8_values_need_the_isolate() {
    check_arg(
        Arg::V8Global(V8Arg::Object),
        ISOLATE,
        &v8_code(
            "v8_try_convert",
            "Object",
            "::core::v8::Global::new(&mut handles, arg0)",
        ),
    );
    check_arg(
        Arg::OptionV8Global(V8Arg::Promise),
        ISOLATE,
        &v8_code(
            "v8_try_convert_option",
            "Promise",
            "match &arg0 { None => None, \
             Some(v) => Some(::core::v8::Global::new(&mut handles, v)) }",
        ),
    );
}

#[test]
fn serialized_arguments_need_the_scope() {
    check_arg(
        Arg::SerdeV8("Whatever".to_string()),
        SCOPE,
        "let arg0 = match ::core::_ops::serde_v8_to_rust(&mut handles, arg0) { \
         Ok(t) => t, Err(arg0_err) => { \
         let msg = ::core::v8::String::new(&mut handles, \
         &format!(\"{}\", ::core::anyhow::Error::from(arg0_err))).unwrap(); \
         let exc = ::core::v8::Exception::error(&mut handles, msg); \
         handles.throw_exception(exc); return;; } };",
    );
}

#[test]
fn other_arguments_have_no_mapping() {
    let kinds = vec![
        Arg::Void,
        Arg::OptionString(Strings::RefStr),
        Arg::OptionString(Strings::CowStr),
        Arg::OptionString(Strings::CowByte),
        Arg::RcRefCell(Special::HandleScope),
        Arg::V8Ref(RefType::Mut, V8Arg::Object),
        Arg::OptionV8Ref(RefType::Mut, V8Arg::Object),
    ];
    for arg in kinds {
        let mut g = state();
        let r = from_arg(&mut g, 0, &arg);
        assert_no_mapping(r, "a slow argument", &arg);
        assert_eq!(needs(&g), NOTHING);
    }
}

#[test]
fn the_call_names_every_argument() {
    let mut g = state_of(&["a", "b", "c"]);
    assert_code(call(&mut g).unwrap(), "Self::call(a, b, c,)");
    assert_eq!(needs(&g), NOTHING);
    assert_code(call(&mut state_of(&[])).unwrap(), "Self::call()");
}

// Results.

fn check_result(arg: Arg, expected_needs: [bool; 6], expected: &str) {
    let mut g = state();
    assert_code(return_value_infallible(&mut g, &arg).unwrap(), expected);
    assert_eq!(needs(&g), expected_needs);
    let mut g = state();
    assert_code(return_value(&mut g, &RetVal::Infallible(arg)).unwrap(), expected);
    assert_eq!(needs(&g), expected_needs);
}

#[test]
fn numbers_are_returned_by_their_kind() {
    check_result(Arg::Void, RETVAL, "rv.set_null();");
    let kinds = [
        (NumericArg::Bool, "set_bool", "bool"),
        (NumericArg::U8, "set_uint32", "u32"),
        (NumericArg::U16, "set_uint32", "u32"),
        (NumericArg::U32, "set_uint32", "u32"),
        (NumericArg::I8, "set_int32", "i32"),
        (NumericArg::I16, "set_int32", "i32"),
        (NumericArg::I32, "set_int32", "i32"),
        (NumericArg::Smi, "set_int32", "i32"),
        (NumericArg::F32, "set_double", "_"),
        (NumericArg::F64, "set_double", "_"),
    ];
    for (numeric, method, ty) in kinds {
        let expected = format!("rv.{}(result as {});", method, ty);
        check_result(Arg::Numeric(numeric), RETVAL, &expected);
    }
}

#[test]
fn big_integers_are_returned_in_the_scope() {
    for numeric in [NumericArg::I64, NumericArg::Isize] {
        check_result(
            Arg::Numeric(numeric),
            RETVAL_SCOPE,
            "rv.set(v8::BigInt::new_from_i64(&mut scope, result as _).into());",
        );
    }
    for numeric in [NumericArg::U64, NumericArg::Usize] {
        check_result(
            Arg::Numeric(numeric),
            RETVAL_SCOPE,
            "rv.set(v8::BigInt::new_from_u64(&mut handles, result as _).into());",
        );
    }
}

#[test]
fn strings_are_returned_in_the_scope() {
    check_result(
        Arg::String(Strings::String),
        RETVAL_SCOPE,
        "if result.is_empty() { rv.set_empty_string(); } else { \
         let temp = ::core::v8::String::new(&mut handles, &result).unwrap(); \
         rv.set(temp.into()); }",
    );
    check_result(
        Arg::String(Strings::CowByte),
        RETVAL_SCOPE,
        "if result.is_empty() { rv.set_empty_string(); } else { \
         let temp = ::core::v8::String::new_from_one_byte(&mut handles, &result, \
         ::core::v8::NewStringType::Normal).unwrap(); \
         rv.set(temp.into()); }",
    );
}

#[test]
fn values_are_returned_as_they_are() {
    check_result(Arg::V8Local(V8Arg::Value), RETVAL, "rv.set(result.into())");
}

#[test]
fn serialized_results() {
    check_result(
        Arg::SerdeV8("Whatever".to_string()),
        RETVAL_SCOPE,
        "let result = match ::core::_ops::serde_rust_to_v8(&mut handles, result) { \
         Ok(t) => t, Err(rv_err) => { \
         let msg = ::core::v8::String::new(&mut handles, \
         &format!(\"{}\", ::core::anyhow::Error::from(rv_err))).unwrap(); \
         let exc = ::core::v8::Exception::error(&mut handles, msg); \
         handles.throw_exception(exc); return; } }; \
         rv.set(result.into())",
    );
}

fn returned_buffers() -> Vec<Buffer> {
    vec![
        Buffer::JsBuffer(BufferMode::Default),
        Buffer::Vec(NumericArg::U8),
        Buffer::BoxSlice(NumericArg::U8),
        Buffer::BytesMut(BufferMode::Default),
    ]
}

#[test]
fn buffers_and_pointers_are_returned_in_the_scope() {
    for buffer in returned_buffers() {
        check_result(
            Arg::Buffer(buffer),
            RETVAL_SCOPE,
            "rv.set(::core::_ops::ToV8Value::to_v8_value(result, &mut handles));",
        );
    }
    check_result(
        Arg::External(External::Ptr(RefType::Mut)),
        RETVAL_SCOPE,
        "rv.set(::core::v8::External::new(&mut handles, result as _).into())",
    );
}

#[test]
fn optional_results_are_handled_in_a_branch() {
    check_result(
        Arg::OptionNumeric(NumericArg::U8),
        RETVAL,
        "if let Some(result) = result { rv.set_uint32(result as u32); } else { rv.set_null(); }",
    );
    check_result(
        Arg::OptionNumeric(NumericArg::U64),
        RETVAL_SCOPE,
        "if let Some(result) = result { \
         rv.set(v8::BigInt::new_from_u64(&mut handles, result as _).into()); \
         } else { rv.set_null(); }",
    );
    check_result(
        Arg::OptionV8Local(V8Arg::Value),
        RETVAL,
        "if let Some(result) = result { rv.set(result.into()) } else { rv.set_null(); }",
    );
}

#[test]
fn other_results_have_no_mapping() {
    let kinds = vec![
        Arg::String(Strings::RefStr),
        Arg::String(Strings::CowStr),
        Arg::Buffer(Buffer::Vec(NumericArg::U16)),
        Arg::Buffer(Buffer::Bytes(BufferMode::Copy)),
        Arg::Buffer(Buffer::JsBuffer(BufferMode::Detach)),
        Arg::Ref(RefType::Ref, Special::OpState),
        Arg::RcRefCell(Special::OpState),
        Arg::State(RefType::Ref, "T".to_string()),
        Arg::V8Ref(RefType::Ref, V8Arg::Value),
        Arg::V8Global(V8Arg::Value),
    ];
    for arg in kinds {
        let mut g = state();
        assert_no_mapping(return_value_infallible(&mut g, &arg), "a slow return value", &arg);
        assert_eq!(needs(&g), RETVAL);
        let mut g = state();
        assert_no_mapping(return_value_result(&mut g, &arg), "a slow return value", &arg);
        assert_eq!(needs(&g), RETVAL);
    }
}

#[test]
fn an_optional_result_without_mapping_is_named_without_its_option() {
    let mut g = state();
    let r = return_value_infallible(&mut g, &Arg::OptionString(Strings::RefStr));
    assert_no_mapping(r, "a slow return value", &Arg::String(Strings::RefStr));
}

#[test]
fn fallible_results_throw() {
    let mut g = state();
    let ctx = with_opctx(&mut state()).to_string();
    let expected = format!(
        "match result {{ Ok(result) => {{ rv.set_null(); }} Err(err) => {{ {} {} {} }} }};",
        SCOPE_DECL, ctx, THROW_ERR
    );
    assert_code(return_value_result(&mut g, &Arg::Void).unwrap(), &expected);
    assert_eq!(needs(&g), [true, true, false, false, false, false]);
    let mut g = state();
    assert_code(return_value(&mut g, &RetVal::Result(Arg::Void)).unwrap(), &expected);
}

#[test]
fn a_scope_for_the_result_serves_the_exception_too() {
    let mut g = state();
    let ctx = with_opctx(&mut state()).to_string();
    let expected = format!(
        "match result {{ Ok(result) => {{ \
         rv.set(v8::BigInt::new_from_u64(&mut handles, result as _).into()); }} \
         Err(err) => {{ {} {} }} }};",
        ctx, THROW_ERR
    );
    let code = return_value_result(&mut g, &Arg::Numeric(NumericArg::U64)).unwrap();
    assert_code(code, &expected);
    assert_eq!(needs(&g), [true, true, true, false, false, false]);
}

#[test]
fn results_as_v8_values() {
    let g = state();
    let value = |arg: Arg| return_value_v8_value(&g, &arg).unwrap();
    assert_code(value(Arg::Void), "Ok(::core::v8::null(handles).into())");
    assert_code(
        value(Arg::Numeric(NumericArg::Bool)),
        "Ok(::core::v8::Boolean::new(handles, result).into())",
    );
    for numeric in [NumericArg::I8, NumericArg::I16, NumericArg::I32, NumericArg::Smi] {
        assert_code(
            value(Arg::Numeric(numeric)),
            "Ok(::core::v8::Integer::new(handles, result as i32).into())",
        );
    }
    for numeric in [NumericArg::U8, NumericArg::U16, NumericArg::U32] {
        assert_code(
            value(Arg::Numeric(numeric)),
            "Ok(::core::v8::Integer::new_from_unsigned(handles, result).into())",
        );
    }
    for buffer in returned_buffers() {
        assert_code(
            value(Arg::Buffer(buffer)),
            "Ok(::core::_ops::ToV8Value::to_v8_value(result, handles))",
        );
    }
    assert_code(
        value(Arg::External(External::Ptr(RefType::Ref))),
        "Ok(::core::v8::External::new(handles, result as _).into())",
    );
}

#[test]
fn other_results_are_no_v8_values() {
    let kinds = vec![
        Arg::Numeric(NumericArg::U64),
        Arg::Numeric(NumericArg::F64),
        Arg::OptionNumeric(NumericArg::U8),
        Arg::String(Strings::String),
        Arg::Buffer(Buffer::Bytes(BufferMode::Copy)),
        Arg::V8Local(V8Arg::Value),
        Arg::SerdeV8("T".to_string()),
    ];
    for arg in kinds {
        let r = return_value_v8_value(&state(), &arg);
        assert_no_mapping(r, "a v8 return value", &arg);
    }
}

// Signatures.

#[test]
fn small_integers_have_no_typed_array() {
    assert_eq!(NumericArg::U8.v8_array_type(), Some(V8Arg::Uint8Array));
    assert_eq!(NumericArg::F32.v8_array_type(), Some(V8Arg::Float32Array));
    assert_eq!(NumericArg::Smi.v8_array_type(), None);
    assert_eq!(NumericArg::Bool.v8_array_type(), None);
}

#[test]
fn optional_types_have_a_type_inside() {
    let arg = Arg::OptionState(RefType::Mut, "T".to_string());
    assert!(arg.is_option());
    assert!(arg.is_virtual());
    assert_eq!(
        format!("{:?}", arg.some_type().unwrap()),
        format!("{:?}", Arg::State(RefType::Mut, "T".to_string()))
    );
    assert!(!Arg::Void.is_option());
    assert!(!Arg::Void.is_virtual());
    assert!(Arg::Void.some_type().is_none());
    assert_eq!(format!("{:?}", arg.clone()), format!("{:?}", arg));
}
