use deno_ops::config::MacroConfig;
use deno_ops::dispatch_slow::{generate_dispatch_slow, try_generate_dispatch_slow};
use deno_ops::generator_state::GeneratorState;
use deno_ops::signature::{
    Arg, Buffer, BufferMode, NumericArg, ParsedSignature, RefType, RetVal, Special, Strings, V8Arg,
};
use deno_ops::V8MappingError;
use proc_macro2::{Delimiter, Ident, Span, TokenStream, TokenTree};

fn ident(text: &str) -> Ident {
    Ident::new(text, Span::call_site())
}

fn state(args: usize) -> GeneratorState {
    GeneratorState {
        deno_core: "::deno_core".parse().unwrap(),
        args: (0..args).map(|i| ident(&format!("arg{}", i))).collect(),
        result: ident("result"),
        scope: ident("scope"),
        info: ident("info"),
        fn_args: ident("args"),
        opctx: ident("opctx"),
        opstate: ident("opstate"),
        retval: ident("rv"),
        slow_function: ident("v8_fn_ptr"),
        needs_args: args > 0,
        needs_retval: false,
        needs_scope: false,
        needs_isolate: false,
        needs_opstate: false,
        needs_opctx: false,
    }
}

fn flatten(stream: TokenStream, out: &mut Vec<String>) {
    for tree in stream {
        match tree {
            TokenTree::Group(group) => {
                let (open, close) = match group.delimiter() {
                    Delimiter::Parenthesis => ("(", ")"),
                    Delimiter::Brace => ("{", "}"),
                    Delimiter::Bracket => ("[", "]"),
                    Delimiter::None => ("<none", "none>"),
                };
                out.push(open.to_string());
                flatten(group.stream(), out);
                out.push(close.to_string());
            }
            other => out.push(other.to_string()),
        }
    }
}

fn texts(stream: TokenStream) -> Vec<String> {
    let mut out = Vec::new();
    flatten(stream, &mut out);
    out
}

fn assert_code(stream: TokenStream, expected: &str) {
    assert_eq!(texts(stream), texts(expected.parse().unwrap()));
}

fn signature(args: Vec<Arg>, ret_val: RetVal) -> ParsedSignature {
    ParsedSignature { args, ret_val }
}

fn generate(fast: bool, args: Vec<Arg>, ret_val: RetVal) -> (GeneratorState, TokenStream) {
    let mut g = state(args.len());
    let sig = signature(args, ret_val);
    let code = generate_dispatch_slow(&MacroConfig { fast }, &mut g, &sig).unwrap();
    (g, code)
}

fn function(body: &str) -> String {
    format!(
        "extern \"C\" fn v8_fn_ptr(info: *const ::deno_core::v8::FunctionCallbackInfo) {{ {} }}",
        body
    )
}

const SCOPE: &str =
    "let mut scope = unsafe { ::deno_core::v8::CallbackScope::new(&*info) };";
const RETVAL: &str = "let mut rv = \
     ::deno_core::v8::ReturnValue::from_function_callback_info(unsafe { &*info });";
const ARGS: &str = "let args = \
     ::deno_core::v8::FunctionCallbackArguments::from_function_callback_info(unsafe { &*info });";
const OPCTX: &str = "let opctx = unsafe { &*(::deno_core::v8::Local::<::deno_core::v8::External>\
     ::cast(args.data()).value() as *const ::deno_core::_ops::OpCtx) };";
const ISOLATE: &str = "let mut scope = unsafe { &mut *opctx.isolate };";
const OPSTATE: &str = "let opstate = &opctx.state;";
const THROW: &str = "let err = err.into(); \
     let exception = ::deno_core::error::to_v8_error(&mut scope, opctx.get_error_class_fn, &err,); \
     scope.throw_exception(exception); return;";

#[test]
fn an_op_without_arguments_and_result() {
    let (g, code) = generate(false, vec![], RetVal::Infallible(Arg::Void));
    assert_code(
        code,
        &function(&[RETVAL, "let result = { Self::call() }; rv.set_null();"].concat()),
    );
    assert!(g.needs_retval);
    assert!(!g.needs_args && !g.needs_scope && !g.needs_opctx);
}

#[test]
fn an_op_with_a_flag() {
    let (_, code) = generate(
        false,
        vec![Arg::Numeric(NumericArg::Bool)],
        RetVal::Infallible(Arg::Numeric(NumericArg::U32)),
    );
    let body = "let result = { let arg0 = args.get(0usize as i32); let arg0 = arg0.is_true(); \
         Self::call(arg0,) }; rv.set_uint32(result as u32);";
    assert_code(code, &function(&[RETVAL, ARGS, body].concat()));
}

#[test]
fn a_string_needs_the_isolate_and_its_context() {
    let (g, code) =
        generate(false, vec![Arg::String(Strings::String)], RetVal::Infallible(Arg::Void));
    let body = "let result = { let arg0 = args.get(0usize as i32); \
         let arg0 = ::deno_core::_ops::to_string(&mut scope, &arg0); Self::call(arg0,) }; \
         rv.set_null();";
    assert_code(code, &function(&[RETVAL, ARGS, OPCTX, ISOLATE, body].concat()));
    assert!(g.needs_opctx && g.needs_isolate && !g.needs_scope);
}

#[test]
fn a_scope_replaces_the_isolate() {
    let (g, code) = generate(
        false,
        vec![Arg::String(Strings::String), Arg::Ref(RefType::Mut, Special::HandleScope)],
        RetVal::Infallible(Arg::Void),
    );
    let body = "let result = { let arg0 = args.get(0usize as i32); \
         let arg0 = ::deno_core::_ops::to_string(&mut scope, &arg0); \
         let arg1 = &mut scope; Self::call(arg0, arg1,) }; rv.set_null();";
    assert_code(code, &function(&[SCOPE, RETVAL, ARGS, body].concat()));
    assert!(g.needs_isolate && g.needs_scope && !g.needs_opctx);
}

#[test]
fn the_op_state_is_read_from_the_context() {
    let mut g = state(1);
    g.needs_args = false;
    let sig = signature(vec![Arg::RcRefCell(Special::OpState)], RetVal::Infallible(Arg::Void));
    let code = generate_dispatch_slow(&MacroConfig { fast: false }, &mut g, &sig).unwrap();
    let body = "let result = { let arg0 = opstate.clone(); Self::call(arg0,) }; rv.set_null();";
    assert_code(code, &function(&[RETVAL, ARGS, OPCTX, OPSTATE, body].concat()));
    // The declarations are needed in turn.
    assert!(g.needs_opstate && g.needs_opctx && g.needs_args);
}

#[test]
fn objects_of_the_runtime_come_last_and_take_no_input() {
    let (_, code) = generate(
        false,
        vec![
            Arg::Ref(RefType::Ref, Special::OpState),
            Arg::Numeric(NumericArg::Bool),
            Arg::State(RefType::Ref, "Config".to_string()),
            Arg::Numeric(NumericArg::Bool),
        ],
        RetVal::Infallible(Arg::Void),
    );
    let body = "let result = { \
         let arg1 = args.get(0usize as i32); let arg1 = arg1.is_true(); \
         let arg3 = args.get(1usize as i32); let arg3 = arg3.is_true(); \
         let arg0 = &opstate.borrow(); \
         let arg2 = opstate.borrow(); let arg2 = arg2.borrow::<Config>(); \
         Self::call(arg0, arg1, arg2, arg3,) }; rv.set_null();";
    assert_code(code, &function(&[RETVAL, ARGS, OPCTX, OPSTATE, body].concat()));
}

#[test]
fn the_error_of_the_fast_call_is_thrown_first() {
    let (g, code) = generate(true, vec![], RetVal::Result(Arg::Void));
    let pick_up = [
        "if let Some(err) = unsafe { opctx.unsafely_take_last_error_for_ops_only() } {",
        SCOPE,
        ARGS,
        THROW,
        "}",
    ]
    .concat();
    let body = [
        "let result = { Self::call() }; match result { Ok(result) => { rv.set_null(); } \
         Err(err) => {",
        SCOPE,
        ARGS,
        THROW,
        "} };",
    ]
    .concat();
    assert_code(code, &function(&[RETVAL, ARGS, OPCTX, &pick_up, &body].concat()));
    assert!(g.needs_opctx && g.needs_args);
}

#[test]
fn only_fast_and_fallible_ops_pick_an_error_up() {
    let picks_up = |fast: bool, ret_val: RetVal| {
        let (_, code) = generate(fast, vec![], ret_val);
        texts(code).contains(&"unsafely_take_last_error_for_ops_only".to_string())
    };
    assert!(picks_up(true, RetVal::Result(Arg::Void)));
    assert!(!picks_up(false, RetVal::Result(Arg::Void)));
    assert!(!picks_up(true, RetVal::Infallible(Arg::Void)));
    assert!(!picks_up(false, RetVal::Infallible(Arg::Void)));
}

#[test]
fn a_slow_fallible_op_reads_the_context_where_it_throws() {
    let (g, code) = generate(false, vec![], RetVal::Result(Arg::Void));
    let body = [
        "let result = { Self::call() }; match result { Ok(result) => { rv.set_null(); } \
         Err(err) => {",
        SCOPE,
        OPCTX,
        THROW,
        "} };",
    ]
    .concat();
    assert_code(code, &function(&[RETVAL, ARGS, &body].concat()));
    assert!(!g.needs_opctx && g.needs_args);
}

fn error_of(g: &mut GeneratorState, sig: &ParsedSignature) -> (&'static str, String) {
    match generate_dispatch_slow(&MacroConfig { fast: true }, g, sig) {
        Ok(code) => panic!("unexpected code: {}", code),
        Err(V8MappingError::NoMapping(place, arg)) => (place, format!("{:?}", arg)),
    }
}

#[test]
fn the_first_argument_without_mapping_is_the_error() {
    let mut g = state(4);
    let sig = signature(
        vec![
            Arg::String(Strings::String),
            Arg::OptionString(Strings::RefStr),
            Arg::Buffer(Buffer::Vec(NumericArg::U16)),
            Arg::SerdeV8("T".to_string()),
        ],
        RetVal::Infallible(Arg::V8Global(V8Arg::Value)),
    );
    let (place, arg) = error_of(&mut g, &sig);
    assert_eq!(place, "a slow argument");
    assert_eq!(arg, format!("{:?}", Arg::OptionString(Strings::RefStr)));
    // What came before it counts as needed, what comes behind it does not.
    assert!(g.needs_isolate && !g.needs_scope && !g.needs_retval && !g.needs_opctx);
}

#[test]
fn a_buffer_without_mapping_is_the_error() {
    let mut g = state(1);
    let buffer = Arg::Buffer(Buffer::Bytes(BufferMode::Detach));
    let text = format!("{:?}", buffer);
    let (place, arg) = error_of(&mut g, &signature(vec![buffer], RetVal::Result(Arg::Void)));
    assert_eq!(place, "a buffer argument");
    assert_eq!(arg, text);
    // The context for the error of the fast call was asked for before.
    assert!(g.needs_scope && g.needs_opctx && !g.needs_retval);
}

#[test]
fn a_result_without_mapping_is_the_error() {
    let mut g = state(1);
    let sig = signature(
        vec![Arg::Numeric(NumericArg::Bool)],
        RetVal::Result(Arg::OptionV8Global(V8Arg::Value)),
    );
    let (place, arg) = error_of(&mut g, &sig);
    assert_eq!(place, "a slow return value");
    assert_eq!(arg, format!("{:?}", Arg::V8Global(V8Arg::Value)));
    assert!(g.needs_retval);
}

#[test]
fn names_are_not_asked_for_behind_an_error() {
    let mut g = state(1);
    let sig = signature(
        vec![Arg::Void, Arg::Numeric(NumericArg::Bool)],
        RetVal::Infallible(Arg::Void),
    );
    assert_eq!(error_of(&mut g, &sig).0, "a slow argument");
}

fn bits(g: &GeneratorState) -> [bool; 6] {
    [
        g.needs_args,
        g.needs_retval,
        g.needs_scope,
        g.needs_isolate,
        g.needs_opstate,
        g.needs_opctx,
    ]
}

#[test]
fn a_state_type_that_does_not_parse_is_refused() {
    let mut g = state(2);
    let before = bits(&g);
    let sig = signature(
        vec![Arg::String(Strings::String), Arg::State(RefType::Ref, "not a type".to_string())],
        RetVal::Infallible(Arg::Void),
    );
    assert!(try_generate_dispatch_slow(&MacroConfig { fast: false }, &mut g, &sig).is_none());
    assert_eq!(bits(&g), before);
}

#[test]
fn a_state_type_behind_an_error_is_not_looked_at() {
    let mut g = state(2);
    let sig = signature(
        vec![Arg::Void, Arg::OptionState(RefType::Mut, "not a type".to_string())],
        RetVal::Infallible(Arg::Void),
    );
    let r = try_generate_dispatch_slow(&MacroConfig { fast: false }, &mut g, &sig);
    assert!(matches!(r, Some(Err(V8MappingError::NoMapping("a slow argument", Arg::Void)))));
}

#[test]
fn a_state_type_that_parses_is_accepted() {
    let sig = signature(
        vec![Arg::OptionState(RefType::Mut, "Rc<dyn Any + 'static>".to_string())],
        RetVal::Infallible(Arg::Void),
    );
    let config = MacroConfig { fast: false };
    let mut g = state(1);
    let tried = try_generate_dispatch_slow(&config, &mut g, &sig).unwrap().unwrap();
    let mut h = state(1);
    let code = generate_dispatch_slow(&config, &mut h, &sig).unwrap();
    assert!(texts(code.clone()).contains(&"Any".to_string()));
    assert_eq!(texts(tried), texts(code));
    assert_eq!(bits(&g), bits(&h));
}

/// Each of the names is declared by `let` before it is used, in the same brackets or around them.
fn is_well_scoped(stream: TokenStream, names: &[&str], declared: &[String]) -> bool {
    let mut declared = declared.to_vec();
    let mut at_binding = false;
    for tree in stream {
        match tree {
            TokenTree::Group(group) => {
                if !is_well_scoped(group.stream(), names, &declared) {
                    return false;
                }
                at_binding = false;
            }
            TokenTree::Ident(word) => {
                let text = word.to_string();
                if names.contains(&text.as_str()) {
                    if at_binding {
                        declared.push(text);
                    } else if !declared.contains(&text) {
                        return false;
                    }
                    at_binding = false;
                } else {
                    at_binding = text == "let" || (at_binding && text == "mut");
                }
            }
            _ => at_binding = false,
        }
    }
    true
}

fn every_argument() -> Vec<Arg> {
    vec![
        Arg::Numeric(NumericArg::U8),
        Arg::OptionNumeric(NumericArg::I64),
        Arg::String(Strings::String),
        Arg::String(Strings::RefStr),
        Arg::String(Strings::CowStr),
        Arg::String(Strings::CowByte),
        Arg::OptionString(Strings::String),
        Arg::Buffer(Buffer::Slice(RefType::Ref, NumericArg::U8)),
        Arg::Buffer(Buffer::JsBuffer(BufferMode::Detach)),
        Arg::Ref(RefType::Mut, Special::HandleScope),
        Arg::Ref(RefType::Mut, Special::OpState),
        Arg::RcRefCell(Special::OpState),
        Arg::State(RefType::Mut, "Vec<u8>".to_string()),
        Arg::OptionState(RefType::Ref, "Vec<u8>".to_string()),
        Arg::V8Local(V8Arg::Value),
        Arg::OptionV8Ref(RefType::Ref, V8Arg::Object),
        Arg::V8Global(V8Arg::Function),
        Arg::OptionV8Global(V8Arg::Function),
        Arg::SerdeV8("T".to_string()),
    ]
}

fn every_result() -> Vec<Arg> {
    vec![
        Arg::Void,
        Arg::Numeric(NumericArg::I64),
        Arg::Numeric(NumericArg::F64),
        Arg::OptionNumeric(NumericArg::Usize),
        Arg::String(Strings::CowByte),
        Arg::V8Local(V8Arg::Value),
        Arg::SerdeV8("T".to_string()),
        Arg::Buffer(Buffer::BytesMut(BufferMode::Default)),
    ]
}

#[test]
fn names_are_declared_before_they_are_used() {
    let names = ["scope", "rv", "args", "opctx", "opstate"];
    for fast in [false, true] {
        for ret_type in every_result() {
            for arg in every_argument() {
                for ret_val in
                    [RetVal::Infallible(ret_type.clone()), RetVal::Result(ret_type.clone())]
                {
                    let (_, code) = generate(fast, vec![arg.clone()], ret_val);
                    assert!(is_well_scoped(code, &names, &[]), "{:?} {:?}", arg, ret_type);
                }
            }
        }
    }
    let all = every_argument();
    let (_, code) = generate(true, all, RetVal::Result(Arg::Void));
    assert!(is_well_scoped(code, &names, &[]));
}

#[test]
fn an_input_without_the_need_for_arguments_is_not_well_scoped() {
    let mut g = state(1);
    g.needs_args = false;
    let sig = signature(vec![Arg::Numeric(NumericArg::Bool)], RetVal::Infallible(Arg::Void));
    let code = generate_dispatch_slow(&MacroConfig { fast: false }, &mut g, &sig).unwrap();
    assert!(!is_well_scoped(code, &["args"], &[]));
}

#[test]
fn needs_are_never_taken_back() {
    for i in 0..6 {
        let mut g = state(1);
        g.needs_args = i == 0;
        g.needs_retval = i == 1;
        g.needs_scope = i == 2;
        g.needs_isolate = i == 3;
        g.needs_opstate = i == 4;
        g.needs_opctx = i == 5;
        let sig =
            signature(vec![Arg::Numeric(NumericArg::Bool)], RetVal::Infallible(Arg::Void));
        let _ = generate_dispatch_slow(&MacroConfig { fast: false }, &mut g, &sig);
        assert!(bits(&g)[i]);
    }
}

#[test]
fn the_names_of_the_state_stay() {
    let (g, _) = generate(true, every_argument(), RetVal::Result(Arg::Void));
    assert_eq!(g.deno_core.to_string(), state(0).deno_core.to_string());
    assert_eq!(g.args.len(), every_argument().len());
    assert_eq!(g.args[3].to_string(), "arg3");
    assert_eq!(g.scope.to_string(), "scope");
    assert_eq!(g.slow_function.to_string(), "v8_fn_ptr");
}

#[test]
fn the_function_is_an_item_of_rust() {
    for ret_type in every_result() {
        let (_, code) = generate(true, every_argument(), RetVal::Result(ret_type));
        assert!(syn::parse2::<syn::ItemFn>(code).is_ok());
    }
}
