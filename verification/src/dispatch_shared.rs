//! The conversion of V8 values, which all kinds of dispatch share.
use crate::signature::{Arg, RefType, V8Arg};
use crate::token::{no_tokens, Token, TokenSeq};
use crate::token_stream::{ident_text, tokens_of, Quote};
use crate::words::lemma_words;
use crate::V8MappingError;
use proc_macro2::{Ident, TokenStream};
use vstd::prelude::*;

verus! {

/// The argument is a V8 value that lives in the scope of the call.
pub open spec fn is_v8_local(arg: Arg) -> bool {
    match arg {
        Arg::V8Local(_)
        | Arg::OptionV8Local(_)
        | Arg::V8Ref(RefType::Ref, _)
        | Arg::OptionV8Ref(RefType::Ref, _) => true,
        _ => false,
    }
}

/// The argument is a V8 value that outlives the call.
pub open spec fn is_v8_global(arg: Arg) -> bool {
    match arg {
        Arg::V8Global(_) | Arg::OptionV8Global(_) => true,
        _ => false,
    }
}

/// The final form of the local value `i`: `#i` itself, `&#i` where a reference is asked for, and
/// `match &#i { None => None, Some(v) => Some(::std::ops::Deref::deref(v)) }` where an optional
/// one is.
pub open spec fn v8_local_value_tokens(i: Seq<char>, arg: Arg) -> Seq<Token> {
    match arg {
        Arg::V8Ref(_, _) => no_tokens().op('&').name(i),
        Arg::OptionV8Ref(_, _) => no_tokens().word("match").op('&').name(i).braces(
            no_tokens().word("None").op2('=', '>').word("None").op(',').word("Some").parens(
                no_tokens().word("v"),
            ).op2('=', '>').word("Some").parens(
                no_tokens().seg("std").seg("ops").seg("Deref").seg("deref").parens(
                    no_tokens().word("v"),
                ),
            ),
        ),
        _ => no_tokens().name(i),
    }
}

/// `#deno_core::v8::Global::new(&mut #scope, #value)`
pub open spec fn v8_global_new_tokens(
    deno_core: Seq<Token>,
    scope: Seq<char>,
    value: Seq<char>,
) -> Seq<Token> {
    no_tokens().tokens(deno_core).seg("v8").seg("Global").seg("new").parens(
        no_tokens().mut_ref(scope).op(',').name(value),
    )
}

/// The final form of the value `i` as a global: the new global, and
/// `match &#i { None => None, Some(v) => Some(..) }` around it where an optional one is asked for.
pub open spec fn v8_global_value_tokens(
    deno_core: Seq<Token>,
    scope: Seq<char>,
    i: Seq<char>,
    arg: Arg,
) -> Seq<Token> {
    match arg {
        Arg::OptionV8Global(_) => no_tokens().word("match").op('&').name(i).braces(
            no_tokens().word("None").op2('=', '>').word("None").op(',').word("Some").parens(
                no_tokens().word("v"),
            ).op2('=', '>').word("Some").parens(v8_global_new_tokens(deno_core, scope, "v"@)),
        ),
        _ => v8_global_new_tokens(deno_core, scope, i),
    }
}

/// `let Ok(mut #arg_ident) =
///     #deno_core::_ops::v8_try_convert::<#deno_core::v8::#v8>(#arg_ident) else {
///     #throw_type_error
/// };
/// #extract_intermediate`
///
/// For an optional argument the conversion is `v8_try_convert_option`.
pub open spec fn v8_to_arg_tokens(
    v8: V8Arg,
    arg_ident: Seq<char>,
    arg: Arg,
    deno_core: Seq<Token>,
    throw_type_error: Seq<Token>,
    extract_intermediate: Seq<Token>,
) -> Seq<Token> {
    let try_convert = if arg.spec_is_option() {
        "v8_try_convert_option"
    } else {
        "v8_try_convert"
    };
    no_tokens().word("let").word("Ok").parens(no_tokens().word("mut").name(arg_ident)).op(
        '=',
    ).tokens(deno_core).seg("_ops").seg(try_convert).op2(':', ':').op('<').tokens(deno_core).seg(
        "v8",
    ).op2(':', ':').name(v8.spec_name()).op('>').parens(no_tokens().name(arg_ident)).word(
        "else",
    ).braces(throw_type_error).op(';').tokens(extract_intermediate)
}

/// Given the name of a local V8 value, converts this value to its final argument form.
pub fn v8_intermediate_to_arg(i: &Ident, arg: &Arg) -> (stream: TokenStream)
    requires
        is_v8_local(*arg),
    ensures
        tokens_of(stream) == no_tokens().bind(ident_text(*i)).tokens(
            v8_local_value_tokens(ident_text(*i), *arg),
        ).op(';'),
{
    proof {
        lemma_words();
    }
    let value = match arg {
        Arg::V8Ref(_, _) => Quote::new().op('&').name(i),
        Arg::OptionV8Ref(_, _) => Quote::new().word("match").op('&').name(i).braces(
            Quote::new().word("None").op2('=', '>').word("None").op(',').word("Some").parens(
                Quote::new().word("v"),
            ).op2('=', '>').word("Some").parens(
                Quote::new().seg("std").seg("ops").seg("Deref").seg("deref").parens(
                    Quote::new().word("v"),
                ),
            ),
        ),
        _ => Quote::new().name(i),
    };
    Quote::new().bind(i).tokens(&value.done()).op(';').done()
}

/// Given the name of a local V8 value, converts this value to a global.
pub fn v8_intermediate_to_global_arg(
    deno_core: &TokenStream,
    scope: &Ident,
    i: &Ident,
    arg: &Arg,
) -> (stream: TokenStream)
    requires
        is_v8_global(*arg),
    ensures
        tokens_of(stream) == no_tokens().bind(ident_text(*i)).tokens(
            v8_global_value_tokens(
                tokens_of(*deno_core),
                ident_text(*scope),
                ident_text(*i),
                *arg,
            ),
        ).op(';'),
{
    proof {
        lemma_words();
    }
    let args = Quote::new().mut_ref(scope).op(',');
    let new_global = Quote::new().tokens(deno_core).seg("v8").seg("Global").seg("new");
    let value = match arg {
        Arg::OptionV8Global(_) => Quote::new().word("match").op('&').name(i).braces(
            Quote::new().word("None").op2('=', '>').word("None").op(',').word("Some").parens(
                Quote::new().word("v"),
            ).op2('=', '>').word("Some").parens(new_global.parens(args.word("v"))),
        ),
        _ => new_global.parens(args.name(i)),
    };
    Quote::new().bind(i).tokens(&value.done()).op(';').done()
}

/// Generates the conversion of a V8 value to the class that the argument asks for, running
/// `throw_type_error` where the value is of another class.
pub fn v8_to_arg(
    v8: &V8Arg,
    arg_ident: &Ident,
    arg: &Arg,
    deno_core: &TokenStream,
    throw_type_error: TokenStream,
    extract_intermediate: TokenStream,
) -> (r: Result<TokenStream, V8MappingError>)
    ensures
        r is Ok,
        tokens_of(r->Ok_0) == v8_to_arg_tokens(
            *v8,
            ident_text(*arg_ident),
            *arg,
            tokens_of(*deno_core),
            tokens_of(throw_type_error),
            tokens_of(extract_intermediate),
        ),
{
    proof {
        lemma_words();
    }
    let try_convert = if arg.is_option() {
        "v8_try_convert_option"
    } else {
        "v8_try_convert"
    };
    Ok(
        Quote::new().word("let").word("Ok").parens(Quote::new().word("mut").name(arg_ident)).op(
            '=',
        ).tokens(deno_core).seg("_ops").seg(try_convert).op2(':', ':').op('<').tokens(
            deno_core,
        ).seg("v8").op2(':', ':').word(v8.name()).op('>').parens(
            Quote::new().name(arg_ident),
        ).word("else").braces(Quote::of(throw_type_error)).op(';').tokens(
            &extract_intermediate,
        ).done(),
    )
}

/// Exactly the shared references to V8 values and the values themselves live in the scope of the
/// call, and exactly the globals outlive it.
pub proof fn law_v8_values(arg: Arg)
    ensures
        is_v8_global(arg) <==> arg is V8Global || arg is OptionV8Global,
        is_v8_local(arg) <==> arg is V8Local || arg is OptionV8Local || (
        arg matches Arg::V8Ref(ref_type, _) && ref_type == RefType::Ref) || (
        arg matches Arg::OptionV8Ref(ref_type, _) && ref_type == RefType::Ref),
        !(is_v8_local(arg) && is_v8_global(arg)),
{
}

/// The cast to a class throws what it is given where the value is of another class, and goes on with
/// what it is given where it is not. The cast of an optional type, and no other, lets null and
/// undefined through.
pub proof fn law_cast(
    v8: V8Arg,
    a: Seq<char>,
    arg: Arg,
    deno_core: Seq<Token>,
    throw: Seq<Token>,
    extract: Seq<Token>,
)
    ensures
        v8_to_arg_tokens(v8, a, arg, deno_core, throw, extract) =~= no_tokens().word("let").word(
            "Ok",
        ).parens(no_tokens().word("mut").name(a)).op('=').tokens(deno_core).seg("_ops").seg(
            if arg is OptionNumeric || arg is OptionString || arg is OptionState
                || arg is OptionV8Local || arg is OptionV8Ref || arg is OptionV8Global {
                "v8_try_convert_option"
            } else {
                "v8_try_convert"
            },
        ).op2(':', ':').op('<').tokens(deno_core).seg("v8").op2(':', ':').name(
            v8.spec_name(),
        ).op('>').parens(no_tokens().name(a)).word("else").braces(throw).op(';') + extract,
{
}

} // verus!
