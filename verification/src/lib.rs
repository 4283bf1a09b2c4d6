//! Generation of the function through which V8 calls an op when no fast call is possible.
use crate::signature::Arg;
use crate::token::Token;
use crate::token_stream::tokens_of;
use proc_macro2::TokenStream;
use vstd::prelude::*;

pub mod config;
pub mod dispatch_shared;
pub mod dispatch_slow;
pub mod generator_state;
pub mod signature;
pub mod token;
pub mod token_stream;
pub mod words;

verus! {

/// Why no code can be generated.
#[derive(Debug)]
pub enum V8MappingError {
    /// The type cannot stand in this place.
    NoMapping(&'static str, Arg),
}

/// `r` is the code or the error that `expected` says.
pub open spec fn is_result(
    r: Result<TokenStream, V8MappingError>,
    expected: Result<Seq<Token>, V8MappingError>,
) -> bool {
    match (r, expected) {
        (Ok(stream), Ok(tokens)) => tokens_of(stream) == tokens,
        (Err(error), Err(expected_error)) => error == expected_error,
        _ => false,
    }
}

/// Code matches code of the same tokens, an error matches the same error, and neither matches the
/// other.
pub proof fn law_is_result(
    r: Result<TokenStream, V8MappingError>,
    expected: Result<Seq<Token>, V8MappingError>,
)
    ensures
        is_result(r, expected) ==> (r is Ok <==> expected is Ok),
        r is Ok && expected is Ok ==> (is_result(r, expected) <==> tokens_of(r->Ok_0)
            == expected->Ok_0),
        r is Err && expected is Err ==> (is_result(r, expected) <==> r->Err_0 == expected->Err_0),
{
}

} // verus!
