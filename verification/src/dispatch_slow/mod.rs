//! The function through which V8 calls an op when no fast call is possible, and its parts.
pub mod arg_laws;
pub mod args;
pub mod function_laws;
pub mod generate;
pub mod laws;
pub mod prologue;
pub mod result_laws;
pub mod results;
pub mod scoping;
pub mod throw;
pub mod throw_laws;

pub use args::{extract_arg, from_arg, from_arg_buffer, from_arg_option};
pub use generate::{call, generate_dispatch_slow, try_generate_dispatch_slow};
pub use prologue::{with_fn_args, with_isolate, with_opctx, with_opstate, with_retval, with_scope};
pub use results::{
    return_value, return_value_infallible, return_value_result, return_value_v8_value,
};
pub use throw::{
    throw_exception, throw_type_error, throw_type_error_static_string, throw_type_error_string,
};
