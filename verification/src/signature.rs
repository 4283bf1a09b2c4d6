//! The signature of an op, as far as dispatching it needs to know it.
use crate::token::is_word;
use vstd::prelude::*;

verus! {

/// The kinds of numbers that ops take and return.
#[derive(Clone, Copy, PartialEq, Eq, Structural, Debug)]
pub enum NumericArg {
    Bool,
    I8,
    U8,
    I16,
    U16,
    I32,
    U32,
    I64,
    U64,
    F32,
    F64,
    Isize,
    Usize,
    /// An integer of any type that is passed as a small integer.
    Smi,
}

/// The classes of V8 values.
#[derive(Clone, Copy, PartialEq, Eq, Structural, Debug)]
pub enum V8Arg {
    External,
    Object,
    Array,
    ArrayBuffer,
    ArrayBufferView,
    DataView,
    TypedArray,
    BigInt64Array,
    BigUint64Array,
    Float32Array,
    Float64Array,
    Int16Array,
    Int32Array,
    Int8Array,
    Uint16Array,
    Uint32Array,
    Uint8Array,
    Uint8ClampedArray,
    BigIntObject,
    BooleanObject,
    Date,
    Function,
    /// The class `Map`.
    JsMap,
    NumberObject,
    Promise,
    PromiseResolver,
    Proxy,
    RegExp,
    /// The class `Set`.
    JsSet,
    SharedArrayBuffer,
    StringObject,
    SymbolObject,
    WasmMemoryObject,
    WasmModuleObject,
    Primitive,
    BigInt,
    Boolean,
    Name,
    String,
    Symbol,
    Number,
    Integer,
    Int32,
    Uint32,
    Value,
}

/// The two kinds of references.
#[derive(Clone, Copy, PartialEq, Eq, Structural, Debug)]
pub enum RefType {
    Ref,
    Mut,
}

/// The objects of the runtime that an op can ask for.
#[derive(Clone, Copy, PartialEq, Eq, Structural, Debug)]
pub enum Special {
    HandleScope,
    OpState,
}

/// The string types.
#[derive(Clone, Copy, PartialEq, Eq, Structural, Debug)]
pub enum Strings {
    String,
    RefStr,
    CowStr,
    CowByte,
}

/// What becomes of the memory of a buffer.
#[derive(Clone, Copy, PartialEq, Eq, Structural, Debug)]
pub enum BufferMode {
    Default,
    Copy,
    Detach,
}

/// The buffer types.
#[derive(Clone, Copy, PartialEq, Eq, Structural, Debug)]
pub enum Buffer {
    Slice(RefType, NumericArg),
    Vec(NumericArg),
    BoxSlice(NumericArg),
    Bytes(BufferMode),
    BytesMut(BufferMode),
    JsBuffer(BufferMode),
}

/// The types of foreign pointers.
#[derive(Clone, Copy, PartialEq, Eq, Structural, Debug)]
pub enum External {
    Ptr(RefType),
}

/// The types of arguments and results, in classes that are handled alike.
#[derive(Debug)]
pub enum Arg {
    Void,
    Numeric(NumericArg),
    OptionNumeric(NumericArg),
    String(Strings),
    OptionString(Strings),
    Buffer(Buffer),
    External(External),
    Ref(RefType, Special),
    RcRefCell(Special),
    /// A reference to the value of the given type in the op state.
    State(RefType, String),
    OptionState(RefType, String),
    V8Local(V8Arg),
    OptionV8Local(V8Arg),
    V8Ref(RefType, V8Arg),
    OptionV8Ref(RefType, V8Arg),
    V8Global(V8Arg),
    OptionV8Global(V8Arg),
    /// A value of the given type that is converted by serialization.
    SerdeV8(String),
}

/// The result of an op.
#[derive(Debug)]
pub enum RetVal {
    Infallible(Arg),
    Result(Arg),
    Future(Arg),
    FutureResult(Arg),
    ResultFuture(Arg),
    ResultFutureResult(Arg),
}

/// The arguments and the result of an op.
#[derive(Debug)]
pub struct ParsedSignature {
    pub args: Vec<Arg>,
    pub ret_val: RetVal,
}

impl NumericArg {
    /// The V8 typed array whose elements are such numbers.
    pub open spec fn spec_v8_array_type(self) -> Option<V8Arg> {
        match self {
            NumericArg::I8 => Some(V8Arg::Int8Array),
            NumericArg::U8 => Some(V8Arg::Uint8Array),
            NumericArg::I16 => Some(V8Arg::Int16Array),
            NumericArg::U16 => Some(V8Arg::Uint16Array),
            NumericArg::I32 => Some(V8Arg::Int32Array),
            NumericArg::U32 => Some(V8Arg::Uint32Array),
            NumericArg::I64 => Some(V8Arg::BigInt64Array),
            NumericArg::U64 => Some(V8Arg::BigUint64Array),
            NumericArg::F32 => Some(V8Arg::Float32Array),
            NumericArg::F64 => Some(V8Arg::Float64Array),
            _ => None,
        }
    }

    pub fn v8_array_type(self) -> (v8: Option<V8Arg>)
        ensures
            v8 == self.spec_v8_array_type(),
    {
        match self {
            NumericArg::I8 => Some(V8Arg::Int8Array),
            NumericArg::U8 => Some(V8Arg::Uint8Array),
            NumericArg::I16 => Some(V8Arg::Int16Array),
            NumericArg::U16 => Some(V8Arg::Uint16Array),
            NumericArg::I32 => Some(V8Arg::Int32Array),
            NumericArg::U32 => Some(V8Arg::Uint32Array),
            NumericArg::I64 => Some(V8Arg::BigInt64Array),
            NumericArg::U64 => Some(V8Arg::BigUint64Array),
            NumericArg::F32 => Some(V8Arg::Float32Array),
            NumericArg::F64 => Some(V8Arg::Float64Array),
            _ => None,
        }
    }
}

impl V8Arg {
    /// The name of the class.
    pub open spec fn spec_name(self) -> Seq<char> {
        match self {
            V8Arg::External => "External"@,
            V8Arg::Object => "Object"@,
            V8Arg::Array => "Array"@,
            V8Arg::ArrayBuffer => "ArrayBuffer"@,
            V8Arg::ArrayBufferView => "ArrayBufferView"@,
            V8Arg::DataView => "DataView"@,
            V8Arg::TypedArray => "TypedArray"@,
            V8Arg::BigInt64Array => "BigInt64Array"@,
            V8Arg::BigUint64Array => "BigUint64Array"@,
            V8Arg::Float32Array => "Float32Array"@,
            V8Arg::Float64Array => "Float64Array"@,
            V8Arg::Int16Array => "Int16Array"@,
            V8Arg::Int32Array => "Int32Array"@,
            V8Arg::Int8Array => "Int8Array"@,
            V8Arg::Uint16Array => "Uint16Array"@,
            V8Arg::Uint32Array => "Uint32Array"@,
            V8Arg::Uint8Array => "Uint8Array"@,
            V8Arg::Uint8ClampedArray => "Uint8ClampedArray"@,
            V8Arg::BigIntObject => "BigIntObject"@,
            V8Arg::BooleanObject => "BooleanObject"@,
            V8Arg::Date => "Date"@,
            V8Arg::Function => "Function"@,
            V8Arg::JsMap => "Map"@,
            V8Arg::NumberObject => "NumberObject"@,
            V8Arg::Promise => "Promise"@,
            V8Arg::PromiseResolver => "PromiseResolver"@,
            V8Arg::Proxy => "Proxy"@,
            V8Arg::RegExp => "RegExp"@,
            V8Arg::JsSet => "Set"@,
            V8Arg::SharedArrayBuffer => "SharedArrayBuffer"@,
            V8Arg::StringObject => "StringObject"@,
            V8Arg::SymbolObject => "SymbolObject"@,
            V8Arg::WasmMemoryObject => "WasmMemoryObject"@,
            V8Arg::WasmModuleObject => "WasmModuleObject"@,
            V8Arg::Primitive => "Primitive"@,
            V8Arg::BigInt => "BigInt"@,
            V8Arg::Boolean => "Boolean"@,
            V8Arg::Name => "Name"@,
            V8Arg::String => "String"@,
            V8Arg::Symbol => "Symbol"@,
            V8Arg::Number => "Number"@,
            V8Arg::Integer => "Integer"@,
            V8Arg::Int32 => "Int32"@,
            V8Arg::Uint32 => "Uint32"@,
            V8Arg::Value => "Value"@,
        }
    }

    pub fn name(self) -> (name: &'static str)
        ensures
            name@ == self.spec_name(),
            is_word(name@),
            name@.len() <= 20,
    {
        proof {
            reveal_strlit("External");
            reveal_strlit("Object");
            reveal_strlit("Array");
            reveal_strlit("ArrayBuffer");
            reveal_strlit("ArrayBufferView");
            reveal_strlit("DataView");
            reveal_strlit("TypedArray");
            reveal_strlit("BigInt64Array");
            reveal_strlit("BigUint64Array");
            reveal_strlit("Float32Array");
            reveal_strlit("Float64Array");
            reveal_strlit("Int16Array");
            reveal_strlit("Int32Array");
            reveal_strlit("Int8Array");
            reveal_strlit("Uint16Array");
            reveal_strlit("Uint32Array");
            reveal_strlit("Uint8Array");
            reveal_strlit("Uint8ClampedArray");
            reveal_strlit("BigIntObject");
            reveal_strlit("BooleanObject");
            reveal_strlit("Date");
            reveal_strlit("Function");
            reveal_strlit("Map");
            reveal_strlit("NumberObject");
            reveal_strlit("Promise");
            reveal_strlit("PromiseResolver");
            reveal_strlit("Proxy");
            reveal_strlit("RegExp");
            reveal_strlit("Set");
            reveal_strlit("SharedArrayBuffer");
            reveal_strlit("StringObject");
            reveal_strlit("SymbolObject");
            reveal_strlit("WasmMemoryObject");
            reveal_strlit("WasmModuleObject");
            reveal_strlit("Primitive");
            reveal_strlit("BigInt");
            reveal_strlit("Boolean");
            reveal_strlit("Name");
            reveal_strlit("String");
            reveal_strlit("Symbol");
            reveal_strlit("Number");
            reveal_strlit("Integer");
            reveal_strlit("Int32");
            reveal_strlit("Uint32");
            reveal_strlit("Value");
        }
        match self {
            V8Arg::External => "External",
            V8Arg::Object => "Object",
            V8Arg::Array => "Array",
            V8Arg::ArrayBuffer => "ArrayBuffer",
            V8Arg::ArrayBufferView => "ArrayBufferView",
            V8Arg::DataView => "DataView",
            V8Arg::TypedArray => "TypedArray",
            V8Arg::BigInt64Array => "BigInt64Array",
            V8Arg::BigUint64Array => "BigUint64Array",
            V8Arg::Float32Array => "Float32Array",
            V8Arg::Float64Array => "Float64Array",
            V8Arg::Int16Array => "Int16Array",
            V8Arg::Int32Array => "Int32Array",
            V8Arg::Int8Array => "Int8Array",
            V8Arg::Uint16Array => "Uint16Array",
            V8Arg::Uint32Array => "Uint32Array",
            V8Arg::Uint8Array => "Uint8Array",
            V8Arg::Uint8ClampedArray => "Uint8ClampedArray",
            V8Arg::BigIntObject => "BigIntObject",
            V8Arg::BooleanObject => "BooleanObject",
            V8Arg::Date => "Date",
            V8Arg::Function => "Function",
            V8Arg::JsMap => "Map",
            V8Arg::NumberObject => "NumberObject",
            V8Arg::Promise => "Promise",
            V8Arg::PromiseResolver => "PromiseResolver",
            V8Arg::Proxy => "Proxy",
            V8Arg::RegExp => "RegExp",
            V8Arg::JsSet => "Set",
            V8Arg::SharedArrayBuffer => "SharedArrayBuffer",
            V8Arg::StringObject => "StringObject",
            V8Arg::SymbolObject => "SymbolObject",
            V8Arg::WasmMemoryObject => "WasmMemoryObject",
            V8Arg::WasmModuleObject => "WasmModuleObject",
            V8Arg::Primitive => "Primitive",
            V8Arg::BigInt => "BigInt",
            V8Arg::Boolean => "Boolean",
            V8Arg::Name => "Name",
            V8Arg::String => "String",
            V8Arg::Symbol => "Symbol",
            V8Arg::Number => "Number",
            V8Arg::Integer => "Integer",
            V8Arg::Int32 => "Int32",
            V8Arg::Uint32 => "Uint32",
            V8Arg::Value => "Value",
        }
    }
}

impl Clone for Arg {
    fn clone(&self) -> (copy: Arg)
        ensures
            copy == *self,
    {
        match self {
            Arg::Void => Arg::Void,
            Arg::Numeric(n) => Arg::Numeric(*n),
            Arg::OptionNumeric(n) => Arg::OptionNumeric(*n),
            Arg::String(s) => Arg::String(*s),
            Arg::OptionString(s) => Arg::OptionString(*s),
            Arg::Buffer(b) => Arg::Buffer(*b),
            Arg::External(e) => Arg::External(*e),
            Arg::Ref(r, s) => Arg::Ref(*r, *s),
            Arg::RcRefCell(s) => Arg::RcRefCell(*s),
            Arg::State(r, t) => Arg::State(*r, t.clone()),
            Arg::OptionState(r, t) => Arg::OptionState(*r, t.clone()),
            Arg::V8Local(v) => Arg::V8Local(*v),
            Arg::OptionV8Local(v) => Arg::OptionV8Local(*v),
            Arg::V8Ref(r, v) => Arg::V8Ref(*r, *v),
            Arg::OptionV8Ref(r, v) => Arg::OptionV8Ref(*r, *v),
            Arg::V8Global(v) => Arg::V8Global(*v),
            Arg::OptionV8Global(v) => Arg::OptionV8Global(*v),
            Arg::SerdeV8(t) => Arg::SerdeV8(t.clone()),
        }
    }
}

impl Arg {
    /// The argument comes from the runtime, not from a value that the caller passes.
    pub open spec fn spec_is_virtual(self) -> bool {
        match self {
            Arg::Ref(_, _) | Arg::RcRefCell(_) | Arg::State(_, _) | Arg::OptionState(_, _) => true,
            _ => false,
        }
    }

    pub fn is_virtual(&self) -> (b: bool)
        ensures
            b <==> self is Ref || self is RcRefCell || self is State || self is OptionState,
            b == self.spec_is_virtual(),
    {
        match self {
            Arg::Ref(_, _) | Arg::RcRefCell(_) | Arg::State(_, _) | Arg::OptionState(_, _) => true,
            _ => false,
        }
    }

    /// The type under the `Option`, for an optional type.
    pub open spec fn spec_some_type(self) -> Option<Arg> {
        match self {
            Arg::OptionNumeric(n) => Some(Arg::Numeric(n)),
            Arg::OptionString(s) => Some(Arg::String(s)),
            Arg::OptionState(r, t) => Some(Arg::State(r, t)),
            Arg::OptionV8Local(v) => Some(Arg::V8Local(v)),
            Arg::OptionV8Ref(r, v) => Some(Arg::V8Ref(r, v)),
            Arg::OptionV8Global(v) => Some(Arg::V8Global(v)),
            _ => None,
        }
    }

    pub fn some_type(&self) -> (inner: Option<Arg>)
        ensures
            inner == self.spec_some_type(),
    {
        match self {
            Arg::OptionNumeric(n) => Some(Arg::Numeric(*n)),
            Arg::OptionString(s) => Some(Arg::String(*s)),
            Arg::OptionState(r, t) => Some(Arg::State(*r, t.clone())),
            Arg::OptionV8Local(v) => Some(Arg::V8Local(*v)),
            Arg::OptionV8Ref(r, v) => Some(Arg::V8Ref(*r, *v)),
            Arg::OptionV8Global(v) => Some(Arg::V8Global(*v)),
            _ => None,
        }
    }

    /// The type is optional.
    pub open spec fn spec_is_option(self) -> bool {
        self.spec_some_type() is Some
    }

    pub fn is_option(&self) -> (b: bool)
        ensures
            b == self.spec_is_option(),
    {
        match self {
            Arg::OptionNumeric(_)
            | Arg::OptionString(_)
            | Arg::OptionState(_, _)
            | Arg::OptionV8Local(_)
            | Arg::OptionV8Ref(_, _)
            | Arg::OptionV8Global(_) => true,
            _ => false,
        }
    }
}

/// Exactly the optional types have a type under the `Option`, and it is the plain type of the same
/// details.
pub proof fn law_optional_types(arg: Arg)
    ensures
        arg.spec_is_option() <==> arg.spec_some_type() is Some,
        arg.spec_is_option() <==> arg is OptionNumeric || arg is OptionString || arg is OptionState
            || arg is OptionV8Local || arg is OptionV8Ref || arg is OptionV8Global,
        arg matches Arg::OptionNumeric(numeric) ==> arg.spec_some_type() == Some(
            Arg::Numeric(numeric),
        ),
        arg matches Arg::OptionString(strings) ==> arg.spec_some_type() == Some(
            Arg::String(strings),
        ),
        arg matches Arg::OptionState(ref_type, state) ==> arg.spec_some_type() == Some(
            Arg::State(ref_type, state),
        ),
        arg matches Arg::OptionV8Local(v8) ==> arg.spec_some_type() == Some(Arg::V8Local(v8)),
        arg matches Arg::OptionV8Ref(ref_type, v8) ==> arg.spec_some_type() == Some(
            Arg::V8Ref(ref_type, v8),
        ),
        arg matches Arg::OptionV8Global(v8) ==> arg.spec_some_type() == Some(Arg::V8Global(v8)),
        arg.spec_is_option() ==> !arg.spec_some_type()->0.spec_is_option(),
        arg.spec_is_option() ==> arg.spec_some_type()->0.spec_is_virtual()
            == arg.spec_is_virtual(),
{
}

/// Exactly the numbers of a fixed width of bits have a typed array, and each has its own.
pub proof fn law_typed_arrays(numeric: NumericArg, other: NumericArg)
    ensures
        numeric.spec_v8_array_type() is None <==> numeric == NumericArg::Bool || numeric
            == NumericArg::Isize || numeric == NumericArg::Usize || numeric == NumericArg::Smi,
        numeric.spec_v8_array_type() is Some && numeric.spec_v8_array_type()
            == other.spec_v8_array_type() ==> numeric == other,
        NumericArg::I8.spec_v8_array_type() == Some(V8Arg::Int8Array),
        NumericArg::U8.spec_v8_array_type() == Some(V8Arg::Uint8Array),
        NumericArg::I16.spec_v8_array_type() == Some(V8Arg::Int16Array),
        NumericArg::U16.spec_v8_array_type() == Some(V8Arg::Uint16Array),
        NumericArg::I32.spec_v8_array_type() == Some(V8Arg::Int32Array),
        NumericArg::U32.spec_v8_array_type() == Some(V8Arg::Uint32Array),
        NumericArg::I64.spec_v8_array_type() == Some(V8Arg::BigInt64Array),
        NumericArg::U64.spec_v8_array_type() == Some(V8Arg::BigUint64Array),
        NumericArg::F32.spec_v8_array_type() == Some(V8Arg::Float32Array),
        NumericArg::F64.spec_v8_array_type() == Some(V8Arg::Float64Array),
{
}

/// A class goes by the name that it has in V8.
pub proof fn law_class_names(v8: V8Arg)
    ensures
        v8 is External ==> v8.spec_name() == "External"@,
        v8 is Object ==> v8.spec_name() == "Object"@,
        v8 is Array ==> v8.spec_name() == "Array"@,
        v8 is ArrayBuffer ==> v8.spec_name() == "ArrayBuffer"@,
        v8 is ArrayBufferView ==> v8.spec_name() == "ArrayBufferView"@,
        v8 is DataView ==> v8.spec_name() == "DataView"@,
        v8 is TypedArray ==> v8.spec_name() == "TypedArray"@,
        v8 is BigInt64Array ==> v8.spec_name() == "BigInt64Array"@,
        v8 is BigUint64Array ==> v8.spec_name() == "BigUint64Array"@,
        v8 is Float32Array ==> v8.spec_name() == "Float32Array"@,
        v8 is Float64Array ==> v8.spec_name() == "Float64Array"@,
        v8 is Int16Array ==> v8.spec_name() == "Int16Array"@,
        v8 is Int32Array ==> v8.spec_name() == "Int32Array"@,
        v8 is Int8Array ==> v8.spec_name() == "Int8Array"@,
        v8 is Uint16Array ==> v8.spec_name() == "Uint16Array"@,
        v8 is Uint32Array ==> v8.spec_name() == "Uint32Array"@,
        v8 is Uint8Array ==> v8.spec_name() == "Uint8Array"@,
        v8 is Uint8ClampedArray ==> v8.spec_name() == "Uint8ClampedArray"@,
        v8 is BigIntObject ==> v8.spec_name() == "BigIntObject"@,
        v8 is BooleanObject ==> v8.spec_name() == "BooleanObject"@,
        v8 is Date ==> v8.spec_name() == "Date"@,
        v8 is Function ==> v8.spec_name() == "Function"@,
        v8 is JsMap ==> v8.spec_name() == "Map"@,
        v8 is NumberObject ==> v8.spec_name() == "NumberObject"@,
        v8 is Promise ==> v8.spec_name() == "Promise"@,
        v8 is PromiseResolver ==> v8.spec_name() == "PromiseResolver"@,
        v8 is Proxy ==> v8.spec_name() == "Proxy"@,
        v8 is RegExp ==> v8.spec_name() == "RegExp"@,
        v8 is JsSet ==> v8.spec_name() == "Set"@,
        v8 is SharedArrayBuffer ==> v8.spec_name() == "SharedArrayBuffer"@,
        v8 is StringObject ==> v8.spec_name() == "StringObject"@,
        v8 is SymbolObject ==> v8.spec_name() == "SymbolObject"@,
        v8 is WasmMemoryObject ==> v8.spec_name() == "WasmMemoryObject"@,
        v8 is WasmModuleObject ==> v8.spec_name() == "WasmModuleObject"@,
        v8 is Primitive ==> v8.spec_name() == "Primitive"@,
        v8 is BigInt ==> v8.spec_name() == "BigInt"@,
        v8 is Boolean ==> v8.spec_name() == "Boolean"@,
        v8 is Name ==> v8.spec_name() == "Name"@,
        v8 is String ==> v8.spec_name() == "String"@,
        v8 is Symbol ==> v8.spec_name() == "Symbol"@,
        v8 is Number ==> v8.spec_name() == "Number"@,
        v8 is Integer ==> v8.spec_name() == "Integer"@,
        v8 is Int32 ==> v8.spec_name() == "Int32"@,
        v8 is Uint32 ==> v8.spec_name() == "Uint32"@,
        v8 is Value ==> v8.spec_name() == "Value"@,
{
}

} // verus!
