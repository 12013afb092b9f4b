//! Generic decoding of an operation's flat argument list, driven by one
//! descriptor per argument.
use vstd::prelude::*;
use crate::error::{ApiError, ApiErrorKind};
use crate::host::ProtocolConfig;
use crate::memory::{read_scalar, read_utf8, scalar_at, text_at};

verus! {

/// How one argument travels across the boundary.
#[derive(Clone, Copy, Debug, PartialEq, Eq, Structural)]
pub enum ArgKind {
    /// A value passed as is.
    Scalar(u64),
    /// A UTF-8 string passed as a pointer and a length.
    Text(u32, u32),
    /// A protocol struct passed as a pointer.
    Protocol(u32),
}

/// One argument descriptor: its name, for diagnostics, and how it travels.
#[derive(Clone, Copy, Debug)]
pub struct ArgSpec {
    pub name: &'static str,
    pub kind: ArgKind,
}

/// A decoded argument.
#[derive(Debug)]
pub enum ArgValue {
    Scalar(u64),
    Text(String),
    Protocol(ProtocolConfig),
}

/// A decoded argument over mathematical text.
pub enum ArgValueView {
    Scalar(u64),
    Text(Seq<char>),
    Protocol(ProtocolConfig),
}

impl View for ArgValue {
    type V = ArgValueView;

    open spec fn view(&self) -> ArgValueView {
        match self {
            ArgValue::Scalar(v) => ArgValueView::Scalar(*v),
            ArgValue::Text(s) => ArgValueView::Text(s@),
            ArgValue::Protocol(p) => ArgValueView::Protocol(*p),
        }
    }
}

/// The value an argument decodes to in `mem`, if it decodes.
pub open spec fn decoded(mem: Seq<u8>, kind: ArgKind) -> Option<ArgValueView> {
    match kind {
        ArgKind::Scalar(v) => Some(ArgValueView::Scalar(v)),
        ArgKind::Text(ptr, len) => match text_at(mem, ptr, len) {
            Some(t) => Some(ArgValueView::Text(t)),
            None => None,
        },
        ArgKind::Protocol(ptr) => match scalar_at::<ProtocolConfig>(mem, ptr) {
            Some(p) => Some(ArgValueView::Protocol(p)),
            None => None,
        },
    }
}

/// Whether every argument of `args` decodes in `mem`.
pub open spec fn all_decode(mem: Seq<u8>, args: Seq<ArgSpec>) -> bool {
    forall|i: int| 0 <= i < args.len() ==> (#[trigger] decoded(mem, args[i].kind)) is Some
}

/// The text of a decoded string argument.
pub fn text_value(v: &ArgValue) -> (r: &str)
    requires
        v@ is Text,
    ensures
        r@ == v@->Text_0,
{
    match v {
        ArgValue::Text(s) => s.as_str(),
        ArgValue::Scalar(_) => "",
        ArgValue::Protocol(_) => "",
    }
}

/// The value of a scalar argument.
pub fn scalar_value(v: &ArgValue) -> (r: u64)
    requires
        v@ is Scalar,
    ensures
        r == v@->Scalar_0,
{
    match v {
        ArgValue::Scalar(x) => *x,
        ArgValue::Text(_) => 0,
        ArgValue::Protocol(_) => 0,
    }
}

/// The struct of a decoded protocol argument.
pub fn protocol_value(v: &ArgValue) -> (r: ProtocolConfig)
    requires
        v@ is Protocol,
    ensures
        r == v@->Protocol_0,
{
    match v {
        ArgValue::Protocol(p) => *p,
        ArgValue::Scalar(_) => ProtocolConfig {  },
        ArgValue::Text(_) => ProtocolConfig {  },
    }
}

/// Decodes one argument.
pub fn decode_arg(mem: &[u8], arg: &ArgSpec) -> (r: Result<ArgValue, ApiError>)
    ensures
        match decoded(mem@, arg.kind) {
            Some(v) => r is Ok && r->Ok_0@ == v,
            None => r is Err && r->Err_0.kind == ApiErrorKind::InvalidArguments,
        },
{
    match arg.kind {
        ArgKind::Scalar(v) => Ok(ArgValue::Scalar(v)),
        ArgKind::Text(ptr, len) => match read_utf8(mem, ptr, len) {
            Ok(s) => Ok(ArgValue::Text(s)),
            Err(e) => Err(e.context(arg.name)),
        },
        ArgKind::Protocol(ptr) => match read_scalar::<ProtocolConfig>(mem, ptr) {
            Ok(p) => Ok(ArgValue::Protocol(p)),
            Err(e) => Err(e.context(arg.name)),
        },
    }
}

/// Decodes every argument in order, stopping at the first that does not
/// decode: strings through `read_utf8`, structs through `read_scalar`, and
/// scalars passed through unchanged.
pub fn decode_args(mem: &[u8], args: &[ArgSpec]) -> (r: Result<Vec<ArgValue>, ApiError>)
    ensures
        r is Ok <==> all_decode(mem@, args@),
        r is Ok ==> r->Ok_0@.len() == args@.len() && forall|i: int|
            0 <= i < args@.len() ==> Some(#[trigger] r->Ok_0@[i]@) == decoded(mem@, args@[i].kind),
        r is Err ==> r->Err_0.kind == ApiErrorKind::InvalidArguments,
{
    let mut out: Vec<ArgValue> = Vec::new();
    let mut i: usize = 0;
    while i < args.len()
        invariant
            i <= args@.len(),
            out@.len() == i,
            forall|j: int| 0 <= j < i ==> Some(#[trigger] out@[j]@) == decoded(mem@, args@[j].kind),
        decreases args@.len() - i,
    {
        match decode_arg(mem, &args[i]) {
            Ok(v) => out.push(v),
            Err(e) => {
                assert(decoded(mem@, args@[i as int].kind) is None);
                return Err(e);
            },
        }
        i = i + 1;
    }
    assert forall|j: int| 0 <= j < args@.len() implies (#[trigger] decoded(mem@, args@[j].kind)) is Some by {
        assert(Some(out@[j]@) == decoded(mem@, args@[j].kind));
    }
    Ok(out)
}

} // verus!
