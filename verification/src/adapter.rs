//! The function adapter: presents one native, strongly-typed function as a
//! host-callable entry with host-shaped inputs and outputs.

use vstd::prelude::*;
use vstd::string::StringExecFns;

use crate::value::CallError;
use crate::value::Value;

verus! {

/// The text the native greeting logic produces for a given name: a fixed
/// prefix, the name, and a fixed suffix.
pub open spec fn greeting(name: Seq<char>) -> Seq<char> {
    "Hello from Rust, "@ + name + "!"@
}

/// The message of the conversion error the greeting adapter raises when its
/// argument is not textual.
pub open spec fn conversion_message() -> Seq<char> {
    "greet: expected a text argument"@
}

/// What the greeting adapter returns for a boundary value `arg`: for a
/// textual argument, the greeting built from it; for any other tag, a
/// conversion error. The result is a function of the argument alone.
pub open spec fn greet_adapter_result(arg: Value, r: Result<Value, CallError>) -> bool {
    match arg {
        Value::Text(s) => (r matches Ok(Value::Text(out)) && out@ == greeting(s@)),
        Value::Number(_) => (r matches Err(CallError::Conversion(m)) && m@
            == conversion_message()),
        Value::Bool(_) => (r matches Err(CallError::Conversion(m)) && m@ == conversion_message()),
    }
}

/// The native greeting logic: concatenates the fixed prefix, the name, and
/// the fixed suffix. Total and pure: it succeeds on every input, including
/// the empty name.
pub fn greet(name: &str) -> (r: String)
    ensures
        r@ == greeting(name@),
{
    let mut out = String::from_str("Hello from Rust, ");
    out.append(name);
    out.append("!");
    out
}

/// The adapter around [`greet`]: accepts one positional boundary value,
/// converts it, runs the native logic, and converts the result back. A
/// non-textual argument yields a catchable conversion error, never a crash,
/// and the module's state is unaffected by the outcome.
pub fn greet_adapter(arg: &Value) -> (r: Result<Value, CallError>)
    ensures
        greet_adapter_result(*arg, r),
{
    match arg {
        Value::Text(s) => Ok(Value::Text(greet(s.as_str()))),
        _ => Err(CallError::Conversion(String::from_str("greet: expected a text argument"))),
    }
}

} // verus!
