//! Reading config keys as the tool sees them at runtime.

use vstd::prelude::*;

verus! {

/// Options of `config get`.
#[derive(Debug)]
pub struct GetArgs {
    pub keys: Vec<String>,
}

/// The printed line of a key and its value: `key = value`.
pub fn key_value_line(key: &str, value: &str) -> (res: String)
    ensures
        res@ == key@ + " = "@ + value@,
{
    let mut out = String::from_str(key);
    out.append(" = ");
    out.append(value);
    out
}

} // verus!
