use vstd::prelude::*;

verus! {

/// Prefix of every line written to the error stream.
pub const ERROR_PREFIX: &'static str = "[ERROR] ";

/// The line that reports a failure described by `message`.
pub fn error_line(message: &str) -> (r: String)
    ensures
        r@ == ERROR_PREFIX@ + message@,
{
    let mut line = String::from_str(ERROR_PREFIX);
    line.append(message);
    line
}

} // verus!
