use vstd::prelude::*;
use vstd::string::*;

verus! {

/// A compile-time diagnostic produced while reading a query declaration.
///
/// The message is the text that the macro reports to the user.
pub struct MacroError {
    pub message: String,
}

impl MacroError {
    /// Builds an error carrying a copy of `message`.
    pub fn new(message: &str) -> (e: MacroError)
        ensures
            e.message@ == message@,
    {
        MacroError { message: String::from_str(message) }
    }

    /// Builds an error whose message is `a` followed by `b`.
    pub fn new2(a: &str, b: &str) -> (e: MacroError)
        ensures
            e.message@ == a@ + b@,
    {
        let mut m = String::from_str(a);
        m.append(b);
        MacroError { message: m }
    }

    /// Builds an error whose message is `a`, `b` and `c` in a row.
    pub fn new3(a: &str, b: &str, c: &str) -> (e: MacroError)
        ensures
            e.message@ == a@ + b@ + c@,
    {
        let mut m = String::from_str(a);
        m.append(b);
        m.append(c);
        MacroError { message: m }
    }
}

} // verus!
