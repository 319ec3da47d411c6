//! Text transforms that templates call by name.

use vstd::prelude::*;
use vstd::string::StringExecFns;
use crate::errors::RenderingError;

verus! {

/// Whether `c` is one of the ten ASCII decimal digits.
pub open spec fn is_decimal_digit(c: char) -> bool {
    '0' <= c && c <= '9'
}

/// The identifier with an underscore in front when it starts with a decimal
/// digit, and the identifier itself otherwise.
pub open spec fn terraformized(identifier: Seq<char>) -> Seq<char> {
    if identifier.len() > 0 && is_decimal_digit(identifier[0]) {
        seq!['_'] + identifier
    } else {
        identifier
    }
}

/// Makes an identifier acceptable to infrastructure declarations, which must
/// not start with a digit. Total: the empty identifier comes back empty.
pub fn terraformize(identifier: &str) -> (out: String)
    ensures
        out@ == terraformized(identifier@),
{
    if identifier.unicode_len() > 0 {
        let first = identifier.get_char(0);
        if '0' <= first && first <= '9' {
            proof {
                reveal_strlit("_");
                assert("_"@ =~= seq!['_']);
            }
            return String::from_str("_").concat(identifier);
        }
    }
    String::from_str(identifier)
}

/// The `Some` or `None` of an optional text, by view.
pub open spec fn optional_text(text: Option<String>) -> Option<Seq<char>> {
    match text {
        Some(t) => Some(t@),
        None => None,
    }
}

/// Why the `terraformize` helper fails where it is called without a
/// parameter.
pub const MISSING_IDENTIFIER: &'static str = "terraformize needs an identifier as its parameter";

/// What the `terraformize` helper owes for its first parameter, given as the
/// characters that the parameter holds: the terraformized identifier, and an
/// error where the helper was called without a parameter.
pub open spec fn terraform_name(param: Option<Seq<char>>) -> Result<Seq<char>, Seq<char>> {
    match param {
        Some(identifier) => Ok(terraformized(identifier)),
        None => Err(MISSING_IDENTIFIER@),
    }
}

/// The body of the `terraformize` helper: takes the characters of the
/// helper's first parameter and gives the text to write out. A call without a
/// parameter is malformed and fails.
pub fn terraform_name_of_param(param: Option<String>) -> (out: Result<String, RenderingError>)
    ensures
        match out {
            Ok(name) => terraform_name(optional_text(param)) matches Ok(n) && n == name@,
            Err(error) => terraform_name(optional_text(param)) matches Err(m) && m
                == error.reason@,
        },
{
    match param {
        Some(identifier) => Ok(terraformize(identifier.as_str())),
        None => Err(RenderingError { reason: String::from_str(MISSING_IDENTIFIER) }),
    }
}

} // verus!
