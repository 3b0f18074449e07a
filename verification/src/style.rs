//! The style names of the terminal presentation layer.
//!
//! Each kind of message is rendered in a fixed style, named here in the
//! dotted-string form terminal-styling libraries parse. The engine itself
//! never renders anything; these names are the whole of what it fixes about
//! presentation.

use vstd::prelude::*;

verus! {

/// The style of warnings.
pub fn warning_dotted() -> (r: &'static str)
    ensures
        r@ == "yellow"@,
{
    "yellow"
}

/// The style of a phase that ended successfully.
pub fn success_dotted() -> (r: &'static str)
    ensures
        r@ == "green"@,
{
    "green"
}

/// The style of informational output: the terminal default.
pub fn info_dotted() -> (r: &'static str)
    ensures
        r@ == ""@,
{
    ""
}

/// The style of a failed unit of work.
pub fn increment_fail_dotted() -> (r: &'static str)
    ensures
        r@ == "red"@,
{
    "red"
}

/// The style of errors.
pub fn error_dotted() -> (r: &'static str)
    ensures
        r@ == "124"@,
{
    "124"
}

/// The style of a succeeded unit of work.
pub fn increment_success_dotted() -> (r: &'static str)
    ensures
        r@ == "7"@,
{
    "7"
}

} // verus!
