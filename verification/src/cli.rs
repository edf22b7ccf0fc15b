//! Command-line choices that do not depend on how arguments are parsed.

use vstd::prelude::*;

verus! {

/// The default log filter: "error" when quiet, "debug" when verbose,
/// "info" otherwise.
pub open spec fn spec_default_log_filter(quiet: bool, verbose: bool) -> Seq<char> {
    if quiet {
        "error"@
    } else if verbose {
        "debug"@
    } else {
        "info"@
    }
}

/// The default log filter for the `-q` and `-v` flags, which exclude each
/// other: both together cannot be asked for.
pub fn default_log_filter(quiet: bool, verbose: bool) -> (r: &'static str)
    requires
        !(quiet && verbose),
    ensures
        r@ == spec_default_log_filter(quiet, verbose),
{
    if quiet {
        "error"
    } else if verbose {
        "debug"
    } else {
        "info"
    }
}

} // verus!
