use vstd::prelude::*;

use crate::text::str_eq;

verus! {

/// The program's subcommands.
#[derive(Clone, Debug)]
pub enum Commands {
    /// Filter a variant file, optionally printing each passing record
    /// through a template instead of writing records.
    Filter {
        /// Input path; "-" or "stdin" reads standard input.
        path: String,
        /// Filter expressions, tried in order.
        expression: Vec<String>,
        /// `name=expr` set-expressions for INFO tags.
        set_expression: Vec<String>,
        /// Template rendering each passing record as a line.
        template: Option<String>,
        /// Scripts run once, before any record, with the header bound.
        lua_prelude: Vec<String>,
        /// Output path; standard output when absent.
        output: Option<String>,
        /// Run guest scripts without filesystem or OS access.
        sandbox: bool,
    },
}

/// Whether an input path names standard input.
pub fn reads_stdin(path: &str) -> (r: bool)
    ensures
        r == (path@ == "-"@ || path@ == "stdin"@),
{
    str_eq(path, "-") || str_eq(path, "stdin")
}

} // verus!
