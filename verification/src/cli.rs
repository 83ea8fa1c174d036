//! Command line handling.
//!
//! The generator takes exactly one positional argument, the output directory.
//! Anything else — no argument, more than one, or a flag-like argument — is a
//! usage error; the caller then prints the usage message and exits non-zero.

use vstd::prelude::*;
use vstd::string::*;
use crate::errors::ErrorKind;

verus! {

/// An argument that looks like a flag rather than a path.
pub open spec fn is_flag(s: Seq<char>) -> bool {
    s.len() > 0 && s[0] == '-'
}

/// Extracts the output directory from the command line arguments (the
/// program name not among them): exactly one non-flag argument is accepted,
/// and everything else is a usage error.
pub fn parse_out_dir(args: &Vec<String>) -> (r: Result<String, ErrorKind>)
    ensures
        (match r {
            Ok(dir) => args@.len() == 1 && dir@ == args@[0]@ && !is_flag(args@[0]@),
            Err(kind) => kind == ErrorKind::Usage && (args@.len() != 1 || is_flag(args@[0]@)),
        }),
{
    if args.len() != 1 {
        return Err(ErrorKind::Usage);
    }
    let arg = &args[0];
    let n: usize = arg.as_str().unicode_len();
    if n > 0 && arg.as_str().get_char(0) == '-' {
        Err(ErrorKind::Usage)
    } else {
        Ok(arg.clone())
    }
}

/// The usage message printed on standard error when the arguments are bad.
pub fn usage_message() -> (r: String)
    ensures
        r@ == "Usage: katvan-homepage <output directory>"@,
{
    "Usage: katvan-homepage <output directory>".to_owned()
}

} // verus!
