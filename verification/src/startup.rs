//! The startup decision: a listener address or a fatal diagnostic.

use vstd::prelude::*;
use vstd::string::StringExecFns;

verus! {

/// The diagnostic reported when the listener-address variable is unset.
/// It names the missing variable.
pub open spec fn missing_var_diagnostic(name: Seq<char>) -> Seq<char> {
    "Missed '"@ + name + "' environment variable"@
}

/// Decide startup from the value of the listener-address environment
/// variable `name`: with a value the process binds to it, without one
/// it must abort, reporting the diagnostic that names the variable.
pub fn startup_address(name: &str, value: Option<String>) -> (r: Result<String, String>)
    ensures
        match r {
            Ok(addr) => value matches Some(v) && addr@ == v@,
            Err(d) => value is None && d@ == missing_var_diagnostic(name@),
        },
{
    match value {
        Some(v) => Ok(v),
        None => {
            let mut d = String::from_str("Missed '");
            d.append(name);
            d.append("' environment variable");
            Err(d)
        },
    }
}

/// The directive the bootstrap writes into `RUST_LOG` before the logger
/// starts, whatever the variable held before.
pub fn log_directive() -> (s: &'static str)
    ensures
        s@ == "debug, actix_web=debug"@,
{
    "debug, actix_web=debug"
}

/// The name of the configuration file loaded at startup; its absence
/// is fatal.
pub fn env_file_name() -> (s: &'static str)
    ensures
        s@ == ".env"@,
{
    ".env"
}

} // verus!
