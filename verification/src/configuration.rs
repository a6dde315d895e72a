//! The slice of configuration the core consumes: which environment the
//! service runs in, and where the application listens.

use vstd::prelude::*;
use vstd::string::StringExecFns;

verus! {

broadcast use vstd::string::group_string_axioms;

/// Where the application listens.
pub struct ApplicationSettings {
    pub port: u16,
    pub host: String,
}

/// The runtime environment a configuration is loaded for.
#[derive(Clone, Copy, PartialEq, Eq, Debug, Structural)]
pub enum Environment {
    Local,
    Production,
}

impl Environment {
    /// The name under which the environment's configuration file is found.
    pub fn as_str(&self) -> (r: &'static str)
        ensures
            *self is Local ==> r@ == "local"@,
            *self is Production ==> r@ == "production"@,
    {
        match self {
            Environment::Local => "local",
            Environment::Production => "production",
        }
    }

    /// Parses an environment name; accepts exactly `local` and `production`.
    /// The rejection message names the rejected value.
    pub fn try_from(value: String) -> (r: Result<Environment, String>)
        ensures
            value@ == "local"@ ==> r == Ok::<Environment, String>(Environment::Local),
            value@ == "production"@ ==> r == Ok::<Environment, String>(Environment::Production),
            r is Err <==> !(value@ == "local"@ || value@ == "production"@),
            r is Err ==> r->Err_0@ == value@
                + " is not a known environment: use `local` or `production`"@,
    {
        proof {
            reveal_strlit("local");
            reveal_strlit("production");
            assert("local"@.len() == 5);
            assert("production"@.len() == 10);
        }
        if value == "local".to_owned() {
            Ok(Environment::Local)
        } else if value == "production".to_owned() {
            Ok(Environment::Production)
        } else {
            let mut message = value;
            message.append(" is not a known environment: use `local` or `production`");
            Err(message)
        }
    }
}

} // verus!
