//! What the server needs before it starts.
use vstd::prelude::*;

verus! {

/// Why the server cannot start.
#[derive(Debug, PartialEq, Eq, Structural)]
pub enum StartupError {
    /// The database connection string is not set.
    MissingDatabaseUri,
}

/// The environment variable that holds the database connection string.
pub fn uri_variable() -> (r: &'static str)
    ensures
        r@ == "MONGODB_URI"@,
{
    proof {
        reveal_strlit("MONGODB_URI");
    }
    "MONGODB_URI"
}

/// Decides from the variable's value, if it is set, whether the server can
/// start: it can only with a connection string, which is used as it is.
pub fn database_uri(value: Option<String>) -> (r: Result<String, StartupError>)
    ensures
        value is None <==> r is Err,
        value is None ==> r == Err::<String, StartupError>(StartupError::MissingDatabaseUri),
        value matches Some(v) ==> (r matches Ok(u) && u@ == v@),
{
    match value {
        Some(v) => Ok(v),
        None => Err(StartupError::MissingDatabaseUri),
    }
}

} // verus!
