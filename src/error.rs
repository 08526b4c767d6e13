use vstd::prelude::*;
use vstd::string::{to_string_from_display_ensures, StringExecFns};

verus! {

#[verifier::external_type_specification]
#[verifier::external_body]
pub struct ExIoError(std::io::Error);

/// Failures of the raw-mode terminal core.
#[derive(Debug)]
pub enum Error {
    /// Reading or configuring the input stream failed.
    IoError(std::io::Error),
    /// The quit key was pressed: a normal end of the session, not a failure.
    Quit,
}

impl From<std::io::Error> for Error {
    fn from(err: std::io::Error) -> (r: Error)
        ensures
            r == Error::IoError(err),
    {
        Error::IoError(err)
    }
}

impl Error {
    /// A description of the failure: the I/O error's own text, or `quit`.
    pub fn message(&self) -> (r: String)
        ensures
            self is Quit ==> r@ == seq!['q', 'u', 'i', 't'],
            self matches Error::IoError(e) ==> to_string_from_display_ensures::<std::io::Error>(&e, r),
    {
        match self {
            Error::IoError(err) => err.to_string(),
            Error::Quit => {
                let r = String::from_str("quit");
                proof {
                    reveal_strlit("quit");
                }
                r
            },
        }
    }
}

impl vstd::std_specs::convert::FromSpecImpl<std::io::Error> for Error {
    open spec fn obeys_from_spec() -> bool {
        true
    }

    open spec fn from_spec(err: std::io::Error) -> Error {
        Error::IoError(err)
    }
}

} // verus!
