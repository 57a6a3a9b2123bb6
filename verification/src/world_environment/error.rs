use vstd::prelude::*;

verus! {

#[verifier::external_type_specification]
#[verifier::external_body]
pub struct ExIoError(std::io::Error);

/// Errors of the world environment.
#[derive(Debug)]
pub enum WorldEnvironmentError {
    /// An input/output error, such as the bytes of a cache file ending
    /// before its encoded content did.
    IO(std::io::Error),
    /// Any other failure, described by a message.
    Msg(String),
}

/// The error that reading an exact number of bytes reports when the data
/// ends first: `std::io::Error::new` with kind `UnexpectedEof` and the
/// message "failed to fill whole buffer", the kind and message of the error
/// `Read::read_exact` gives. The error is opaque here, so nothing is stated
/// of it.
#[verifier::external_body]
pub(crate) fn unexpected_eof() -> std::io::Error {
    std::io::Error::new(std::io::ErrorKind::UnexpectedEof, "failed to fill whole buffer")
}

/// The text of an input/output error (its `Display`, through `to_string`).
/// The error is opaque here, so nothing is stated of the text.
#[verifier::external_body]
fn io_error_text(e: &std::io::Error) -> String {
    e.to_string()
}

impl WorldEnvironmentError {
    /// An error carrying the given message.
    pub fn msg(msg: &str) -> (res: Self)
        ensures
            res matches WorldEnvironmentError::Msg(m) && m@ == msg@,
    {
        WorldEnvironmentError::Msg(msg.to_owned())
    }

    /// The message describing the error: an input/output error's text after
    /// "IO error: ", or the message itself.
    pub fn message(&self) -> (res: String)
        ensures
            match self {
                WorldEnvironmentError::IO(_) => exists|t: Seq<char>| res@ == "IO error: "@ + t,
                WorldEnvironmentError::Msg(m) => res@ == m@,
            },
    {
        match self {
            WorldEnvironmentError::IO(e) => {
                let mut out = "IO error: ".to_string();
                let text = io_error_text(e);
                out.append(text.as_str());
                proof {
                    assert(out@ == "IO error: "@ + text@);
                }
                out
            },
            WorldEnvironmentError::Msg(m) => m.clone(),
        }
    }
}

} // verus!
