use vstd::prelude::*;

verus! {

/// The errors of the broker.
#[derive(Debug, Clone)]
pub enum WebMQError {
    /// Missing or unusable configuration or credentials.
    Config(String),
    /// A file could not be read.
    File(String),
    /// TLS set-up failed, or a connection did not speak TLS.
    TLS(String),
    /// Nothing to deliver from a queue.
    Data(String),
    /// A start-up failure after which the process must stop.
    Unrecoverable,
}

/// The text that describes `WebMQError::Unrecoverable`.
pub open spec fn unrecoverable_text() -> Seq<char> {
    "The program encountered an unrecoverable error."@
}

impl WebMQError {
    /// The text that an error carries.
    pub open spec fn message_spec(&self) -> Seq<char> {
        match self {
            WebMQError::Config(m) => m@,
            WebMQError::File(m) => m@,
            WebMQError::TLS(m) => m@,
            WebMQError::Data(m) => m@,
            WebMQError::Unrecoverable => unrecoverable_text(),
        }
    }

    /// Returns the text that describes this error.
    pub fn message(&self) -> (r: &str)
        ensures
            r@ == self.message_spec(),
    {
        match self {
            WebMQError::Config(m) => m.as_str(),
            WebMQError::File(m) => m.as_str(),
            WebMQError::TLS(m) => m.as_str(),
            WebMQError::Data(m) => m.as_str(),
            WebMQError::Unrecoverable => "The program encountered an unrecoverable error.",
        }
    }
}

/// `prefix` followed by `text`.
pub(crate) fn prefixed(prefix: &str, text: &str) -> (r: String)
    ensures
        r@ == prefix@ + text@,
{
    let mut r = String::from_str(prefix);
    r.append(text);
    r
}

} // verus!
