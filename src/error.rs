use vstd::prelude::*;

verus! {

/// Every failure that the engine reports, each kind with its message text.
///
/// `Stop` is no failure: it tells a lazy stream to end early, and ends it
/// successfully.
#[derive(Debug)]
pub enum Error {
    Arrow(String),
    Schema(String),
    IO(String),
    Index(String),
    /// Stream early stop
    Stop(),
}

pub type Result<T> = core::result::Result<T, Error>;

impl Error {
    /// The fixed label of each kind, as it stands in the rendered text.
    pub open spec fn label(self) -> Seq<char> {
        match self {
            Error::Arrow(_) => "Arrow"@,
            Error::Schema(_) => "Schema"@,
            Error::IO(_) => "I/O"@,
            Error::Index(_) => "Index"@,
            Error::Stop() => "Early stop"@,
        }
    }

    /// The message text; empty for an early stop.
    pub open spec fn message(self) -> Seq<char> {
        match self {
            Error::Arrow(s) => s@,
            Error::Schema(s) => s@,
            Error::IO(s) => s@,
            Error::Index(s) => s@,
            Error::Stop() => Seq::empty(),
        }
    }

    /// The text shown to people: `UnifiedError(<label>): <message>`.
    pub open spec fn rendered(self) -> Seq<char> {
        "UnifiedError("@ + self.label() + "): "@ + self.message()
    }

    /// The label of this error's kind.
    pub fn catalog(&self) -> (r: &'static str)
        ensures
            r@ == self.label(),
    {
        match self {
            Error::Arrow(_) => "Arrow",
            Error::Schema(_) => "Schema",
            Error::IO(_) => "I/O",
            Error::Index(_) => "Index",
            Error::Stop() => "Early stop",
        }
    }

    /// The message text, borrowed; empty for an early stop.
    pub fn message_str(&self) -> (r: &str)
        ensures
            r@ == self.message(),
    {
        match self {
            Error::Arrow(s) => s.as_str(),
            Error::Schema(s) => s.as_str(),
            Error::IO(s) => s.as_str(),
            Error::Index(s) => s.as_str(),
            Error::Stop() => {
                proof {
                    reveal_strlit("");
                }
                ""
            },
        }
    }

    /// Renders the error as `UnifiedError(<label>): <message>`.
    pub fn to_string(&self) -> (r: String)
        ensures
            r@ == self.rendered(),
    {
        let mut out = String::from_str("UnifiedError(");
        out.append(self.catalog());
        out.append("): ");
        out.append(self.message_str());
        out
    }
}

} // verus!
