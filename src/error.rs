use vstd::prelude::*;

verus! {

/// What can go wrong in a search.
#[derive(Debug)]
pub enum PergError {
    /// A source could be opened but not read; holds the system's description.
    Io(String),
    /// The pattern was refused by the regular-expression engine.
    Regex(regex::Error),
    /// A named source does not exist or cannot be opened.
    FileNotFound(String),
    /// The pattern is unusable for another reason.
    InvalidPattern(String),
}

/// Relies on the `Display` impl of regex::Error: the engine's own account of
/// why the expression was refused.
#[verifier::external_body]
fn regex_error_text(e: &regex::Error) -> (r: String)
{
    e.to_string()
}

impl PergError {
    /// Failures that stop the whole run: a missing source or a bad pattern.
    pub open spec fn spec_is_fatal(&self) -> bool {
        self is FileNotFound || self is Regex
    }

    /// Whether this failure stops the whole run rather than one source.
    pub fn is_fatal(&self) -> (r: bool)
        ensures
            r == self.spec_is_fatal(),
    {
        match self {
            PergError::FileNotFound(_) | PergError::Regex(_) => true,
            _ => false,
        }
    }

    /// The process exit status that reports this failure: 2 for a pattern the
    /// engine refused, 1 for everything else.
    pub fn exit_status(&self) -> (r: i32)
        ensures
            r == (if self is Regex { 2i32 } else { 1i32 }),
    {
        match self {
            PergError::Regex(_) => 2,
            _ => 1,
        }
    }

    /// A one-line description of the failure.
    pub fn message(&self) -> (r: String)
        ensures
            self matches PergError::Io(m) ==> r@ == "I/O error: "@ + m@,
            self matches PergError::FileNotFound(p) ==> r@ == "File not found: "@ + p@,
            self matches PergError::InvalidPattern(p) ==> r@ == "Invalid pattern: "@ + p@,
            self is Regex ==> exists|t: Seq<char>| r@ == "Regex error: "@ + t,
    {
        match self {
            PergError::Io(m) => {
                let mut r = String::from_str("I/O error: ");
                r.append(m.as_str());
                r
            },
            PergError::Regex(e) => {
                let mut r = String::from_str("Regex error: ");
                let t = regex_error_text(e);
                r.append(t.as_str());
                r
            },
            PergError::FileNotFound(p) => {
                let mut r = String::from_str("File not found: ");
                r.append(p.as_str());
                r
            },
            PergError::InvalidPattern(p) => {
                let mut r = String::from_str("Invalid pattern: ");
                r.append(p.as_str());
                r
            },
        }
    }
}

} // verus!
