use vstd::prelude::*;
use vstd::string::StringExecFns;

verus! {

/// Failure to obtain the raw text of a configuration source.  The loader
/// itself does I/O and lives outside the library; the message it must carry
/// is built here, so its exact shape is pinned down by `read_failure`.
#[derive(Debug)]
pub struct IoError {
    pub message: String,
}

/// Failure to decode configuration text into a document: malformed syntax,
/// a missing required field, or a value of the wrong shape.
#[derive(Debug)]
pub struct ParseError {
    pub message: String,
}

/// What `str::to_lowercase` returns on a given text: a function of the
/// characters alone.
pub uninterp spec fn lowercase_of(s: Seq<char>) -> Seq<char>;

/// Relies on `str::to_lowercase` of std: the lower-cased form of the text,
/// which depends on the characters alone.
#[verifier::external_body]
fn to_lowercase(s: &str) -> (r: String)
    ensures
        r@ == lowercase_of(s@),
{
    s.to_lowercase()
}

/// The message of every loader failure: the fixed phrase naming the failing
/// operation, then the lower-cased cause in double quotes.
pub open spec fn read_failure_message(cause: Seq<char>) -> Seq<char> {
    "reading config \""@ + lowercase_of(cause) + "\""@
}

/// Builds the `IoError` for a source that could not be read, from the
/// description of the underlying cause.  The message always begins with
/// the phrase "reading config".
pub fn read_failure(cause: &str) -> (e: IoError)
    ensures
        e.message@ == read_failure_message(cause@),
        e.message@.take("reading config"@.len() as int) == "reading config"@,
{
    let mut message: String = "reading config \"".to_owned();
    let lowered = to_lowercase(cause);
    message.append(lowered.as_str());
    message.append("\"");
    proof {
        reveal_strlit("reading config \"");
        reveal_strlit("reading config");
        assert(message@.take("reading config"@.len() as int) =~= "reading config"@);
    }
    IoError { message }
}

} // verus!
