//! The error vocabulary shared by every backend.

use vstd::prelude::*;
use vstd::string::StringExecFns;

verus! {

/// Why a lookup or a fetch failed.
#[derive(Debug, Clone, PartialEq, Eq)]
pub enum FetchError {
    /// The transport or the proxy failed; the text is the transport's report.
    R(String),
    /// The local file system failed; the text is its report.
    I(String),
    /// A modification time lies after the current time.
    T,
    /// The declared content length exceeds the configured ceiling.
    S,
    /// A cache operation was asked for although no cache file is configured.
    NC,
    /// The name is not a key of the table, or no archive entry has that path.
    NF,
    /// None of the listed directories holds the file.
    NFD(Vec<String>),
}

/// The text that `{:?}` prints for a list of strings.
pub uninterp spec fn debug_text(items: Seq<Seq<char>>) -> Seq<char>;

/// `format!("{:?}", ..)` on a list of strings: the result is a function of the
/// strings alone, and nothing more is claimed of it.
#[verifier::external_body]
fn debug_list(items: &Vec<String>) -> (r: String)
    ensures
        r@ == debug_text(items.deep_view()),
{
    format!("{:?}", items)
}

impl FetchError {
    /// The one-line description of the error.
    pub open spec fn message_text(self) -> Seq<char> {
        match self {
            FetchError::R(_) => "reqwest err"@,
            FetchError::I(_) => "io err"@,
            FetchError::T => "time err"@,
            FetchError::S => "size limit exceed"@,
            FetchError::NC => "no cache file"@,
            FetchError::NF => "not found"@,
            FetchError::NFD(dirs) => "not found in directories `"@ + debug_text(dirs.deep_view())
                + "`"@,
        }
    }

    pub fn message(&self) -> (r: String)
        ensures
            r@ == self.message_text(),
    {
        match self {
            FetchError::R(_) => String::from_str("reqwest err"),
            FetchError::I(_) => String::from_str("io err"),
            FetchError::T => String::from_str("time err"),
            FetchError::S => String::from_str("size limit exceed"),
            FetchError::NC => String::from_str("no cache file"),
            FetchError::NF => String::from_str("not found"),
            FetchError::NFD(dirs) => {
                let mut text = String::from_str("not found in directories `");
                let listed = debug_list(dirs);
                text.append(listed.as_str());
                text.append("`");
                text
            },
        }
    }
}

} // verus!
