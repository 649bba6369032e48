use vstd::prelude::*;
use vstd::string::StringExecFns;

verus! {

/// What a gateway operation reports to the remote caller: a success message
/// or an error string, never both.
pub enum Outcome {
    Success { message: String },
    Failure { error: String },
}

/// Body of a reply: the directory listing for the list endpoint, or an
/// outcome report for everything else.
pub enum Body {
    Listing(Vec<String>),
    Status(Outcome),
}

/// A reply to the remote caller: an HTTP status code together with the body
/// to serialize as JSON.
pub struct Reply {
    pub status: u16,
    pub body: Body,
}

/// The error string for a sound name that is absent from the directory.
pub open spec fn not_found_text(name: Seq<char>) -> Seq<char> {
    "Sound file '"@ + name + "' not found"@
}

/// The success message after the dispatcher played a sound.
pub open spec fn played_text(name: Seq<char>) -> Seq<char> {
    "Successfully played sound: "@ + name
}

/// The error string after the dispatcher failed on a sound.
pub open spec fn failed_text(name: Seq<char>) -> Seq<char> {
    "Failed to play sound: "@ + name
}

/// The error string when the sound directory cannot be read.
pub open spec fn unreadable_text() -> Seq<char> {
    "Unable to read sounds directory"@
}

/// The error string when the sound directory holds no file to play.
pub open spec fn empty_text() -> Seq<char> {
    "No sound files found in sounds directory"@
}

/// Builds the error string for a sound name absent from the directory.
pub fn not_found_error(name: &str) -> (r: String)
    ensures
        r@ == not_found_text(name@),
{
    let mut s = "Sound file '".to_owned();
    s.append(name);
    s.append("' not found");
    s
}

/// Builds the success message after the dispatcher played `name`.
pub fn played_message(name: &str) -> (r: String)
    ensures
        r@ == played_text(name@),
{
    let mut s = "Successfully played sound: ".to_owned();
    s.append(name);
    s
}

/// Builds the error string after the dispatcher failed on `name`.
pub fn failed_error(name: &str) -> (r: String)
    ensures
        r@ == failed_text(name@),
{
    let mut s = "Failed to play sound: ".to_owned();
    s.append(name);
    s
}

/// Builds the error string for an unreadable sound directory.
pub fn unreadable_error() -> (r: String)
    ensures
        r@ == unreadable_text(),
{
    "Unable to read sounds directory".to_owned()
}

/// Builds the error string for an empty sound directory.
pub fn empty_error() -> (r: String)
    ensures
        r@ == empty_text(),
{
    "No sound files found in sounds directory".to_owned()
}

} // verus!
