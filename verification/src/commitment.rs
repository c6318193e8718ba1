//! The commitment level at which the feed reports: how settled a block must
//! be before its transactions count.

use vstd::prelude::*;

verus! {

/// How settled a block must be.
#[derive(Clone, Copy, Debug, PartialEq, Eq, Structural)]
pub enum Commitment {
    Processed,
    Confirmed,
    Finalized,
}

/// A text that names no commitment level.
#[derive(Clone, Debug, PartialEq, Eq)]
pub struct InvalidCommitment {
    /// The text as it was given.
    pub given: String,
}

/// The lower-case form that the standard library gives a text.
pub uninterp spec fn lowercase_of(text: Seq<char>) -> Seq<char>;

/// Calls `str::to_lowercase`. Trusted: the result is the text that
/// [`lowercase_of`] names.
#[verifier::external_body]
pub(crate) fn lowercase(text: &str) -> (lower: String)
    ensures
        lower@ == lowercase_of(text@),
{
    text.to_lowercase()
}

/// The level that a lower-case name stands for.
pub open spec fn commitment_named(name: Seq<char>) -> Option<Commitment> {
    if name == "processed"@ {
        Some(Commitment::Processed)
    } else if name == "confirmed"@ {
        Some(Commitment::Confirmed)
    } else if name == "finalized"@ {
        Some(Commitment::Finalized)
    } else {
        None
    }
}

/// The name of a level, in lower case.
pub open spec fn name_of_commitment(level: Commitment) -> Seq<char> {
    match level {
        Commitment::Processed => "processed"@,
        Commitment::Confirmed => "confirmed"@,
        Commitment::Finalized => "finalized"@,
    }
}

/// Whether two texts are the same.
fn same_text(a: &str, b: &str) -> (same: bool)
    ensures
        same == (a@ == b@),
{
    a.to_owned() == b.to_owned()
}

/// Reads a level from its name in lower case.
pub fn commitment_from_name(name: &str) -> (level: Option<Commitment>)
    ensures
        level == commitment_named(name@),
{
    if same_text(name, "processed") {
        Some(Commitment::Processed)
    } else if same_text(name, "confirmed") {
        Some(Commitment::Confirmed)
    } else if same_text(name, "finalized") {
        Some(Commitment::Finalized)
    } else {
        None
    }
}

/// Reads a level from its name, whatever the case of its letters. Any other
/// text is an error that holds the text.
pub fn parse_commitment(commitment_str: &str) -> (parsed: Result<Commitment, InvalidCommitment>)
    ensures
        match parsed {
            Ok(level) => commitment_named(lowercase_of(commitment_str@)) == Some(level),
            Err(e) => commitment_named(lowercase_of(commitment_str@)) is None && e.given@
                == commitment_str@,
        },
{
    let lower = lowercase(commitment_str);
    match commitment_from_name(lower.as_str()) {
        Some(level) => Ok(level),
        None => Err(InvalidCommitment { given: commitment_str.to_owned() }),
    }
}

impl Commitment {
    /// The name of the level, in lower case.
    pub fn name(&self) -> (name: String)
        ensures
            name@ == name_of_commitment(*self),
    {
        match self {
            Commitment::Processed => "processed".to_owned(),
            Commitment::Confirmed => "confirmed".to_owned(),
            Commitment::Finalized => "finalized".to_owned(),
        }
    }
}

impl InvalidCommitment {
    /// The error in words.
    pub fn message(&self) -> (text: String)
        ensures
            text@ == "Invalid commitment level: "@ + self.given@
                + ". Must be one of: processed, confirmed, finalized"@,
    {
        let mut text = "Invalid commitment level: ".to_owned();
        text.append(self.given.as_str());
        text.append(". Must be one of: processed, confirmed, finalized");
        text
    }
}

/// A level's own name reads back as that level.
pub proof fn law_name_reads_back(level: Commitment)
    ensures
        commitment_named(name_of_commitment(level)) == Some(level),
{
    reveal_strlit("processed");
    reveal_strlit("confirmed");
    reveal_strlit("finalized");
    assert("processed"@.len() == 9);
    assert("confirmed"@[0] == 'c');
    assert("processed"@[0] == 'p');
    assert("finalized"@[0] == 'f');
}

} // verus!
