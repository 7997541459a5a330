//! The signal that refuses construction, and the text it carries.

use vstd::prelude::*;

verus! {

/// The message that every refusal carries.
pub const COMING_SOON: &'static str =
    "AuthVital Rust SDK is coming soon! Follow https://github.com/authvital/authvital for updates.";

/// Where the project can be followed.
pub const REPOSITORY: &'static str = "https://github.com/authvital/authvital";

/// The words that a raised signal of missing implementation begins with.
pub const NOT_IMPLEMENTED: &'static str = "not implemented: ";

/// The whole text of the signal as it is raised: the leading words, then the
/// message.
pub const SIGNAL_TEXT: &'static str =
    "not implemented: AuthVital Rust SDK is coming soon! Follow https://github.com/authvital/authvital for updates.";

/// `part` stands in `text`, starting at index `at`.
pub open spec fn occurs_at(text: Seq<char>, part: Seq<char>, at: int) -> bool {
    &&& 0 <= at
    &&& at + part.len() <= text.len()
    &&& text.subrange(at, at + part.len()) == part
}

/// `part` stands somewhere in `text`.
pub open spec fn occurs_in(text: Seq<char>, part: Seq<char>) -> bool {
    exists|at: int| occurs_at(text, part, at)
}

/// Signals that the SDK is not implemented yet.
#[derive(Debug, Clone, Copy, PartialEq, Eq, Structural)]
pub struct Unimplemented;

impl Unimplemented {
    /// The message of the signal: the same for every refusal.
    pub fn message(&self) -> (text: &'static str)
        ensures
            text@ == COMING_SOON@,
    {
        COMING_SOON
    }

    /// The whole text to raise the signal with: the same for every refusal.
    /// A caller that wants the refusal to end its thread panics with exactly
    /// this text.
    pub fn signal_text(&self) -> (text: &'static str)
        ensures
            text@ == SIGNAL_TEXT@,
    {
        SIGNAL_TEXT
    }
}

/// What stands in a text still stands in it when other text is put in front.
pub proof fn lemma_occurs_behind(head: Seq<char>, text: Seq<char>, part: Seq<char>)
    requires
        occurs_in(text, part),
    ensures
        occurs_in(head + text, part),
{
    let at = choose|at: int| occurs_at(text, part, at);
    let moved = head.len() + at;
    assert((head + text).subrange(moved, moved + part.len()) =~= text.subrange(
        at,
        at + part.len(),
    ));
    assert(occurs_at(head + text, part, moved));
}

/// The message names the project's repository.
pub proof fn lemma_message_names_repository()
    ensures
        occurs_in(COMING_SOON@, REPOSITORY@),
{
    reveal_strlit("AuthVital Rust SDK is coming soon! Follow https://github.com/authvital/authvital for updates.");
    reveal_strlit("https://github.com/authvital/authvital");
    assert(COMING_SOON@.subrange(42, 80) =~= REPOSITORY@);
    assert(occurs_at(COMING_SOON@, REPOSITORY@, 42));
}

/// The raised text is the leading words of a signal of missing
/// implementation, followed by the message and nothing else.
pub proof fn lemma_signal_text_is_marked_message()
    ensures
        SIGNAL_TEXT@ == NOT_IMPLEMENTED@ + COMING_SOON@,
{
    reveal_strlit("not implemented: ");
    reveal_strlit("AuthVital Rust SDK is coming soon! Follow https://github.com/authvital/authvital for updates.");
    reveal_strlit("not implemented: AuthVital Rust SDK is coming soon! Follow https://github.com/authvital/authvital for updates.");
    assert(SIGNAL_TEXT@ =~= NOT_IMPLEMENTED@ + COMING_SOON@);
}

/// The raised text names the project's repository.
pub proof fn lemma_signal_text_names_repository()
    ensures
        occurs_in(SIGNAL_TEXT@, REPOSITORY@),
{
    lemma_signal_text_is_marked_message();
    lemma_message_names_repository();
    lemma_occurs_behind(NOT_IMPLEMENTED@, COMING_SOON@, REPOSITORY@);
}

} // verus!
