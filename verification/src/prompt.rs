//! What the operator is asked and how the answers are read: the four
//! questions of a new credential set, and the confirmation before one is
//! overwritten.

use crate::text::{ascii_lower, ascii_lowered, trim, trimmed};
use vstd::prelude::*;
use vstd::string::*;

verus! {

/// The labels of the four questions, in the order in which they are asked.
pub open spec fn prompt_labels() -> Seq<Seq<char>> {
    seq!["client_id"@, "client_secret"@, "audience"@, "domain"@]
}

/// What is shown to ask for `label`.
pub open spec fn prompt_line(label: Seq<char>) -> Seq<char> {
    label + "> "@
}

/// What is shown to ask whether to go on after the warning `message`.
pub open spec fn confirm_line(message: Seq<char>) -> Seq<char> {
    message + " Continue? [y/N] "@
}

/// Whether an answer to a confirmation says yes: without the whitespace
/// around it and in lower case, it is exactly `y`.
pub open spec fn is_yes(answer: Seq<char>) -> bool {
    ascii_lowered(trimmed(answer)) == "y"@
}

/// The operator declined to go on.
#[derive(Debug, Clone, Copy, PartialEq, Eq)]
pub struct AbortSignal {}

impl AbortSignal {
    /// What to tell the operator, and nothing more.
    pub fn message(&self) -> (r: String)
        ensures
            r@ == "Aborting."@,
    {
        String::from_str("Aborting.")
    }
}

/// The label of question number `k`, counted from 0; `None` from 4 on.
pub fn prompt_label(k: usize) -> (r: Option<&'static str>)
    ensures
        k < 4 ==> (r matches Some(label) && label@ == prompt_labels()[k as int]),
        k >= 4 ==> r is None,
{
    if k == 0 {
        Some("client_id")
    } else if k == 1 {
        Some("client_secret")
    } else if k == 2 {
        Some("audience")
    } else if k == 3 {
        Some("domain")
    } else {
        None
    }
}

/// The text to show before the answer to `label` is read.
pub fn prompt_text(label: &str) -> (r: String)
    ensures
        r@ == prompt_line(label@),
{
    let mut line = String::from_str(label);
    line.append("> ");
    line
}

/// The text to show before the answer to a confirmation is read.
pub fn confirm_text(message: &str) -> (r: String)
    ensures
        r@ == confirm_line(message@),
{
    let mut line = String::from_str(message);
    line.append(" Continue? [y/N] ");
    line
}

/// Reads the answer to a confirmation. Only `y` or `Y`, with any whitespace
/// around it, lets the caller go on; any other answer, the empty one too,
/// is a refusal.
pub fn confirm(answer: &str) -> (r: Result<(), AbortSignal>)
    ensures
        r is Ok <==> is_yes(answer@),
{
    let core = trim(answer);
    let s = core.as_str();
    proof {
        reveal_strlit("y");
        let low = ascii_lowered(s@);
        assert(low.len() == s@.len());
        if s@.len() == 1 {
            assert(low[0] == ascii_lower(s@[0]));
            if ascii_lower(s@[0]) == 'y' {
                assert(low =~= "y"@);
            }
        }
    }
    if s.unicode_len() == 1 {
        let c = s.get_char(0);
        if c == 'y' || c == 'Y' {
            return Ok(());
        }
    }
    Err(AbortSignal {  })
}

} // verus!
