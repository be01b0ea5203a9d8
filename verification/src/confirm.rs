//! The rules of the overwrite confirmation: when to ask before writing over
//! an existing file, and how an answer typed by the user is read.
use vstd::prelude::*;

verus! {

/// What to do before writing an output file.
#[derive(Debug, Clone, Copy, PartialEq, Eq, Structural)]
pub enum WriteDecision {
    /// Write the file right away.
    Write,
    /// Ask the user first, since the write would replace an existing file.
    Confirm,
}

/// Ask before writing when the target exists, unless overwriting is forced.
pub fn write_decision(target_exists: bool, force: bool) -> (r: WriteDecision)
    ensures
        r == if target_exists && !force {
            WriteDecision::Confirm
        } else {
            WriteDecision::Write
        },
{
    if target_exists && !force {
        WriteDecision::Confirm
    } else {
        WriteDecision::Write
    }
}

/// How a line typed at the confirmation prompt is understood.
#[derive(Debug, Clone, Copy, PartialEq, Eq, Structural)]
pub enum Answer {
    /// Go on and write.
    Yes,
    /// Leave the file as it is.
    No,
    /// Not understood: ask again.
    Retry,
}

/// `yes` and `y` accept, `no` and `n` refuse, anything else asks again.
pub open spec fn spec_classify(answer: Seq<char>) -> Answer {
    if answer == "yes"@ || answer == "y"@ {
        Answer::Yes
    } else if answer == "no"@ || answer == "n"@ {
        Answer::No
    } else {
        Answer::Retry
    }
}

/// `part` is a contiguous part of `whole`.
pub open spec fn is_part_of(part: Seq<char>, whole: Seq<char>) -> bool {
    exists|i: int, j: int| 0 <= i <= j <= whole.len() && part == whole.subrange(i, j)
}

/// The text with leading and trailing whitespace removed, as `str::trim`
/// gives it.
pub uninterp spec fn trimmed(s: Seq<char>) -> Seq<char>;

/// The lowercase form of the text, as `str::to_lowercase` gives it.
pub uninterp spec fn lowercased(s: Seq<char>) -> Seq<char>;

/// Calls `str::trim`. The contract names its result `trimmed` of the text
/// and states, as its documentation does, that it is a part of the text;
/// which characters count as whitespace (Unicode `White_Space`) is left
/// unstated.
#[verifier::external_body]
fn trim(s: &str) -> (r: &str)
    ensures
        r@ == trimmed(s@),
        is_part_of(r@, s@),
{
    s.trim()
}

/// Calls `str::to_lowercase`. The contract names its result `lowercased`
/// of the text; the Unicode case mapping itself is left unstated.
#[verifier::external_body]
fn to_lowercase(s: &str) -> (r: String)
    ensures
        r@ == lowercased(s@),
{
    s.to_lowercase()
}

fn same_text(a: &str, b: &str) -> (r: bool)
    ensures
        r == (a@ == b@),
{
    let n = a.unicode_len();
    if n != b.unicode_len() {
        return false;
    }
    let mut i: usize = 0;
    while i < n
        invariant
            n == a@.len(),
            n == b@.len(),
            i <= n,
            forall|j: int| 0 <= j < i ==> a@[j] == b@[j],
        decreases n - i,
    {
        if a.get_char(i) != b.get_char(i) {
            return false;
        }
        i = i + 1;
    }
    assert(a@ =~= b@);
    true
}

/// Understands an answer that is already trimmed and in lowercase (see
/// [`spec_classify`]).
pub fn classify_answer(answer: &str) -> (r: Answer)
    ensures
        r == spec_classify(answer@),
{
    if same_text(answer, "yes") || same_text(answer, "y") {
        Answer::Yes
    } else if same_text(answer, "no") || same_text(answer, "n") {
        Answer::No
    } else {
        Answer::Retry
    }
}

/// Understands a line typed at the confirmation prompt: surrounding
/// whitespace is dropped and case is ignored.
pub fn read_answer(input: &str) -> (r: Answer)
    ensures
        r == spec_classify(lowercased(trimmed(input@))),
{
    let trimmed_input = trim(input);
    let lower = to_lowercase(trimmed_input);
    classify_answer(lower.as_str())
}

} // verus!
