//! The decisions behind the interactive surface: which menu entries exist,
//! what a selection means, and how free-text feedback is bounded. The
//! rendering itself stays outside the library.

use vstd::prelude::*;
use crate::text::{spec_trim, chars_to_string, copy_range, str_to_chars, trim_chars};

verus! {

/// The longest feedback text kept; anything longer is truncated, with a
/// warning, never an error.
pub const MAX_FEEDBACK_LENGTH: usize = 200;

/// What the user chose for the displayed commit message.
#[derive(Debug, Clone, Copy, PartialEq, Eq, Structural)]
pub enum CommitAction {
    Accept,
    Edit,
    Retry,
    RetryWithFeedback,
    Quit,
}

/// The plain menu labels, in display order; the edit entry appears only when
/// editing is allowed.
pub fn commit_menu_options(allow_edit: bool) -> (r: Vec<String>)
    ensures
        allow_edit ==> r.deep_view() =~= seq![
            "\u{2713} Accept - Use this commit message"@,
            "\u{270e} Edit - Manually edit the message"@,
            "\u{21bb} Retry - Regenerate"@,
            "\u{21bb}+ Retry with feedback - Add instructions"@,
            "\u{2715} Quit - Cancel commit"@,
        ],
        !allow_edit ==> r.deep_view() =~= seq![
            "\u{2713} Accept - Use this commit message"@,
            "\u{21bb} Retry - Regenerate"@,
            "\u{21bb}+ Retry with feedback - Add instructions"@,
            "\u{2715} Quit - Cancel commit"@,
        ],
{
    let mut options: Vec<String> = Vec::new();
    options.push(String::from_str("\u{2713} Accept - Use this commit message"));
    if allow_edit {
        options.push(String::from_str("\u{270e} Edit - Manually edit the message"));
    }
    options.push(String::from_str("\u{21bb} Retry - Regenerate"));
    options.push(String::from_str("\u{21bb}+ Retry with feedback - Add instructions"));
    options.push(String::from_str("\u{2715} Quit - Cancel commit"));
    options
}

/// The menu prompt, adjusted after a retry.
pub fn commit_menu_prompt(retry_count: usize) -> (r: &'static str)
    ensures
        retry_count == 0 ==> r@ == "Choose next action (ESC to quit):"@,
        retry_count > 0 ==> r@ == "Not satisfied? Choose again (ESC to quit):"@,
{
    if retry_count == 0 {
        "Choose next action (ESC to quit):"
    } else {
        "Not satisfied? Choose again (ESC to quit):"
    }
}

/// The meaning of a menu selection: the index maps to the entry shown at
/// that position (shifted when editing is hidden); no selection means quit.
pub fn action_from_selection(allow_edit: bool, selection: Option<usize>) -> (r: CommitAction)
    requires
        selection matches Some(i) ==> i < (if allow_edit {
            5usize
        } else {
            4usize
        }),
    ensures
        selection is None ==> r == CommitAction::Quit,
        allow_edit ==> (match selection {
            Some(0usize) => r == CommitAction::Accept,
            Some(1usize) => r == CommitAction::Edit,
            Some(2usize) => r == CommitAction::Retry,
            Some(3usize) => r == CommitAction::RetryWithFeedback,
            Some(4usize) => r == CommitAction::Quit,
            _ => true,
        }),
        !allow_edit ==> (match selection {
            Some(0usize) => r == CommitAction::Accept,
            Some(1usize) => r == CommitAction::Retry,
            Some(2usize) => r == CommitAction::RetryWithFeedback,
            Some(3usize) => r == CommitAction::Quit,
            _ => true,
        }),
{
    match selection {
        None => CommitAction::Quit,
        Some(i) => if allow_edit {
            if i == 0 {
                CommitAction::Accept
            } else if i == 1 {
                CommitAction::Edit
            } else if i == 2 {
                CommitAction::Retry
            } else if i == 3 {
                CommitAction::RetryWithFeedback
            } else {
                CommitAction::Quit
            }
        } else {
            if i == 0 {
                CommitAction::Accept
            } else if i == 1 {
                CommitAction::Retry
            } else if i == 2 {
                CommitAction::RetryWithFeedback
            } else {
                CommitAction::Quit
            }
        },
    }
}

/// Bound a free-text feedback entry: trim it; empty input is no feedback;
/// input beyond the limit is truncated, and the flag says so.
pub fn normalize_feedback(input: &str) -> (r: (Option<String>, bool))
    ensures
        ({
            let t = spec_trim(input@);
            &&& t.len() == 0 ==> r.0 is None && !r.1
            &&& 0 < t.len() <= MAX_FEEDBACK_LENGTH ==> (r.0 matches Some(f) && f@ == t && !r.1)
            &&& t.len() > MAX_FEEDBACK_LENGTH ==> (r.0 matches Some(f) && f@ == t.take(
                MAX_FEEDBACK_LENGTH as int,
            ) && r.1)
        }),
{
    let chars = str_to_chars(input);
    let trimmed = trim_chars(&chars);
    if trimmed.len() == 0 {
        (None, false)
    } else if trimmed.len() > MAX_FEEDBACK_LENGTH {
        let cut = copy_range(&trimmed, 0, MAX_FEEDBACK_LENGTH);
        proof {
            assert(cut@ =~= spec_trim(input@).take(MAX_FEEDBACK_LENGTH as int));
        }
        (Some(chars_to_string(&cut)), true)
    } else {
        (Some(chars_to_string(&trimmed)), false)
    }
}

} // verus!
