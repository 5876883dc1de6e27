//! Pure helpers of the commit command's driver loop: the headers shown above
//! a generated or edited message, and the context handed to the provider.

use vstd::prelude::*;
use crate::diff::DiffStats;
use crate::prompt::CommitContext;
use crate::text::{spec_dec, chars_to_string, push_chars, push_str_chars, usize_to_dec_chars};

verus! {

/// The header shown above a generated message; regenerations say which
/// attempt produced them, counting from one.
pub fn format_message_header(attempt: usize) -> (r: String)
    requires
        attempt < usize::MAX,
    ensures
        attempt == 0 ==> r@ == "Generated commit message:"@,
        attempt > 0 ==> r@ == "Regenerated commit message (attempt "@ + spec_dec(attempt + 1)
            + "):"@,
{
    if attempt == 0 {
        String::from_str("Generated commit message:")
    } else {
        let mut out: Vec<char> = Vec::new();
        push_str_chars(&mut out, "Regenerated commit message (attempt ");
        let num = usize_to_dec_chars(attempt + 1);
        push_chars(&mut out, &num);
        push_str_chars(&mut out, "):");
        chars_to_string(&out)
    }
}

/// The header shown above a message the user edited.
pub fn format_edited_header() -> (r: &'static str)
    ensures
        r@ == "Updated commit message:"@,
{
    "Updated commit message:"
}

/// The context a generation attempt is given: the current diff statistics,
/// the branch, the configured template, and the feedback accumulated so far.
pub fn make_commit_context(
    stats: &DiffStats,
    branch_name: Option<String>,
    custom_prompt: Option<String>,
    feedbacks: &Vec<String>,
) -> (r: CommitContext)
    ensures
        r@.files_changed == stats.files_changed.deep_view(),
        r@.insertions == stats.insertions as int,
        r@.deletions == stats.deletions as int,
        r@.branch_name == branch_name.deep_view(),
        r@.custom_prompt == custom_prompt.deep_view(),
        r@.user_feedback == feedbacks.deep_view(),
{
    let mut files: Vec<String> = Vec::new();
    let n = stats.files_changed.len();
    let mut i: usize = 0;
    proof {
        assert(files.deep_view() =~= stats.files_changed.deep_view().take(0));
    }
    while i < n
        invariant
            n == stats.files_changed@.len(),
            i <= n,
            files@.len() == i,
            files.deep_view() == stats.files_changed.deep_view().take(i as int),
        decreases n - i,
    {
        let ghost old_files = files.deep_view();
        let item = stats.files_changed[i].clone();
        proof {
            assert(item@ == stats.files_changed@[i as int]@);
        }
        files.push(item);
        proof {
            assert(stats.files_changed.deep_view()[i as int] == stats.files_changed@[i as int]@);
            assert(files@[i as int]@ == stats.files_changed@[i as int]@);
            assert(files.deep_view() =~= old_files.push(
                stats.files_changed.deep_view()[i as int],
            ));
            assert(old_files.push(stats.files_changed.deep_view()[i as int])
                =~= stats.files_changed.deep_view().take(i + 1));
        }
        i = i + 1;
    }
    proof {
        assert(stats.files_changed.deep_view().take(n as int) =~= stats.files_changed.deep_view());
    }
    let mut fbs: Vec<String> = Vec::new();
    let m = feedbacks.len();
    let mut k: usize = 0;
    proof {
        assert(fbs.deep_view() =~= feedbacks.deep_view().take(0));
    }
    while k < m
        invariant
            m == feedbacks@.len(),
            k <= m,
            fbs@.len() == k,
            fbs.deep_view() == feedbacks.deep_view().take(k as int),
        decreases m - k,
    {
        let ghost old_fbs = fbs.deep_view();
        let item = feedbacks[k].clone();
        proof {
            assert(item@ == feedbacks@[k as int]@);
        }
        fbs.push(item);
        proof {
            assert(feedbacks.deep_view()[k as int] == feedbacks@[k as int]@);
            assert(fbs@[k as int]@ == feedbacks@[k as int]@);
            assert(fbs.deep_view() =~= old_fbs.push(feedbacks.deep_view()[k as int]));
            assert(old_fbs.push(feedbacks.deep_view()[k as int]) =~= feedbacks.deep_view().take(
                k + 1,
            ));
        }
        k = k + 1;
    }
    proof {
        assert(feedbacks.deep_view().take(m as int) =~= feedbacks.deep_view());
    }
    CommitContext {
        files_changed: files,
        insertions: stats.insertions,
        deletions: stats.deletions,
        branch_name,
        custom_prompt,
        user_feedback: fbs,
    }
}

} // verus!
