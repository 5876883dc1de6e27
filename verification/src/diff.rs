//! The diff statistics extractor: unified-diff text in, structured counts
//! out.
//!
//! A file-header line has the shape `diff --git a/<path> b/<path>`; the path
//! is read from the `a/` side. Content lines beginning `+` or `-` are
//! counted, except the `+++`/`---` file markers.

use vstd::prelude::*;
use crate::error::{ErrorModel, GcopError, GcopResult};
use crate::text::{
    spec_split_char, spec_until_char, starts_with, str_to_chars, starts_with_chars, split_char,
    until_char, chars_to_string,
};

verus! {

/// Counts extracted from one unified diff. Immutable once computed.
#[derive(Debug, Clone)]
pub struct DiffStats {
    /// Paths touched by the diff, first-seen order, each once.
    pub files_changed: Vec<String>,
    /// Number of added content lines.
    pub insertions: usize,
    /// Number of removed content lines.
    pub deletions: usize,
}

/// What the library asks of the source-control collaborator. The surrounding
/// program implements it on a real repository.
pub trait GitOperations {
    /// The diff of the staged changes.
    fn get_staged_diff(&self) -> GcopResult<String>;

    /// The diff of the uncommitted changes.
    fn get_uncommitted_diff(&self) -> GcopResult<String>;

    /// The diff a single commit introduced.
    fn get_commit_diff(&self, commit_hash: &str) -> GcopResult<String>;

    /// The diff of a commit range.
    fn get_range_diff(&self, range: &str) -> GcopResult<String>;

    /// A file's content, bounded by the configured size limit.
    fn get_file_content(&self, path: &str) -> GcopResult<String>;

    /// Create a commit with the message, verbatim.
    fn commit(&self, message: &str) -> GcopResult<()>;

    /// The current branch's name; absent when the head is detached.
    fn get_current_branch(&self) -> GcopResult<Option<String>>;

    /// The statistics of a diff.
    fn get_diff_stats(&self, diff: &str) -> GcopResult<DiffStats>;

    /// Whether anything is staged.
    fn has_staged_changes(&self) -> GcopResult<bool>;
}

// ---------------------------------------------------------------------------
// Lines
// ---------------------------------------------------------------------------

/// Split at every newline; a trailing newline yields a final empty line.
pub open spec fn spec_split_lines(s: Seq<char>) -> Seq<Seq<char>> {
    spec_split_char(s, '\n')
}

// ---------------------------------------------------------------------------
// Line classification
// ---------------------------------------------------------------------------

/// An added content line: begins `+` but is not a `+++` file marker.
pub open spec fn is_insertion_line(l: Seq<char>) -> bool {
    l.len() > 0 && l[0] == '+' && !starts_with(l, "+++"@)
}

/// A removed content line: begins `-` but is not a `---` file marker.
pub open spec fn is_deletion_line(l: Seq<char>) -> bool {
    l.len() > 0 && l[0] == '-' && !starts_with(l, "---"@)
}

/// A well-formed file-header line.
pub open spec fn is_file_header_line(l: Seq<char>) -> bool {
    starts_with(l, "diff --git a/"@)
}

/// The path a file-header line names: the `a/` side, up to the next space.
pub open spec fn spec_header_path(l: Seq<char>) -> Seq<char> {
    spec_until_char(l.skip(13), ' ')
}

/// A line that announces a file but cannot be read: it begins like a header
/// yet lacks the `a/<path>` part.
pub open spec fn is_malformed_header_line(l: Seq<char>) -> bool {
    starts_with(l, "diff --git "@) && (!is_file_header_line(l) || spec_header_path(l).len()
        == 0)
}

/// Number of added content lines.
pub open spec fn count_insertions(lines: Seq<Seq<char>>) -> int
    decreases lines.len(),
{
    if lines.len() == 0 {
        0
    } else {
        (if is_insertion_line(lines[0]) {
            1int
        } else {
            0int
        }) + count_insertions(lines.skip(1))
    }
}

/// Number of removed content lines.
pub open spec fn count_deletions(lines: Seq<Seq<char>>) -> int
    decreases lines.len(),
{
    if lines.len() == 0 {
        0
    } else {
        (if is_deletion_line(lines[0]) {
            1int
        } else {
            0int
        }) + count_deletions(lines.skip(1))
    }
}

/// The paths of all file-header lines, in order, duplicates included.
pub open spec fn spec_header_paths(lines: Seq<Seq<char>>) -> Seq<Seq<char>>
    decreases lines.len(),
{
    if lines.len() == 0 {
        Seq::empty()
    } else {
        (if is_file_header_line(lines[0]) {
            seq![spec_header_path(lines[0])]
        } else {
            Seq::<Seq<char>>::empty()
        }) + spec_header_paths(lines.skip(1))
    }
}

/// First-seen deduplication: keep each path's first occurrence, skipping
/// anything already in `seen`.
pub open spec fn spec_dedup_first(s: Seq<Seq<char>>, seen: Seq<Seq<char>>) -> Seq<Seq<char>>
    decreases s.len(),
{
    if s.len() == 0 {
        Seq::empty()
    } else if seen.contains(s[0]) {
        spec_dedup_first(s.skip(1), seen)
    } else {
        seq![s[0]] + spec_dedup_first(s.skip(1), seen.push(s[0]))
    }
}

/// Law: deduplication yields each path exactly once — every entry occurs in
/// the input and not in `seen`, no entry repeats, and every input path not
/// yet seen appears.
pub proof fn lemma_dedup_first_distinct(s: Seq<Seq<char>>, seen: Seq<Seq<char>>)
    ensures
        forall|i: int, j: int|
            0 <= i < j < spec_dedup_first(s, seen).len() ==> spec_dedup_first(s, seen)[i]
                != spec_dedup_first(s, seen)[j],
        forall|i: int|
            0 <= i < spec_dedup_first(s, seen).len() ==> s.contains(
                #[trigger] spec_dedup_first(s, seen)[i],
            ) && !seen.contains(spec_dedup_first(s, seen)[i]),
        forall|x: Seq<char>|
            s.contains(x) && !seen.contains(x) ==> spec_dedup_first(s, seen).contains(x),
    decreases s.len(),
{
    if s.len() == 0 {
    } else {
        let head = s[0];
        let tail = s.skip(1);
        assert(forall|k: int| 0 <= k < tail.len() ==> tail[k] == s[k + 1]);
        if seen.contains(head) {
            lemma_dedup_first_distinct(tail, seen);
            let d = spec_dedup_first(s, seen);
            let d2 = spec_dedup_first(tail, seen);
            assert(d == d2);
            assert forall|i: int| 0 <= i < d.len() implies s.contains(#[trigger] d[i])
                && !seen.contains(d[i]) by {
                assert(d2[i] == d[i]);
                assert(tail.contains(d2[i]));
                let k = choose|k: int| 0 <= k < tail.len() && tail[k] == d[i];
                assert(s[k + 1] == d[i]);
            }
            assert forall|x: Seq<char>| s.contains(x) && !seen.contains(x) implies d.contains(
                x,
            ) by {
                let k = choose|k: int| 0 <= k < s.len() && s[k] == x;
                if k == 0 {
                    assert(seen.contains(x));
                } else {
                    assert(tail[k - 1] == x);
                    assert(tail.contains(x));
                }
            }
        } else {
            lemma_dedup_first_distinct(tail, seen.push(head));
            let d = spec_dedup_first(s, seen);
            let d2 = spec_dedup_first(tail, seen.push(head));
            assert(d =~= seq![head] + d2);
            assert(forall|i: int| 0 <= i < d2.len() ==> d[i + 1] == d2[i]);
            assert(seen.push(head).contains(head)) by {
                assert(seen.push(head)[seen.len() as int] == head);
            }
            assert forall|i: int, j: int| 0 <= i < j < d.len() implies d[i] != d[j] by {
                if i == 0 {
                    assert(d2.contains(d2[j - 1]));
                    assert(!seen.push(head).contains(d[j]));
                }
            }
            assert forall|i: int| 0 <= i < d.len() implies s.contains(#[trigger] d[i])
                && !seen.contains(d[i]) by {
                if i == 0 {
                    assert(s[0] == d[0]);
                    assert(forall|k: int|
                        0 <= k < seen.len() ==> seen.push(head)[k] == seen[k]);
                } else {
                    assert(tail.contains(d2[i - 1]));
                    let k = choose|k: int| 0 <= k < tail.len() && tail[k] == d2[i - 1];
                    assert(s[k + 1] == d[i]);
                    assert(!seen.push(head).contains(d[i]));
                    assert forall|k2: int| 0 <= k2 < seen.len() implies seen[k2] != d[i] by {
                        assert(seen.push(head)[k2] == seen[k2]);
                    }
                }
            }
            assert forall|x: Seq<char>| s.contains(x) && !seen.contains(x) implies d.contains(
                x,
            ) by {
                let k = choose|k: int| 0 <= k < s.len() && s[k] == x;
                if k == 0 {
                    assert(d[0] == x);
                } else {
                    assert(tail[k - 1] == x);
                    assert(tail.contains(x));
                    if x == head {
                        assert(d[0] == x);
                    } else {
                        assert forall|k2: int|
                            0 <= k2 < seen.push(head).len() implies seen.push(head)[k2]
                            != x by {
                            if k2 < seen.len() {
                                assert(seen.push(head)[k2] == seen[k2]);
                            }
                        }
                        assert(d2.contains(x));
                        let m = choose|m: int| 0 <= m < d2.len() && d2[m] == x;
                        assert(d[m + 1] == x);
                    }
                }
            }
        }
    }
}

// ---------------------------------------------------------------------------
// The extractor
// ---------------------------------------------------------------------------

/// Whether `v` already holds a string whose characters are `x@`.
fn vec_contains_string(v: &Vec<String>, x: &String) -> (r: bool)
    ensures
        r == v.deep_view().contains(x@),
{
    let n = v.len();
    let mut i: usize = 0;
    while i < n
        invariant
            n == v@.len(),
            i <= n,
            forall|j: int| 0 <= j < i ==> v.deep_view()[j] != x@,
        decreases n - i,
    {
        if v[i].eq(x) {
            proof {
                assert(v.deep_view()[i as int] == x@);
            }
            return true;
        }
        proof {
            assert(v.deep_view()[i as int] == v@[i as int]@);
        }
        i = i + 1;
    }
    proof {
        assert(forall|j: int| 0 <= j < v.deep_view().len() ==> v.deep_view()[j] != x@);
    }
    false
}

/// Parse unified-diff text into `DiffStats`.
///
/// Each touched file appears once in `files_changed`, in first-appearance
/// order; `insertions` and `deletions` count the `+`/`-` content lines,
/// excluding the `+++`/`---` markers. An empty diff yields no files and zero
/// counts. A header line without a readable path is rejected.
pub fn parse_diff_stats(diff: &str) -> (r: GcopResult<DiffStats>)
    ensures
        ({
            let lines = spec_split_lines(diff@);
            match r {
                Ok(stats) => (forall|i: int|
                    0 <= i < lines.len() ==> !is_malformed_header_line(#[trigger] lines[i]))
                    && stats.files_changed.deep_view() == spec_dedup_first(
                    spec_header_paths(lines),
                    Seq::empty(),
                ) && stats.insertions == count_insertions(lines) && stats.deletions
                    == count_deletions(lines),
                Err(e) => (exists|i: int|
                    0 <= i < lines.len() && is_malformed_header_line(#[trigger] lines[i]))
                    && e@ == ErrorModel::InvalidInput("malformed diff header line"@),
            }
        }),
{
    let chars = str_to_chars(diff);
    let lines = split_char(&chars, '\n');
    let ghost lines_model = spec_split_lines(diff@);

    let header_full = str_to_chars("diff --git a/");
    let header_start = str_to_chars("diff --git ");
    let plus_marker = str_to_chars("+++");
    let minus_marker = str_to_chars("---");
    proof {
        reveal_strlit("diff --git a/");
        reveal_strlit("diff --git ");
        reveal_strlit("+++");
        reveal_strlit("---");
    }

    let mut files: Vec<String> = Vec::new();
    let mut insertions: usize = 0;
    let mut deletions: usize = 0;
    let n = lines.len();
    let mut i: usize = 0;
    proof {
        assert(lines_model.skip(0) =~= lines_model);
        assert(files.deep_view() =~= Seq::<Seq<char>>::empty());
        assert(files.deep_view() + spec_dedup_first(spec_header_paths(lines_model), files.deep_view())
            =~= spec_dedup_first(spec_header_paths(lines_model), Seq::empty()));
    }
    while i < n
        invariant
            n == lines@.len(),
            lines.deep_view() == lines_model,
            lines_model == spec_split_lines(diff@),
            i <= n,
            header_full@ == "diff --git a/"@,
            header_start@ == "diff --git "@,
            plus_marker@ == "+++"@,
            minus_marker@ == "---"@,
            "diff --git a/"@.len() == 13,
            forall|j: int| 0 <= j < i ==> !is_malformed_header_line(#[trigger] lines_model[j]),
            insertions + count_insertions(lines_model.skip(i as int)) == count_insertions(
                lines_model,
            ),
            deletions + count_deletions(lines_model.skip(i as int)) == count_deletions(
                lines_model,
            ),
            insertions <= i,
            deletions <= i,
            spec_dedup_first(spec_header_paths(lines_model), Seq::empty()) == files.deep_view()
                + spec_dedup_first(
                spec_header_paths(lines_model.skip(i as int)),
                files.deep_view(),
            ),
        decreases n - i,
    {
        let line = &lines[i];
        let ghost lm = lines_model[i as int];
        let ghost rest = lines_model.skip(i as int);
        proof {
            assert(lines.deep_view()[i as int] == lines@[i as int].deep_view());
            assert(lines@[i as int].deep_view() =~= lines@[i as int]@);
            assert(line@ == lm);
            assert(rest[0] == lm);
            assert(rest.skip(1) =~= lines_model.skip(i + 1));
            assert(count_insertions(rest) == (if is_insertion_line(lm) {
                1int
            } else {
                0int
            }) + count_insertions(lines_model.skip(i + 1)));
            assert(count_deletions(rest) == (if is_deletion_line(lm) {
                1int
            } else {
                0int
            }) + count_deletions(lines_model.skip(i + 1)));
        }
        if starts_with_chars(line, &header_start) {
            proof {
                reveal_strlit("diff --git ");
                assert(lm.subrange(0, 11)[0] == lm[0]);
                assert(lm[0] == "diff --git "@[0]);
                assert(!is_insertion_line(lm) && !is_deletion_line(lm));
            }
            if !starts_with_chars(line, &header_full) {
                proof {
                    assert(is_malformed_header_line(lines_model[i as int]));
                }
                return Err(GcopError::InvalidInput(String::from_str(
                    "malformed diff header line",
                )));
            }
            let path_chars = until_char(line, 13, ' ');
            proof {
                assert(line@.skip(13) =~= lm.skip(13));
                assert(path_chars@ == spec_header_path(lm));
            }
            if path_chars.len() == 0 {
                proof {
                    assert(is_malformed_header_line(lines_model[i as int]));
                }
                return Err(GcopError::InvalidInput(String::from_str(
                    "malformed diff header line",
                )));
            }
            let path = chars_to_string(&path_chars);
            let ghost p = spec_header_path(lm);
            let ghost hp_rest = spec_header_paths(lines_model.skip(i + 1));
            proof {
                assert(spec_header_paths(rest) =~= seq![p] + hp_rest);
                assert((seq![p] + hp_rest)[0] == p);
                assert((seq![p] + hp_rest).skip(1) =~= hp_rest);
            }
            let ghost old_files = files.deep_view();
            if !vec_contains_string(&files, &path) {
                proof {
                    assert(spec_dedup_first(spec_header_paths(rest), old_files) == seq![p]
                        + spec_dedup_first(hp_rest, old_files.push(p)));
                }
                files.push(path);
                proof {
                    assert(files.deep_view() =~= old_files.push(p));
                    assert(old_files + (seq![p] + spec_dedup_first(hp_rest, old_files.push(p)))
                        =~= old_files.push(p) + spec_dedup_first(hp_rest, old_files.push(p)));
                }
            } else {
                proof {
                    assert(spec_dedup_first(spec_header_paths(rest), old_files)
                        == spec_dedup_first(hp_rest, old_files));
                }
            }
        } else {
            proof {
                reveal_strlit("diff --git a/");
                reveal_strlit("diff --git ");
                if is_file_header_line(lm) {
                    assert(lm.subrange(0, 13) == "diff --git a/"@);
                    assert(lm.subrange(0, 11) =~= lm.subrange(0, 13).subrange(0, 11));
                    assert(lm.subrange(0, 13).subrange(0, 11) =~= "diff --git "@);
                    assert(starts_with(lm, "diff --git "@));
                }
                assert(!is_file_header_line(lm));
                assert(!is_malformed_header_line(lm));
                assert(spec_header_paths(rest) =~= spec_header_paths(rest.skip(1)));
            }
            if line.len() > 0 {
                let c = line[0];
                proof {
                    assert(lm[0] == line@[0]);
                }
                if c == '+' && !starts_with_chars(line, &plus_marker) {
                    insertions = insertions + 1;
                } else if c == '-' && !starts_with_chars(line, &minus_marker) {
                    deletions = deletions + 1;
                }
            }
        }
        i = i + 1;
    }
    proof {
        assert(lines_model.skip(n as int) =~= Seq::<Seq<char>>::empty());
        assert(files.deep_view() + spec_dedup_first(
            spec_header_paths(lines_model.skip(n as int)),
            files.deep_view(),
        ) =~= files.deep_view());
    }
    Ok(DiffStats { files_changed: files, insertions, deletions })
}

} // verus!
