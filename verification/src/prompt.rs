//! The prompt builder: rendering commit and review prompts by textual
//! substitution of the recognized placeholders, with accumulated feedback
//! appended as a numbered list.

use vstd::prelude::*;
use crate::text::{
    contains_seq, spec_dec, spec_join, spec_replace, chars_to_string, contains_chars, join_strings,
    lemma_no_match_in_prefix, lemma_replace_concat_skip, lemma_replace_head, push_chars,
    push_str_chars, replace_chars, str_to_chars, usize_to_dec_chars,
};

verus! {

/// The template used for commit messages when no custom template is
/// configured.
pub const DEFAULT_COMMIT_PROMPT: &'static str = r#"You are an expert software engineer reviewing a git diff to generate a concise, informative commit message.

    ## Git Diff:
    ```
    {diff}
    ```

    ## Context:
    - Files changed: {files_changed}
    - Insertions: {insertions}
    - Deletions: {deletions}
    {branch_info}

    ## Instructions:
    1. Analyze the changes carefully
    2. Generate a commit message following conventional commits format
    3. First line: type(scope): brief summary (max 72 chars)
    4. Blank line
    5. Body: explain what and why (not how), if necessary
    6. Keep it concise but informative

    Common types: feat, fix, docs, style, refactor, test, chore

    Output only the commit message, no explanations."#;

/// The diff block appended to a custom commit template that lacks `{diff}`.
pub const COMMIT_DIFF_APPEND: &'static str = "\n\n## Git Diff:\n```\n{diff}\n```\n\n## Context:\n- Files: {files_changed}\n- Changes: +{insertions} -{deletions}";

/// The template used for reviews when no custom template is configured.
pub const DEFAULT_REVIEW_PROMPT: &'static str = r#"You are an expert in code review. Review the following code changes carefully.

    ## Code to Review:
    ```
    {diff}
    ```

    ## Review Criteria:
    1. **Correctness**: Are there any bugs or logical errors?
    2. **Security**: Are there any security vulnerabilities?
    3. **Performance**: Are there any performance issues?
    4. **Maintainability**: Is the code readable and maintainable?
    5. **Best Practices**: Does it follow best practices?"#;

/// The diff block appended to a custom review template that lacks `{diff}`.
pub const REVIEW_DIFF_APPEND: &'static str = "\n\n## Code to Review:\n```\n{diff}\n```";

/// The structured-output directive appended to every review prompt, because
/// response parsing depends on it.
pub const DEFAULT_JSON_FORMAT: &'static str = r#"## Output Format:
    Provide your review in JSON format
    Do not include any explanations outside the JSON structure. Format as follows:
    {{
    "summary": "Brief overall assessment",
    "issues": [
        {{
        "severity": "critical" | "warning" | "info",
        "description": "Issue description",
        "file": "filename (if applicable)",
        "line": line_number (if applicable)
        }}
    ],
    "suggestions": [
        "Improvement suggestion 1"
    ]
    }}

    If no issues found, return empty issues array but provide constructive suggestions."#;

/// The heading under which accumulated feedback is appended.
pub const FEEDBACK_HEADING: &'static str = "\n\n## Additional User Requirements:\n";

// ---------------------------------------------------------------------------
// Context
// ---------------------------------------------------------------------------

/// Model of a commit context: plain mathematical values.
pub struct ContextModel {
    pub files_changed: Seq<Seq<char>>,
    pub insertions: int,
    pub deletions: int,
    pub branch_name: Option<Seq<char>>,
    pub custom_prompt: Option<Seq<char>>,
    pub user_feedback: Seq<Seq<char>>,
}

/// Everything a commit prompt is built from. Rebuilt for every attempt; the
/// feedback is carried over by the state machine.
#[derive(Debug, Clone)]
pub struct CommitContext {
    pub files_changed: Vec<String>,
    pub insertions: usize,
    pub deletions: usize,
    pub branch_name: Option<String>,
    pub custom_prompt: Option<String>,
    pub user_feedback: Vec<String>,
}

impl View for CommitContext {
    type V = ContextModel;

    open spec fn view(&self) -> ContextModel {
        ContextModel {
            files_changed: self.files_changed.deep_view(),
            insertions: self.insertions as int,
            deletions: self.deletions as int,
            branch_name: self.branch_name.deep_view(),
            custom_prompt: self.custom_prompt.deep_view(),
            user_feedback: self.user_feedback.deep_view(),
        }
    }
}

impl Default for CommitContext {
    /// An empty context: no files, no counts, no branch, no feedback.
    fn default() -> (r: Self)
        ensures
            r@.files_changed == Seq::<Seq<char>>::empty(),
            r@.insertions == 0,
            r@.deletions == 0,
            r@.branch_name is None,
            r@.custom_prompt is None,
            r@.user_feedback == Seq::<Seq<char>>::empty(),
    {
        let r = CommitContext {
            files_changed: Vec::new(),
            insertions: 0,
            deletions: 0,
            branch_name: None,
            custom_prompt: None,
            user_feedback: Vec::new(),
        };
        proof {
            assert(r@.files_changed =~= Seq::<Seq<char>>::empty());
            assert(r@.user_feedback =~= Seq::<Seq<char>>::empty());
        }
        r
    }
}

/// What a review run looks at.
#[derive(Debug, Clone)]
pub enum ReviewType {
    UncommittedChanges,
    SingleCommit(String),
    CommitRange(String),
    FileOrDir(String),
}

// ---------------------------------------------------------------------------
// Specification
// ---------------------------------------------------------------------------

/// The branch line of the context section; empty when the branch is unknown.
pub open spec fn spec_branch_info(branch: Option<Seq<char>>) -> Seq<char> {
    match branch {
        Some(b) => "- Branch: "@ + b,
        None => Seq::empty(),
    }
}

/// The template a commit prompt starts from: the custom one (completed with
/// the default diff block when it lacks `{diff}`), or the default.
pub open spec fn spec_commit_template(custom: Option<Seq<char>>) -> Seq<char> {
    match custom {
        Some(t) => if !contains_seq(t, "{diff}"@) {
            t + COMMIT_DIFF_APPEND@
        } else {
            t
        },
        None => DEFAULT_COMMIT_PROMPT@,
    }
}

/// Substitute the six recognized placeholders, in order; unrecognized
/// placeholders pass through unchanged.
pub open spec fn spec_substitute(template: Seq<char>, diff: Seq<char>, ctx: ContextModel) -> Seq<
    char,
> {
    spec_replace(
        spec_replace(
            spec_replace(
                spec_replace(
                    spec_replace(
                        spec_replace(template, "{diff}"@, diff),
                        "{files_changed}"@,
                        spec_join(ctx.files_changed, ", "@),
                    ),
                    "{insertions}"@,
                    spec_dec(ctx.insertions),
                ),
                "{deletions}"@,
                spec_dec(ctx.deletions),
            ),
            "{branch_name}"@,
            match ctx.branch_name {
                Some(b) => b,
                None => Seq::empty(),
            },
        ),
        "{branch_info}"@,
        spec_branch_info(ctx.branch_name),
    )
}

/// The numbered feedback items starting at number `idx`.
pub open spec fn spec_feedback_items(fb: Seq<Seq<char>>, idx: int) -> Seq<char>
    decreases fb.len(),
{
    if fb.len() == 0 {
        Seq::empty()
    } else {
        spec_dec(idx) + ". "@ + fb[0] + "\n"@ + spec_feedback_items(fb.skip(1), idx + 1)
    }
}

/// The feedback section: a heading and the numbered items; omitted entirely
/// when no feedback has accumulated.
pub open spec fn spec_feedback_section(fb: Seq<Seq<char>>) -> Seq<char> {
    if fb.len() == 0 {
        Seq::empty()
    } else {
        FEEDBACK_HEADING@ + spec_feedback_items(fb, 1)
    }
}

/// A commit prompt: the chosen template with placeholders substituted,
/// followed by the feedback section.
pub open spec fn spec_build_commit_prompt(
    diff: Seq<char>,
    ctx: ContextModel,
    custom: Option<Seq<char>>,
) -> Seq<char> {
    spec_substitute(spec_commit_template(custom), diff, ctx) + spec_feedback_section(
        ctx.user_feedback,
    )
}

/// A review prompt: the chosen template (completed with the diff block when
/// it lacks `{diff}`), always followed by the structured-output directive,
/// with the diff substituted last.
pub open spec fn spec_build_review_prompt(diff: Seq<char>, custom: Option<Seq<char>>) -> Seq<
    char,
> {
    let t0 = match custom {
        Some(t) => t,
        None => DEFAULT_REVIEW_PROMPT@,
    };
    let t1 = if !contains_seq(t0, "{diff}"@) {
        t0 + REVIEW_DIFF_APPEND@
    } else {
        t0
    };
    spec_replace(t1 + "\n\n"@ + DEFAULT_JSON_FORMAT@, "{diff}"@, diff)
}

// ---------------------------------------------------------------------------
// Laws
// ---------------------------------------------------------------------------

/// Law: a custom template holding none of the recognized placeholders builds
/// to itself concatenated with the default diff block (that block's own
/// placeholders substituted), as long as no feedback has accumulated — with
/// feedback, the numbered feedback section follows as well.
pub proof fn lemma_template_without_placeholders(
    diff: Seq<char>,
    ctx: ContextModel,
    t: Seq<char>,
)
    requires
        ctx.user_feedback.len() == 0,
        !contains_seq(t, "{diff}"@),
        !contains_seq(t, "{files_changed}"@),
        !contains_seq(t, "{insertions}"@),
        !contains_seq(t, "{deletions}"@),
        !contains_seq(t, "{branch_name}"@),
        !contains_seq(t, "{branch_info}"@),
    ensures
        spec_build_commit_prompt(diff, ctx, Some(t)) == t + spec_substitute(
            COMMIT_DIFF_APPEND@,
            diff,
            ctx,
        ),
{
    reveal_strlit("{diff}");
    reveal_strlit("{files_changed}");
    reveal_strlit("{insertions}");
    reveal_strlit("{deletions}");
    reveal_strlit("{branch_name}");
    reveal_strlit("{branch_info}");
    reveal_strlit(
        "\n\n## Git Diff:\n```\n{diff}\n```\n\n## Context:\n- Files: {files_changed}\n- Changes: +{insertions} -{deletions}",
    );
    let p1 = "{diff}"@;
    let p2 = "{files_changed}"@;
    let p3 = "{insertions}"@;
    let p4 = "{deletions}"@;
    let p5 = "{branch_name}"@;
    let p6 = "{branch_info}"@;
    let r1 = diff;
    let r2 = spec_join(ctx.files_changed, ", "@);
    let r3 = spec_dec(ctx.insertions);
    let r4 = spec_dec(ctx.deletions);
    let r5 = match ctx.branch_name {
        Some(b) => b,
        None => Seq::<char>::empty(),
    };
    let r6 = spec_branch_info(ctx.branch_name);
    assert(forall|k: int| 0 <= k < p1.len() ==> p1[k] != '\n');
    assert(forall|k: int| 0 <= k < p2.len() ==> p2[k] != '\n');
    assert(forall|k: int| 0 <= k < p3.len() ==> p3[k] != '\n');
    assert(forall|k: int| 0 <= k < p4.len() ==> p4[k] != '\n');
    assert(forall|k: int| 0 <= k < p5.len() ==> p5[k] != '\n');
    assert(forall|k: int| 0 <= k < p6.len() ==> p6[k] != '\n');

    let a0 = COMMIT_DIFF_APPEND@;
    assert(a0.len() > 0 && a0[0] == '\n');
    lemma_no_match_in_prefix(t, a0, p1);
    lemma_replace_concat_skip(t, a0, p1, r1);
    lemma_replace_head(a0, p1, r1);
    let a1 = spec_replace(a0, p1, r1);
    lemma_no_match_in_prefix(t, a1, p2);
    lemma_replace_concat_skip(t, a1, p2, r2);
    lemma_replace_head(a1, p2, r2);
    let a2 = spec_replace(a1, p2, r2);
    lemma_no_match_in_prefix(t, a2, p3);
    lemma_replace_concat_skip(t, a2, p3, r3);
    lemma_replace_head(a2, p3, r3);
    let a3 = spec_replace(a2, p3, r3);
    lemma_no_match_in_prefix(t, a3, p4);
    lemma_replace_concat_skip(t, a3, p4, r4);
    lemma_replace_head(a3, p4, r4);
    let a4 = spec_replace(a3, p4, r4);
    lemma_no_match_in_prefix(t, a4, p5);
    lemma_replace_concat_skip(t, a4, p5, r5);
    lemma_replace_head(a4, p5, r5);
    let a5 = spec_replace(a4, p5, r5);
    lemma_no_match_in_prefix(t, a5, p6);
    lemma_replace_concat_skip(t, a5, p6, r6);
    let a6 = spec_replace(a5, p6, r6);

    assert(spec_commit_template(Some(t)) == t + a0);
    assert(spec_substitute(t + a0, diff, ctx) == t + a6);
    assert(spec_feedback_section(ctx.user_feedback) == Seq::<char>::empty());
    assert((t + a6) + Seq::<char>::empty() =~= t + a6);
}

// ---------------------------------------------------------------------------
// Executable builders
// ---------------------------------------------------------------------------

/// Build the prompt for generating a commit message.
pub fn build_commit_prompt(diff: &str, context: &CommitContext, custom_template: Option<&str>)
    -> (r: String)
    ensures
        r@ == spec_build_commit_prompt(diff@, context@, custom_template.deep_view()),
{
    proof {
        reveal_strlit("{diff}");
        reveal_strlit("{files_changed}");
        reveal_strlit("{insertions}");
        reveal_strlit("{deletions}");
        reveal_strlit("{branch_name}");
        reveal_strlit("{branch_info}");
    }
    let pat_diff = str_to_chars("{diff}");
    let pat_files = str_to_chars("{files_changed}");
    let pat_ins = str_to_chars("{insertions}");
    let pat_del = str_to_chars("{deletions}");
    let pat_branch = str_to_chars("{branch_name}");
    let pat_binfo = str_to_chars("{branch_info}");

    let template: Vec<char> = match custom_template {
        Some(t) => {
            let mut tc = str_to_chars(t);
            if !contains_chars(&tc, &pat_diff) {
                push_str_chars(&mut tc, COMMIT_DIFF_APPEND);
            }
            tc
        },
        None => str_to_chars(DEFAULT_COMMIT_PROMPT),
    };

    let diff_chars = str_to_chars(diff);
    let files_joined = join_strings(&context.files_changed, ", ");
    let ins_chars = usize_to_dec_chars(context.insertions);
    let del_chars = usize_to_dec_chars(context.deletions);
    let branch_chars: Vec<char> = match &context.branch_name {
        Some(b) => str_to_chars(b.as_str()),
        None => Vec::new(),
    };
    let branch_info: Vec<char> = match &context.branch_name {
        Some(b) => {
            let mut bi = str_to_chars("- Branch: ");
            push_str_chars(&mut bi, b.as_str());
            bi
        },
        None => Vec::new(),
    };
    proof {
        if context.branch_name is None {
            assert(branch_chars@ =~= Seq::<char>::empty());
            assert(branch_info@ =~= spec_branch_info(context@.branch_name));
        }
    }

    let s1 = replace_chars(&template, &pat_diff, &diff_chars);
    let s2 = replace_chars(&s1, &pat_files, &files_joined);
    let s3 = replace_chars(&s2, &pat_ins, &ins_chars);
    let s4 = replace_chars(&s3, &pat_del, &del_chars);
    let s5 = replace_chars(&s4, &pat_branch, &branch_chars);
    let mut prompt = replace_chars(&s5, &pat_binfo, &branch_info);

    let ghost subst = prompt@;
    let nfb = context.user_feedback.len();
    let ghost fbm = context.user_feedback.deep_view();
    if nfb > 0 {
        push_str_chars(&mut prompt, FEEDBACK_HEADING);
        let ghost base = prompt@;
        let ghost mut acc: Seq<char> = Seq::empty();
        let mut k: usize = 0;
        proof {
            assert(fbm.skip(0) =~= fbm);
            assert(prompt@ =~= base + acc);
            assert(acc + spec_feedback_items(fbm, 1) =~= spec_feedback_items(fbm, 1));
        }
        while k < nfb
            invariant
                nfb == context.user_feedback@.len(),
                fbm == context.user_feedback.deep_view(),
                k <= nfb,
                prompt@ == base + acc,
                spec_feedback_items(fbm, 1) == acc + spec_feedback_items(
                    fbm.skip(k as int),
                    k + 1,
                ),
            decreases nfb - k,
        {
            let ghost rest = fbm.skip(k as int);
            proof {
                assert(rest[0] == fbm[k as int]);
                assert(rest.skip(1) =~= fbm.skip(k + 1));
                assert(fbm[k as int] == context.user_feedback@[k as int]@);
            }
            let num = usize_to_dec_chars(k + 1);
            push_chars(&mut prompt, &num);
            push_str_chars(&mut prompt, ". ");
            push_str_chars(&mut prompt, context.user_feedback[k].as_str());
            push_str_chars(&mut prompt, "\n");
            proof {
                let added = spec_dec(k + 1) + ". "@ + fbm[k as int] + "\n"@;
                assert(prompt@ =~= base + (acc + added));
                assert((acc + added) + spec_feedback_items(fbm.skip(k + 1), k + 2)
                    =~= acc + (added + spec_feedback_items(fbm.skip(k + 1), k + 2)));
                assert(added + spec_feedback_items(fbm.skip(k + 1), k + 2)
                    =~= spec_feedback_items(fbm.skip(k as int), k + 1));
                acc = acc + added;
            }
            k = k + 1;
        }
        proof {
            assert(fbm.skip(nfb as int) =~= Seq::<Seq<char>>::empty());
            assert(acc + spec_feedback_items(fbm.skip(nfb as int), nfb + 1) =~= acc);
            assert(prompt@ =~= subst + (FEEDBACK_HEADING@ + spec_feedback_items(fbm, 1)));
        }
    }
    proof {
        if fbm.len() == 0 {
            assert(prompt@ =~= prompt@ + spec_feedback_section(fbm));
        }
    }
    chars_to_string(&prompt)
}

/// Build the prompt for a code review.
pub fn build_review_prompt(diff: &str, _review_type: &ReviewType, custom_template: Option<&str>)
    -> (r: String)
    ensures
        r@ == spec_build_review_prompt(diff@, custom_template.deep_view()),
{
    proof {
        reveal_strlit("{diff}");
    }
    let pat_diff = str_to_chars("{diff}");
    let mut template: Vec<char> = match custom_template {
        Some(t) => str_to_chars(t),
        None => str_to_chars(DEFAULT_REVIEW_PROMPT),
    };
    if !contains_chars(&template, &pat_diff) {
        push_str_chars(&mut template, REVIEW_DIFF_APPEND);
    }
    push_str_chars(&mut template, "\n\n");
    push_str_chars(&mut template, DEFAULT_JSON_FORMAT);
    let diff_chars = str_to_chars(diff);
    let out = replace_chars(&template, &pat_diff, &diff_chars);
    chars_to_string(&out)
}

} // verus!
