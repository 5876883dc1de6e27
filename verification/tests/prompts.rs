use gcop_rs::prompt::{
    build_commit_prompt, build_review_prompt, CommitContext, ReviewType, DEFAULT_JSON_FORMAT,
};

fn sample_context() -> CommitContext {
    CommitContext {
        files_changed: vec!["src/a.rs".to_string(), "src/b.rs".to_string()],
        insertions: 12,
        deletions: 3,
        branch_name: Some("feature/login".to_string()),
        custom_prompt: None,
        user_feedback: vec![],
    }
}

#[test]
fn test_commit_prompt_substitutes_placeholders() {
    let ctx = sample_context();
    let template = "Diff: {diff} Files: {files_changed} +{insertions} -{deletions} on {branch_name} [{branch_info}]";
    let prompt = build_commit_prompt("DIFFTEXT", &ctx, Some(template));
    assert_eq!(
        prompt,
        "Diff: DIFFTEXT Files: src/a.rs, src/b.rs +12 -3 on feature/login [- Branch: feature/login]"
    );
}

#[test]
fn test_commit_prompt_without_branch() {
    let mut ctx = sample_context();
    ctx.branch_name = None;
    let template = "{diff}|{branch_name}|{branch_info}";
    let prompt = build_commit_prompt("D", &ctx, Some(template));
    assert_eq!(prompt, "D||");
}

#[test]
fn test_commit_prompt_unrecognized_placeholder_passes_through() {
    let ctx = sample_context();
    let template = "{diff} and {unknown_thing}";
    let prompt = build_commit_prompt("D", &ctx, Some(template));
    assert_eq!(prompt, "D and {unknown_thing}");
}

#[test]
fn test_commit_prompt_template_without_diff_gets_default_block() {
    let ctx = sample_context();
    let template = "Write a nice message.";
    let prompt = build_commit_prompt("DIFFTEXT", &ctx, Some(template));
    assert_eq!(
        prompt,
        "Write a nice message.\n\n## Git Diff:\n```\nDIFFTEXT\n```\n\n## Context:\n- Files: src/a.rs, src/b.rs\n- Changes: +12 -3"
    );
}

#[test]
fn test_commit_prompt_appends_numbered_feedback() {
    let mut ctx = sample_context();
    ctx.user_feedback = vec!["use Chinese".to_string(), "be concise".to_string()];
    let prompt = build_commit_prompt("D", &ctx, Some("{diff}"));
    assert_eq!(
        prompt,
        "D\n\n## Additional User Requirements:\n1. use Chinese\n2. be concise\n"
    );
}

#[test]
fn test_commit_prompt_default_template_mentions_counts() {
    let ctx = sample_context();
    let prompt = build_commit_prompt("THEDIFF", &ctx, None);
    assert!(prompt.contains("THEDIFF"));
    assert!(prompt.contains("- Files changed: src/a.rs, src/b.rs"));
    assert!(prompt.contains("- Insertions: 12"));
    assert!(prompt.contains("- Deletions: 3"));
    assert!(prompt.contains("- Branch: feature/login"));
}

#[test]
fn test_review_prompt_always_appends_json_directive() {
    let custom = "Look at this: {diff}";
    let prompt = build_review_prompt("DIFF", &ReviewType::UncommittedChanges, Some(custom));
    assert_eq!(prompt, format!("Look at this: DIFF\n\n{}", DEFAULT_JSON_FORMAT));
}

#[test]
fn test_review_prompt_custom_without_diff_gets_block() {
    let custom = "Just review.";
    let prompt = build_review_prompt("DIFF", &ReviewType::UncommittedChanges, Some(custom));
    assert_eq!(
        prompt,
        format!("Just review.\n\n## Code to Review:\n```\nDIFF\n```\n\n{}", DEFAULT_JSON_FORMAT)
    );
}

#[test]
fn test_review_prompt_default_template() {
    let prompt = build_review_prompt("DIFF", &ReviewType::FileOrDir("x".to_string()), None);
    assert!(prompt.contains("DIFF"));
    assert!(prompt.ends_with(DEFAULT_JSON_FORMAT));
}
