//! Cleaning and reading backend responses: the structured review result, the
//! JSON cleanup that defends against wrapping prose and code fences, and the
//! plain-value extraction each backend family needs.

use vstd::prelude::*;
use crate::error::{GcopError, GcopResult};
use crate::text::{
    ends_with, is_space_char, spec_find_char, spec_rfind_char, spec_trim, spec_trim_end,
    spec_trim_start, starts_with, trim_start_amount, chars_eq, copy_range, find_char, is_space,
    join_strings, lemma_find_char, lemma_rfind_char, lemma_trim_end_take, lemma_trim_shape,
    lemma_trim_start_skip, push_str_chars, rfind_char, starts_with_chars, str_to_chars,
    chars_to_string, spec_join,
};

verus! {

/// How many characters of a raw response an error preview keeps.
pub const ERROR_PREVIEW_LENGTH: usize = 500;

/// How severe a review issue is.
#[derive(Debug, Clone, Copy, PartialEq, Eq, Structural)]
pub enum IssueSeverity {
    Critical,
    Warning,
    Info,
}

/// One issue a review found.
#[derive(Debug, Clone)]
pub struct ReviewIssue {
    pub severity: IssueSeverity,
    pub description: String,
    pub file: Option<String>,
    pub line: Option<usize>,
}

/// A structured review: a summary, the issues found, and suggestions.
/// Immutable once produced.
#[derive(Debug, Clone)]
pub struct ReviewResult {
    pub summary: String,
    pub issues: Vec<ReviewIssue>,
    pub suggestions: Vec<String>,
}

/// Read a severity as the wire format spells it.
pub fn parse_severity(s: &str) -> (r: Option<IssueSeverity>)
    ensures
        s@ == "critical"@ ==> r == Some(IssueSeverity::Critical),
        s@ == "warning"@ ==> r == Some(IssueSeverity::Warning),
        s@ == "info"@ ==> r == Some(IssueSeverity::Info),
        s@ != "critical"@ && s@ != "warning"@ && s@ != "info"@ ==> r is None,
{
    proof {
        reveal_strlit("critical");
        reveal_strlit("warning");
        reveal_strlit("info");
        assert("critical"@.len() == 8);
        assert("warning"@.len() == 7);
        assert("info"@.len() == 4);
    }
    let sc = str_to_chars(s);
    let critical = str_to_chars("critical");
    let warning = str_to_chars("warning");
    let info = str_to_chars("info");
    if chars_eq(&sc, &critical) {
        Some(IssueSeverity::Critical)
    } else if chars_eq(&sc, &warning) {
        Some(IssueSeverity::Warning)
    } else if chars_eq(&sc, &info) {
        Some(IssueSeverity::Info)
    } else {
        None
    }
}

// ---------------------------------------------------------------------------
// JSON cleanup
// ---------------------------------------------------------------------------

/// The fallback cleanup: strip a leading code-fence marker (with or without
/// a language tag), then a trailing one, then surrounding whitespace.
pub open spec fn spec_strip_markers(t: Seq<char>) -> Seq<char> {
    let wp = if starts_with(t, "```json"@) {
        spec_trim_start(t.skip("```json"@.len() as int))
    } else if starts_with(t, "```JSON"@) {
        spec_trim_start(t.skip("```JSON"@.len() as int))
    } else if starts_with(t, "```"@) {
        spec_trim_start(t.skip("```"@.len() as int))
    } else {
        t
    };
    let ws = if ends_with(wp, "```"@) {
        spec_trim_end(wp.take(wp.len() - "```"@.len()))
    } else {
        wp
    };
    spec_trim(ws)
}

/// Cleaning a response: after trimming, prefer the substring between the
/// first `{` and the last `}`; otherwise fall back to stripping code-fence
/// markers.
pub open spec fn spec_clean_json(s: Seq<char>) -> Seq<char> {
    let t = spec_trim(s);
    match (spec_find_char(t, '{'), spec_rfind_char(t, '}')) {
        (Some(a), Some(b)) => if a < b {
            t.subrange(a, b + 1)
        } else {
            spec_strip_markers(t)
        },
        _ => spec_strip_markers(t),
    }
}

/// Clean a raw response so that it can be parsed as JSON.
#[verifier::rlimit(80)]
pub fn clean_json_response(response: &str) -> (r: &str)
    ensures
        r@ == spec_clean_json(response@),
{
    proof {
        reveal_strlit("```json");
        reveal_strlit("```JSON");
        reveal_strlit("```");
    }
    let chars = str_to_chars(response);
    let n = chars.len();
    let mut ta: usize = 0;
    while ta < n && is_space(chars[ta])
        invariant
            n == chars@.len(),
            ta <= n,
            forall|j: int| 0 <= j < ta ==> is_space_char(chars@[j]),
        decreases n - ta,
    {
        ta = ta + 1;
    }
    let mut tb: usize = n;
    while tb > ta && is_space(chars[tb - 1])
        invariant
            n == chars@.len(),
            ta <= tb <= n,
            forall|j: int| tb <= j < n ==> is_space_char(chars@[j]),
        decreases tb,
    {
        tb = tb - 1;
    }
    let ghost t = response@.subrange(ta as int, tb as int);
    proof {
        lemma_trim_start_skip(response@, ta as int);
        let u = response@.skip(ta as int);
        assert forall|j: int| (tb - ta) <= j < u.len() implies is_space_char(u[j]) by {
            assert(u[j] == response@[j + ta]);
        }
        if tb > ta {
            assert(u[tb - ta - 1] == response@[tb - 1]);
        }
        lemma_trim_end_take(u, tb - ta);
        assert(u.take(tb - ta) =~= t);
        assert(spec_trim(response@) == t);
    }
    let tvec = copy_range(&chars, ta, tb);
    proof {
        assert(tvec@ =~= t);
        lemma_find_char(tvec@, '{');
        lemma_rfind_char(tvec@, '}');
    }
    let fa = find_char(&tvec, '{');
    let fb = rfind_char(&tvec, '}');
    match (fa, fb) {
        (Some(a), Some(b)) => {
            if a < b {
                proof {
                    assert(t.subrange(a as int, b + 1) =~= response@.subrange(
                        ta + a,
                        ta + b + 1,
                    ));
                }
                return response.substring_char(ta + a, ta + b + 1);
            }
        },
        _ => {},
    }
    let (lo, hi) = strip_markers_window(&tvec);
    proof {
        assert(tvec@.subrange(lo as int, hi as int) =~= response@.subrange(ta + lo, ta + hi));
    }
    return response.substring_char(ta + lo, ta + hi);
}

/// The fallback cleanup on the trimmed window: the bounds of the window
/// that remains after stripping fence markers and whitespace.
#[verifier::rlimit(80)]
fn strip_markers_window(tvec: &Vec<char>) -> (r: (usize, usize))
    ensures
        r.0 <= r.1 <= tvec@.len(),
        tvec@.subrange(r.0 as int, r.1 as int) == spec_strip_markers(tvec@),
{
    proof {
        reveal_strlit("```json");
        reveal_strlit("```JSON");
        reveal_strlit("```");
    }
    let ghost t = tvec@;
    let fence_json = str_to_chars("```json");
    let fence_json_upper = str_to_chars("```JSON");
    let fence = str_to_chars("```");
    let mut lo: usize = 0;
    let mut hi: usize = tvec.len();
    let stripped: bool;
    if starts_with_chars(tvec, &fence_json) {
        lo = 7;
        stripped = true;
    } else if starts_with_chars(tvec, &fence_json_upper) {
        lo = 7;
        stripped = true;
    } else if starts_with_chars(tvec, &fence) {
        lo = 3;
        stripped = true;
    } else {
        stripped = false;
    }
    let ghost lo_strip = lo as int;
    if stripped {
        while lo < hi && is_space(tvec[lo])
            invariant
                hi == tvec@.len(),
                lo_strip <= lo as int <= hi as int,
                forall|j: int| lo_strip <= j < lo as int ==> is_space_char(tvec@[j]),
            decreases hi - lo,
        {
            lo = lo + 1;
        }
        proof {
            let v = t.skip(lo_strip);
            assert forall|j: int| 0 <= j < (lo - lo_strip) implies is_space_char(v[j]) by {
                assert(v[j] == t[j + lo_strip]);
            }
            if (lo as int) < hi as int {
                assert(v[lo - lo_strip] == t[lo as int]);
            }
            lemma_trim_start_skip(v, lo - lo_strip);
            assert(v.skip(lo - lo_strip) =~= t.skip(lo as int));
        }
    }
    let ghost wp = t.skip(lo as int);
    proof {
        if !stripped {
            assert(t.skip(0) =~= t);
        }
    }
    proof {
        assert(tvec@.subrange(lo as int, hi as int) =~= wp);
    }
    // wp is the window after the leading marker; strip a trailing fence.
    if hi - lo >= 3 && ends_with_fence(&tvec, &fence, lo, hi) {
        hi = hi - 3;
        let ghost cut = wp.take(wp.len() - 3);
        proof {
            assert(cut =~= t.subrange(lo as int, hi as int));
        }
        let ghost hi_cut = hi as int;
        while hi > lo && is_space(tvec[hi - 1])
            invariant
                lo as int <= hi as int <= hi_cut,
                hi_cut <= tvec@.len(),
                forall|j: int| hi as int <= j < hi_cut ==> is_space_char(tvec@[j]),
            decreases hi,
        {
            hi = hi - 1;
        }
        proof {
            let v = t.subrange(lo as int, hi_cut);
            assert forall|j: int| (hi as int - lo as int) <= j < v.len() implies is_space_char(
                v[j],
            ) by {
                assert(v[j] == t[j + lo as int]);
            }
            if hi > lo {
                assert(v[hi - lo - 1] == t[hi - 1]);
            }
            lemma_trim_end_take(v, hi as int - lo as int);
            assert(v.take(hi as int - lo as int) =~= t.subrange(lo as int, hi as int));
        }
    }
    let ghost ws = if ends_with(wp, "```"@) {
        spec_trim_end(wp.take(wp.len() - 3))
    } else {
        wp
    };
    proof {
        assert(ws =~= t.subrange(lo as int, hi as int));
    }
    // Final trim of the remaining window.
    let ghost lo_pre = lo as int;
    while lo < hi && is_space(tvec[lo])
        invariant
            lo_pre <= lo as int <= hi as int,
            hi as int <= tvec@.len(),
            forall|j: int| lo_pre <= j < lo as int ==> is_space_char(tvec@[j]),
        decreases hi - lo,
    {
        lo = lo + 1;
    }
    proof {
        assert forall|j: int| 0 <= j < (lo - lo_pre) implies is_space_char(ws[j]) by {
            assert(ws[j] == t[j + lo_pre]);
        }
        if (lo as int) < hi as int {
            assert(ws[lo - lo_pre] == t[lo as int]);
        }
        lemma_trim_start_skip(ws, lo - lo_pre);
        assert(ws.skip(lo - lo_pre) =~= t.subrange(lo as int, hi as int));
    }
    let ghost started = spec_trim_start(ws);
    let ghost hi_pre = hi as int;
    while hi > lo && is_space(tvec[hi - 1])
        invariant
            lo as int <= hi as int <= hi_pre,
            hi_pre <= tvec@.len(),
            forall|j: int| hi as int <= j < hi_pre ==> is_space_char(tvec@[j]),
        decreases hi,
    {
        hi = hi - 1;
    }
    proof {
        assert forall|j: int| (hi as int - lo as int) <= j < started.len() implies is_space_char(
            started[j],
        ) by {
            assert(started[j] == t[j + lo as int]);
        }
        if hi > lo {
            assert(started[hi - lo - 1] == t[hi - 1]);
        }
        lemma_trim_end_take(started, hi as int - lo as int);
        assert(started.take(hi as int - lo as int) =~= t.subrange(lo as int, hi as int));
        assert(spec_strip_markers(t) == t.subrange(lo as int, hi as int));
    }
    (lo, hi)
}

/// Law: a JSON object wrapped in prose before its first brace and in text
/// without closing braces after it cleans to exactly the bare object, which
/// cleans to itself — so both parse to the same result.
pub proof fn lemma_clean_json_ignores_wrapping(
    prefix: Seq<char>,
    body: Seq<char>,
    suffix: Seq<char>,
)
    requires
        body.len() >= 2,
        body[0] == '{',
        body[body.len() - 1] == '}',
        forall|k: int| 0 <= k < prefix.len() ==> prefix[k] != '{',
        forall|k: int| 0 <= k < suffix.len() ==> suffix[k] != '}',
    ensures
        spec_clean_json(prefix + body + suffix) == body,
        spec_clean_json(body) == body,
{
    let w = prefix + body + suffix;
    let p = prefix.len() as int;
    let bl = body.len() as int;
    lemma_trim_shape(w);
    let a0 = trim_start_amount(w);
    let t = spec_trim(w);
    assert(w[p] == body[0]);
    assert(w[p + bl - 1] == body[bl - 1]);
    assert(!is_space_char('{') && !is_space_char('}'));
    assert(a0 <= p);
    assert(a0 + t.len() >= p + bl);
    let q = p - a0;
    let m = p + bl - 1 - a0;
    assert(t[q] == w[p]);
    assert(t[m] == w[p + bl - 1]);
    lemma_find_char(t, '{');
    match spec_find_char(t, '{') {
        None => {
            assert(false);
        },
        Some(i) => {
            if i < q {
                assert(t[i] == w[i + a0]);
                assert(i + a0 < p);
                assert(false);
            }
            assert(i == q);
        },
    }
    lemma_rfind_char(t, '}');
    match spec_rfind_char(t, '}') {
        None => {
            assert(false);
        },
        Some(i) => {
            if i > m {
                assert(t[i] == w[i + a0]);
                assert(i + a0 >= p + bl);
                assert(false);
            }
            assert(i == m);
        },
    }
    assert(t.subrange(q, m + 1) =~= body);

    lemma_trim_shape(body);
    let a1 = trim_start_amount(body);
    let tb = spec_trim(body);
    assert(a1 == 0);
    assert(a1 + tb.len() == body.len());
    assert(tb =~= body);
    lemma_find_char(body, '{');
    match spec_find_char(body, '{') {
        None => {
            assert(false);
        },
        Some(i) => {
            assert(i == 0);
        },
    }
    lemma_rfind_char(body, '}');
    match spec_rfind_char(body, '}') {
        None => {
            assert(false);
        },
        Some(i) => {
            assert(i == bl - 1);
        },
    }
    assert(body.subrange(0, bl) =~= body);
}

// ---------------------------------------------------------------------------
// Plain-value extraction per backend family
// ---------------------------------------------------------------------------

/// Model of a typed content block.
pub struct BlockModel {
    pub content_type: Seq<char>,
    pub text: Seq<char>,
}

/// One typed content block of a message-array style response.
#[derive(Debug, Clone)]
pub struct ContentBlock {
    pub content_type: String,
    pub text: String,
}

impl View for ContentBlock {
    type V = BlockModel;

    open spec fn view(&self) -> BlockModel {
        BlockModel { content_type: self.content_type@, text: self.text@ }
    }
}

impl DeepView for ContentBlock {
    type V = BlockModel;

    open spec fn deep_view(&self) -> BlockModel {
        self.view()
    }
}

/// The texts of the blocks whose type is `text`, in order.
pub open spec fn spec_text_parts(bs: Seq<BlockModel>) -> Seq<Seq<char>>
    decreases bs.len(),
{
    if bs.len() == 0 {
        Seq::empty()
    } else {
        (if bs[0].content_type == "text"@ {
            seq![bs[0].text]
        } else {
            Seq::<Seq<char>>::empty()
        }) + spec_text_parts(bs.skip(1))
    }
}

/// The message a message-array style response carries: the text blocks'
/// texts joined by newlines, other block types skipped.
pub fn extract_message_text(blocks: &Vec<ContentBlock>) -> (r: String)
    ensures
        r@ == spec_join(spec_text_parts(blocks.deep_view()), "\n"@),
{
    let ghost bm = blocks.deep_view();
    let text_tag = str_to_chars("text");
    let mut texts: Vec<String> = Vec::new();
    let n = blocks.len();
    let mut k: usize = 0;
    proof {
        assert(bm.skip(0) =~= bm);
        assert(texts.deep_view() =~= Seq::<Seq<char>>::empty());
        assert(texts.deep_view() + spec_text_parts(bm) =~= spec_text_parts(bm));
    }
    while k < n
        invariant
            n == blocks@.len(),
            bm == blocks.deep_view(),
            text_tag@ == "text"@,
            k <= n,
            spec_text_parts(bm) == texts.deep_view() + spec_text_parts(bm.skip(k as int)),
        decreases n - k,
    {
        let ghost rest = bm.skip(k as int);
        proof {
            assert(bm[k as int] == blocks@[k as int].deep_view());
            assert(rest[0] == bm[k as int]);
            assert(rest.skip(1) =~= bm.skip(k + 1));
        }
        let tag_chars = str_to_chars(blocks[k].content_type.as_str());
        let ghost old_texts = texts.deep_view();
        if chars_eq(&tag_chars, &text_tag) {
            texts.push(blocks[k].text.clone());
            proof {
                assert(texts.deep_view() =~= old_texts.push(bm[k as int].text));
                assert(old_texts + (seq![bm[k as int].text] + spec_text_parts(bm.skip(k + 1)))
                    =~= texts.deep_view() + spec_text_parts(bm.skip(k + 1)));
            }
        } else {
            proof {
                assert(Seq::<Seq<char>>::empty() + spec_text_parts(bm.skip(k + 1))
                    =~= spec_text_parts(bm.skip(k + 1)));
            }
        }
        k = k + 1;
    }
    proof {
        assert(bm.skip(n as int) =~= Seq::<BlockModel>::empty());
        assert(texts.deep_view() + spec_text_parts(bm.skip(n as int)) =~= texts.deep_view());
    }
    let joined = join_strings(&texts, "\n");
    chars_to_string(&joined)
}

/// The message a choices-style response carries: the first choice's content.
/// An empty choices list is a distinct error, never silently an empty string.
pub fn first_choice_content(choices: Vec<String>) -> (r: GcopResult<String>)
    ensures
        choices.deep_view().len() > 0 ==> (r matches Ok(c) && c@ == choices.deep_view()[0]),
        choices.deep_view().len() == 0 ==> (r matches Err(e) && e@
            == crate::error::ErrorModel::Llm("OpenAI response contains no choices"@)),
{
    let mut v = choices;
    if v.len() > 0 {
        Ok(v.remove(0))
    } else {
        Err(GcopError::Llm(String::from_str("OpenAI response contains no choices")))
    }
}

/// Concatenation of streamed chunks.
pub open spec fn spec_concat_chunks(cs: Seq<Seq<char>>) -> Seq<char>
    decreases cs.len(),
{
    if cs.len() == 0 {
        Seq::empty()
    } else {
        cs[0] + spec_concat_chunks(cs.skip(1))
    }
}

/// Fold an ordered sequence of streamed chunks into the final message.
pub fn fold_stream_chunks(chunks: &Vec<String>) -> (r: String)
    ensures
        r@ == spec_concat_chunks(chunks.deep_view()),
{
    let ghost cm = chunks.deep_view();
    let mut out: Vec<char> = Vec::new();
    let n = chunks.len();
    let mut k: usize = 0;
    proof {
        assert(cm.skip(0) =~= cm);
        assert(out@ + spec_concat_chunks(cm) =~= spec_concat_chunks(cm));
    }
    while k < n
        invariant
            n == chunks@.len(),
            cm == chunks.deep_view(),
            k <= n,
            spec_concat_chunks(cm) == out@ + spec_concat_chunks(cm.skip(k as int)),
        decreases n - k,
    {
        let ghost rest = cm.skip(k as int);
        proof {
            assert(cm[k as int] == chunks@[k as int]@);
            assert(rest[0] == cm[k as int]);
            assert(rest.skip(1) =~= cm.skip(k + 1));
        }
        let ghost old_out = out@;
        push_str_chars(&mut out, chunks[k].as_str());
        proof {
            assert(old_out + (cm[k as int] + spec_concat_chunks(cm.skip(k + 1))) =~= out@
                + spec_concat_chunks(cm.skip(k + 1)));
        }
        k = k + 1;
    }
    proof {
        assert(cm.skip(n as int) =~= Seq::<Seq<char>>::empty());
        assert(out@ + spec_concat_chunks(cm.skip(n as int)) =~= out@);
    }
    chars_to_string(&out)
}

/// The bounded preview of a raw response kept in error messages.
pub open spec fn spec_preview(s: Seq<char>) -> Seq<char> {
    if s.len() > ERROR_PREVIEW_LENGTH {
        s.take(ERROR_PREVIEW_LENGTH as int) + "..."@
    } else {
        s
    }
}

/// Truncate a raw response for an error preview.
pub fn truncate_for_preview(s: &str) -> (r: String)
    ensures
        r@ == spec_preview(s@),
{
    let n = s.unicode_len();
    if n > ERROR_PREVIEW_LENGTH {
        let chars = str_to_chars(s);
        let mut out = copy_range(&chars, 0, ERROR_PREVIEW_LENGTH);
        push_str_chars(&mut out, "...");
        proof {
            assert(out@ =~= s@.take(ERROR_PREVIEW_LENGTH as int) + "..."@);
        }
        chars_to_string(&out)
    } else {
        s.to_owned()
    }
}

/// The error reported when a review response cannot be parsed: the parser's
/// message plus a bounded preview of the raw response.
pub fn review_parse_error(err: &str, response: &str) -> (r: GcopError)
    ensures
        r@ == crate::error::ErrorModel::Llm(
            "Failed to parse review result: "@ + err@ + ". Response preview: "@ + spec_preview(
                response@,
            ),
        ),
{
    let mut msg: Vec<char> = Vec::new();
    push_str_chars(&mut msg, "Failed to parse review result: ");
    push_str_chars(&mut msg, err);
    push_str_chars(&mut msg, ". Response preview: ");
    let preview = truncate_for_preview(response);
    push_str_chars(&mut msg, preview.as_str());
    GcopError::Llm(chars_to_string(&msg))
}

/// Whether the window `[lo, hi)` of `tvec` ends with the marker.
fn ends_with_fence(tvec: &Vec<char>, marker: &Vec<char>, lo: usize, hi: usize) -> (r: bool)
    requires
        lo <= hi <= tvec@.len(),
        marker@.len() <= hi - lo,
    ensures
        r == ends_with(tvec@.subrange(lo as int, hi as int), marker@),
{
    let w = copy_range(tvec, lo, hi);
    crate::text::ends_with_chars(&w, marker)
}

} // verus!
