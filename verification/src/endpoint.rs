//! Endpoint resolution: completing a configured base URL with the API path
//! suffix a backend family expects, while leaving fully custom endpoints
//! untouched.

use vstd::prelude::*;
use crate::text::{
    ends_with, starts_with, spec_find_char, spec_split_char, spec_trim_end_matches,
    spec_trim_start_matches, chars_to_string, copy_range, ends_with_chars, find_char, push_chars,
    push_str_chars, split_char, starts_with_chars, str_to_chars, trim_end_matches_chars,
    trim_start_matches_chars,
};

verus! {

pub const ANTHROPIC_API_SUFFIX: &'static str = "/v1/messages";

pub const OPENAI_API_SUFFIX: &'static str = "/v1/chat/completions";

pub const OLLAMA_API_SUFFIX: &'static str = "/api/generate";

pub const DEFAULT_ANTHROPIC_BASE: &'static str = "https://api.anthropic.com";

pub const DEFAULT_OPENAI_BASE: &'static str = "https://api.openai.com";

pub const DEFAULT_OLLAMA_BASE: &'static str = "http://localhost:11434";

// ---------------------------------------------------------------------------
// Specification
// ---------------------------------------------------------------------------

/// Join path segments with `/`.
pub open spec fn spec_join_slash(parts: Seq<Seq<char>>) -> Seq<char>
    decreases parts.len(),
{
    if parts.len() == 0 {
        Seq::empty()
    } else if parts.len() == 1 {
        parts[0]
    } else {
        spec_join_slash(parts.drop_last()) + seq!['/'] + parts.last()
    }
}

/// The least `j >= i` such that the joined first `j + 1` suffix segments are
/// a suffix of `url`.
pub open spec fn spec_partial_match_index(
    url: Seq<char>,
    parts: Seq<Seq<char>>,
    i: int,
) -> Option<int>
    decreases parts.len() - i,
{
    if i < 0 || i >= parts.len() {
        None
    } else if ends_with(url, spec_join_slash(parts.take(i + 1))) {
        Some(i)
    } else {
        spec_partial_match_index(url, parts, i + 1)
    }
}

/// What follows the URL scheme, if the URL has one.
pub open spec fn spec_scheme_rest(url: Seq<char>) -> Option<Seq<char>> {
    if starts_with(url, "http://"@) {
        Some(url.skip("http://"@.len() as int))
    } else if starts_with(url, "https://"@) {
        Some(url.skip("https://"@.len() as int))
    } else {
        None
    }
}

/// The path part of a URL: what follows the first `/` after the scheme and
/// host; empty when there is no scheme or no path.
pub open spec fn spec_url_path(url: Seq<char>) -> Seq<char> {
    match spec_scheme_rest(url) {
        None => Seq::empty(),
        Some(rest) => match spec_find_char(rest, '/') {
            None => Seq::empty(),
            Some(i) => rest.skip(i + 1),
        },
    }
}

/// Number of non-empty segments.
pub open spec fn count_nonempty(parts: Seq<Seq<char>>) -> int
    decreases parts.len(),
{
    if parts.len() == 0 {
        0
    } else {
        (if parts[0].len() > 0 {
            1int
        } else {
            0int
        }) + count_nonempty(parts.skip(1))
    }
}

/// A URL whose path already has two or more non-empty segments is taken as a
/// fully custom endpoint.
pub open spec fn spec_is_complete_api_path(url: Seq<char>) -> bool {
    let path = spec_url_path(url);
    path.len() > 0 && count_nonempty(spec_split_char(path, '/')) >= 2
}

/// Endpoint completion: strip the base's trailing slashes and the suffix's
/// leading slashes; keep a base that already ends with the suffix; complete
/// only the missing tail when the base ends with a leading run of the
/// suffix's segments; keep a base whose path is already two or more segments
/// deep; otherwise append the whole suffix.
pub open spec fn spec_complete_endpoint(base_url: Seq<char>, expected_suffix: Seq<char>) -> Seq<
    char,
> {
    let url = spec_trim_end_matches(base_url, '/');
    let suffix = spec_trim_start_matches(expected_suffix, '/');
    if ends_with(url, suffix) {
        url
    } else {
        let parts = spec_split_char(suffix, '/');
        match spec_partial_match_index(url, parts, 0) {
            Some(i) => {
                let rem = spec_join_slash(parts.skip(i + 1));
                if rem.len() == 0 {
                    url
                } else {
                    url + seq!['/'] + rem
                }
            },
            None => if spec_is_complete_api_path(url) {
                url
            } else {
                url + seq!['/'] + suffix
            },
        }
    }
}

// ---------------------------------------------------------------------------
// Executable code
// ---------------------------------------------------------------------------

fn is_complete_api_path_chars(url: &Vec<char>) -> (r: bool)
    ensures
        r == spec_is_complete_api_path(url@),
{
    proof {
        reveal_strlit("http://");
        reveal_strlit("https://");
    }
    let http = str_to_chars("http://");
    let https = str_to_chars("https://");
    let n = url.len();
    let rest: Vec<char>;
    if starts_with_chars(url, &http) {
        rest = copy_range(url, 7, n);
        proof {
            assert(rest@ =~= url@.skip("http://"@.len() as int));
        }
    } else if starts_with_chars(url, &https) {
        rest = copy_range(url, 8, n);
        proof {
            assert(rest@ =~= url@.skip("https://"@.len() as int));
        }
    } else {
        return false;
    }
    proof {
        crate::text::lemma_find_char(rest@, '/');
    }
    let slash = find_char(&rest, '/');
    match slash {
        None => false,
        Some(i) => {
            let path = copy_range(&rest, i + 1, rest.len());
            proof {
                assert(path@ =~= spec_url_path(url@));
            }
            if path.len() == 0 {
                return false;
            }
            let parts = split_char(&path, '/');
            let ghost pm = spec_split_char(path@, '/');
            let np = parts.len();
            let mut count: usize = 0;
            let mut k: usize = 0;
            proof {
                assert(pm.skip(0) =~= pm);
            }
            while k < np
                invariant
                    np == parts@.len(),
                    parts.deep_view() == pm,
                    k <= np,
                    count <= k,
                    count + count_nonempty(pm.skip(k as int)) == count_nonempty(pm),
                decreases np - k,
            {
                let ghost rest_parts = pm.skip(k as int);
                proof {
                    assert(parts.deep_view()[k as int] == parts@[k as int].deep_view());
                    assert(parts@[k as int].deep_view() =~= parts@[k as int]@);
                    assert(rest_parts[0] == pm[k as int]);
                    assert(rest_parts.skip(1) =~= pm.skip(k + 1));
                }
                if parts[k].len() > 0 {
                    count = count + 1;
                }
                k = k + 1;
            }
            proof {
                assert(pm.skip(np as int) =~= Seq::<Seq<char>>::empty());
            }
            count >= 2
        },
    }
}

/// Whether a URL already names a complete API path (two or more non-empty
/// path segments after the host).
pub fn is_complete_api_path(url: &str) -> (r: bool)
    ensures
        r == spec_is_complete_api_path(url@),
{
    let chars = str_to_chars(url);
    is_complete_api_path_chars(&chars)
}

/// Complete a base URL with the expected API suffix.
///
/// A base already ending in the suffix, or one ending in a leading run of
/// the suffix's segments, is completed without duplicating segments; a base
/// with a two-or-more-segment path of its own is kept as a custom endpoint.
pub fn complete_endpoint(base_url: &str, expected_suffix: &str) -> (r: String)
    ensures
        r@ == spec_complete_endpoint(base_url@, expected_suffix@),
{
    let base_chars = str_to_chars(base_url);
    let sfx_chars = str_to_chars(expected_suffix);
    let url = trim_end_matches_chars(&base_chars, '/');
    let suffix = trim_start_matches_chars(&sfx_chars, '/');
    if ends_with_chars(&url, &suffix) {
        return chars_to_string(&url);
    }
    let parts = split_char(&suffix, '/');
    let ghost pm = spec_split_char(suffix@, '/');
    let np = parts.len();
    let mut partial: Vec<char> = Vec::new();
    let mut i: usize = 0;
    while i < np
        invariant
            np == parts@.len(),
            parts.deep_view() == pm,
            pm == spec_split_char(suffix@, '/'),
            url@ == spec_trim_end_matches(base_url@, '/'),
            suffix@ == spec_trim_start_matches(expected_suffix@, '/'),
            !ends_with(url@, suffix@),
            i <= np,
            i == 0 ==> partial@ == Seq::<char>::empty(),
            i > 0 ==> partial@ == spec_join_slash(pm.take(i as int)),
            spec_partial_match_index(url@, pm, 0) == spec_partial_match_index(
                url@,
                pm,
                i as int,
            ),
        decreases np - i,
    {
        proof {
            assert(parts.deep_view()[i as int] == parts@[i as int].deep_view());
            assert(parts@[i as int].deep_view() =~= parts@[i as int]@);
        }
        if i == 0 {
            push_chars(&mut partial, &parts[0]);
            proof {
                assert(pm.take(1).len() == 1);
                assert(pm.take(1)[0] == pm[0]);
                assert(partial@ =~= spec_join_slash(pm.take(1)));
            }
        } else {
            partial.push('/');
            push_chars(&mut partial, &parts[i]);
            proof {
                assert(pm.take(i + 1).drop_last() =~= pm.take(i as int));
                assert(pm.take(i + 1).last() == pm[i as int]);
                assert(partial@ =~= spec_join_slash(pm.take(i + 1)));
            }
        }
        if ends_with_chars(&url, &partial) {
            proof {
                assert(spec_partial_match_index(url@, pm, i as int) == Some(i as int));
            }
            let mut rem: Vec<char> = Vec::new();
            let mut k: usize = i + 1;
            while k < np
                invariant
                    np == parts@.len(),
                    parts.deep_view() == pm,
                    i + 1 <= k <= np,
                    k > i + 1 ==> rem@ == spec_join_slash(pm.subrange(i + 1, k as int)),
                    k == i + 1 ==> rem@ == Seq::<char>::empty(),
                decreases np - k,
            {
                proof {
                    assert(parts.deep_view()[k as int] == parts@[k as int].deep_view());
                    assert(parts@[k as int].deep_view() =~= parts@[k as int]@);
                }
                if k == i + 1 {
                    push_chars(&mut rem, &parts[k]);
                    proof {
                        assert(pm.subrange(i + 1, k + 1).len() == 1);
                        assert(pm.subrange(i + 1, k + 1)[0] == pm[k as int]);
                        assert(rem@ =~= spec_join_slash(pm.subrange(i + 1, k + 1)));
                    }
                } else {
                    rem.push('/');
                    push_chars(&mut rem, &parts[k]);
                    proof {
                        assert(pm.subrange(i + 1, k + 1).drop_last() =~= pm.subrange(
                            i + 1,
                            k as int,
                        ));
                        assert(pm.subrange(i + 1, k + 1).last() == pm[k as int]);
                        assert(rem@ =~= spec_join_slash(pm.subrange(i + 1, k + 1)));
                    }
                }
                k = k + 1;
            }
            proof {
                assert(pm.skip(i + 1) =~= pm.subrange(i + 1, np as int));
                if i + 1 == np {
                    assert(pm.skip(i + 1).len() == 0);
                    assert(spec_join_slash(pm.skip(i + 1)) =~= Seq::<char>::empty());
                }
            }
            if rem.len() == 0 {
                return chars_to_string(&url);
            }
            let mut out = url;
            out.push('/');
            push_chars(&mut out, &rem);
            proof {
                assert(out@ =~= spec_trim_end_matches(base_url@, '/') + seq!['/']
                    + spec_join_slash(pm.skip(i + 1)));
            }
            return chars_to_string(&out);
        }
        i = i + 1;
    }
    if is_complete_api_path_chars(&url) {
        return chars_to_string(&url);
    }
    let mut out = url;
    out.push('/');
    push_chars(&mut out, &suffix);
    proof {
        assert(out@ =~= spec_trim_end_matches(base_url@, '/') + seq!['/']
            + spec_trim_start_matches(expected_suffix@, '/'));
    }
    chars_to_string(&out)
}

/// The endpoint a provider will call: a configured override completed with
/// the family's suffix, or the family default base joined with the suffix.
pub fn build_endpoint(endpoint: Option<&String>, default_base: &str, suffix: &str) -> (r: String)
    ensures
        endpoint matches Some(e) ==> r@ == spec_complete_endpoint(e@, suffix@),
        endpoint is None ==> r@ == default_base@ + suffix@,
{
    match endpoint {
        Some(e) => complete_endpoint(e.as_str(), suffix),
        None => {
            let mut out = str_to_chars(default_base);
            push_str_chars(&mut out, suffix);
            chars_to_string(&out)
        },
    }
}

} // verus!
