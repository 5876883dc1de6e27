//! Per-author commit counts and the bar chart cell used when rendering
//! repository statistics.

use vstd::prelude::*;
use crate::text::chars_to_string;

verus! {

/// One contributor's commit count.
#[derive(Debug, Clone)]
pub struct AuthorStats {
    pub name: String,
    pub email: String,
    pub commits: usize,
}

/// An ASCII-art bar proportional to `count / max_count`, at most `max_width`
/// cells wide; empty when there is nothing to compare against.
pub fn render_bar(count: usize, max_count: usize, max_width: usize) -> (r: String)
    requires
        count * max_width <= usize::MAX,
    ensures
        max_count == 0 ==> r@ == Seq::<char>::empty(),
        max_count > 0 ==> r@ == Seq::new(
            ((count * max_width) as int / max_count as int) as nat,
            |i: int| '\u{2588}',
        ),
{
    if max_count == 0 {
        proof {
            assert(Seq::<char>::empty() =~= Seq::<char>::empty());
        }
        let empty: Vec<char> = Vec::new();
        return chars_to_string(&empty);
    }
    let width = (count * max_width) / max_count;
    let mut bar: Vec<char> = Vec::new();
    let mut i: usize = 0;
    while i < width
        invariant
            i <= width,
            bar@ == Seq::new(i as nat, |j: int| '\u{2588}'),
        decreases width - i,
    {
        bar.push('\u{2588}');
        proof {
            assert(bar@ =~= Seq::new((i + 1) as nat, |j: int| '\u{2588}'));
        }
        i = i + 1;
    }
    chars_to_string(&bar)
}

} // verus!
