//! Session-wide laws: facts that relate several transitions, proved over the
//! same specification functions the transitions' contracts use.

use vstd::prelude::*;

use crate::state::{
    down_cursor, full_range, in_seq, lemma_matching_all, lemma_matching_indices, matching_indices,
    select_all_step, select_none_step, toggle_step, up_cursor, MultiSelectPrompt,
};
use crate::strategy::{Filter, Formatter, Validator};

verus! {

/// Law: for every query, the recomputed filtered list is a strictly
/// ascending subsequence of the original index range; an empty query yields
/// the full range.
pub proof fn lemma_filtered_is_ascending_subrange<F: Filter, M: Formatter, V: Validator>(
    s: MultiSelectPrompt<F, M, V>,
)
    requires
        s.options@.len() <= usize::MAX,
    ensures
        ({
            let r = matching_indices(s.visible_pred(), s.options@.len() as nat);
            &&& forall|k: int| 0 <= k < r.len() ==> (((#[trigger] r[k]) as int) < s.options@.len())
            &&& forall|k1: int, k2: int| 0 <= k1 < k2 < r.len() ==> r[k1] < r[k2]
            &&& s.input.chars@.len() == 0 ==> r == full_range(s.options@.len() as nat)
        }),
{
    let n = s.options@.len() as nat;
    lemma_matching_indices(s.visible_pred(), n);
    if s.input.chars@.len() == 0 {
        lemma_matching_all(s.visible_pred(), n);
        assert(matching_indices(s.visible_pred(), n) =~= full_range(n));
    }
}

/// Law: toggling the option at the cursor twice, with no intervening filter
/// change, restores the checked set; the cursor, the filtered list and the
/// filter text are back as well. No filter change intervenes when the
/// keep-filter flag is on, and also when the query is already empty and so
/// the filtered list is already the full range (as in every reachable
/// session), since clearing an empty query changes nothing.
pub proof fn lemma_double_toggle_restores<F: Filter, M: Formatter, V: Validator>(
    s0: MultiSelectPrompt<F, M, V>,
    s1: MultiSelectPrompt<F, M, V>,
    s2: MultiSelectPrompt<F, M, V>,
)
    requires
        s0.wf(),
        s0.keep_filter || (s0.input.chars@.len() == 0 && s0.filtered_options@ == full_range(
            s0.options@.len() as nat,
        )),
        toggle_step(s0, s1),
        toggle_step(s1, s2),
    ensures
        s2.checked@ == s0.checked@,
        s2.cursor_index == s0.cursor_index,
        s2.filtered_options@ == s0.filtered_options@,
        s2.input.chars@ == s0.input.chars@,
        s2.input.cursor == s0.input.cursor,
{
    if s0.filtered_options@.len() > 0 {
        let idx = s0.filtered_options@[s0.cursor_index as int] as int;
        if !s0.keep_filter {
            assert(s1.filtered_options@ == s0.filtered_options@);
            assert(s1.cursor_index == s0.cursor_index);
            assert(s1.filtered_options@[s1.cursor_index as int] as int == idx);
        }
        assert(s2.checked@ =~= s0.checked@);
    }
}

/// Law: checking all visible and then clearing leaves an empty checked set,
/// whatever was checked before.
pub proof fn lemma_select_all_then_none_empties<F: Filter, M: Formatter, V: Validator>(
    s0: MultiSelectPrompt<F, M, V>,
    s1: MultiSelectPrompt<F, M, V>,
    s2: MultiSelectPrompt<F, M, V>,
)
    requires
        s0.wf(),
        select_all_step(s0, s1),
        select_none_step(s1, s2),
    ensures
        s2.checked@.len() == s0.options@.len(),
        forall|i: int| 0 <= i < s2.checked@.len() ==> !(#[trigger] s2.checked@[i]),
{
}

/// Law: checking all visible checks exactly the indices of the current
/// filtered list — an index filtered out stays unchecked even if it was
/// checked before, the set having been cleared first.
pub proof fn lemma_select_all_scoped_to_visible<F: Filter, M: Formatter, V: Validator>(
    s0: MultiSelectPrompt<F, M, V>,
    s1: MultiSelectPrompt<F, M, V>,
)
    requires
        s0.wf(),
        select_all_step(s0, s1),
    ensures
        s1.checked@.len() == s0.options@.len(),
        forall|i: int|
            0 <= i < s1.checked@.len() ==> ((#[trigger] s1.checked@[i]) <==> in_seq(
                s0.filtered_options@,
                i,
            )),
{
}

/// Law: cursor navigation wraps. Moving up from the top lands on the last
/// filtered position; moving down from the last filtered position lands on
/// the top; with a single visible option both moves land on 0.
pub proof fn lemma_cursor_wraps(flen: int)
    requires
        flen > 0,
    ensures
        up_cursor(0, flen) == flen - 1,
        down_cursor(flen - 1, flen) == 0,
        flen == 1 ==> up_cursor(0, flen) == 0 && down_cursor(0, flen) == 0,
{
}

} // verus!
