//! The prompt state machine: the live session that applies keys to the
//! buffer, cursor and selection, recomputes the filtered view, and decides
//! when the session terminates.

use vstd::prelude::*;

use crate::backend::MultiSelectBackend;
use crate::error::InquireError;
use crate::input::{content_after, cursor_after, key_dirty, Input};
use crate::key::{Key, KeyModifiers};
use crate::multiselect::MultiSelect;
use crate::option_answer::OptionAnswer;
use crate::pagination::{page_start, paginate};
use crate::strategy::{Filter, Formatter, Validator};

verus! {

/// Membership of an integer in a sequence of indices.
pub open spec fn in_seq(s: Seq<usize>, i: int) -> bool {
    exists|k: int| 0 <= k < s.len() && s[k] as int == i
}

/// The sequence `0, 1, ..., n - 1`.
pub open spec fn full_range(n: nat) -> Seq<usize> {
    Seq::new(n, |i: int| i as usize)
}

/// The ascending sequence of indices below `n` that satisfy `pred`.
pub open spec fn matching_indices(pred: spec_fn(int) -> bool, n: nat) -> Seq<usize>
    decreases n,
{
    if n == 0 {
        Seq::empty()
    } else {
        let prefix = matching_indices(pred, (n - 1) as nat);
        if pred(n - 1) {
            prefix.push((n - 1) as usize)
        } else {
            prefix
        }
    }
}

/// What the filtered index list satisfies: every element is below `n`,
/// satisfies the predicate, the list ascends strictly, and it has every
/// index below `n` that satisfies the predicate.
pub proof fn lemma_matching_indices(pred: spec_fn(int) -> bool, n: nat)
    requires
        n <= usize::MAX,
    ensures
        ({
            let s = matching_indices(pred, n);
            &&& forall|k: int| 0 <= k < s.len() ==> (((#[trigger] s[k]) as int) < n)
            &&& forall|k: int| 0 <= k < s.len() ==> pred((#[trigger] s[k]) as int)
            &&& forall|k1: int, k2: int| 0 <= k1 < k2 < s.len() ==> s[k1] < s[k2]
            &&& forall|i: int| 0 <= i < n ==> (in_seq(s, i) <==> pred(i))
        }),
    decreases n,
{
    if n > 0 {
        lemma_matching_indices(pred, (n - 1) as nat);
        let p = matching_indices(pred, (n - 1) as nat);
        let s = matching_indices(pred, n);
        assert forall|i: int| 0 <= i < n implies (in_seq(s, i) <==> pred(i)) by {
            if i < n - 1 {
                if pred(i) {
                    assert(in_seq(p, i));
                    let k = choose|k: int| 0 <= k < p.len() && p[k] as int == i;
                    assert(s[k] as int == i);
                }
                if in_seq(s, i) {
                    let k = choose|k: int| 0 <= k < s.len() && s[k] as int == i;
                    if k < p.len() {
                        assert(in_seq(p, i));
                    }
                }
            } else {
                if pred(i) {
                    assert(s == p.push((n - 1) as usize));
                    assert(s[s.len() - 1] == (n - 1) as usize);
                    assert(s[s.len() - 1] as int == i);
                }
                if in_seq(s, i) {
                    if !pred(i) {
                        let k = choose|k: int| 0 <= k < s.len() && s[k] as int == i;
                        assert(((p[k] as int) < n - 1));
                    }
                }
            }
        }
    }
}

/// Under a predicate that accepts everything, the filtered list is the full
/// index range.
pub proof fn lemma_matching_all(pred: spec_fn(int) -> bool, n: nat)
    requires
        n <= usize::MAX,
        forall|i: int| 0 <= i < n ==> #[trigger] pred(i),
    ensures
        matching_indices(pred, n) =~= full_range(n),
    decreases n,
{
    if n > 0 {
        lemma_matching_all(pred, (n - 1) as nat);
    }
}

/// Whether some listed index falls outside `0 .. n`.
fn has_out_of_range(d: &Vec<usize>, n: usize) -> (r: bool)
    ensures
        r == exists|k: int| 0 <= k < d@.len() && ((#[trigger] d@[k]) as int) >= n as int,
{
    let mut k: usize = 0;
    while k < d.len()
        invariant
            k <= d@.len(),
            forall|j: int| 0 <= j < k ==> (((#[trigger] d@[j]) as int) < n as int),
        decreases d@.len() - k,
    {
        if d[k] >= n {
            proof {
                assert(((d@[k as int]) as int) >= n as int);
            }
            return true;
        }
        k = k + 1;
    }
    false
}

/// The visibility predicate induced by a filter strategy, an option list and
/// a query: everything is visible under an empty query, else what the
/// strategy accepts.
pub open spec fn query_pred<F: Filter>(filter: F, options: Seq<String>, query: Seq<char>) -> spec_fn(
    int,
) -> bool {
    |i: int| query.len() == 0 || filter.filter_spec(query, options[i]@, i)
}

/// Cursor wrap when moving up: to the previous position, or from the top to
/// the last filtered position (0 when nothing is visible).
pub open spec fn up_cursor(cursor: int, flen: int) -> int {
    if cursor > 0 {
        cursor - 1
    } else if flen > 0 {
        flen - 1
    } else {
        0
    }
}

/// Cursor wrap when moving down: to the next position, or back to the top
/// when the end of the filtered list is reached or passed.
pub open spec fn down_cursor(cursor: int, flen: int) -> int {
    if cursor + 1 >= flen {
        0
    } else {
        cursor + 1
    }
}

/// The clamp rule after a filter change: an out-of-range cursor moves to the
/// last valid position of the non-empty filtered list; an empty filtered
/// list leaves the cursor at 0.
pub open spec fn clamp_cursor(cursor: int, flen: int) -> int {
    if flen == 0 {
        0
    } else if cursor >= flen {
        flen - 1
    } else {
        cursor
    }
}

/// The checked set with membership of `idx` flipped.
pub open spec fn toggled(checked: Seq<bool>, idx: int) -> Seq<bool> {
    checked.update(idx, !checked[idx])
}

/// The checked set holding exactly the indices of the filtered list.
pub open spec fn checked_from_filtered(n: nat, filtered: Seq<usize>) -> Seq<bool> {
    Seq::new(n, |i: int| in_seq(filtered, i))
}

/// The empty checked set.
pub open spec fn no_checked(n: nat) -> Seq<bool> {
    Seq::new(n, |i: int| false)
}

/// A live multiselect session.
pub struct MultiSelectPrompt<F: Filter, M: Formatter, V: Validator> {
    /// Message presented to the user.
    pub message: String,
    /// The immutable option labels.
    pub options: Vec<String>,
    /// Help message shown below the prompt.
    pub help_message: Option<String>,
    /// Whether `j`/`k` navigate as alternate keys.
    pub vim_mode: bool,
    /// Position in the filtered index list (not the original list).
    pub cursor_index: usize,
    /// `checked[i]` holds when original index `i` is selected; one entry per
    /// option, independent of filtering.
    pub checked: Vec<bool>,
    /// Number of options displayed at once.
    pub page_size: usize,
    /// Whether the filter text survives a selection-changing action.
    pub keep_filter: bool,
    /// The live filter-text buffer.
    pub input: Input,
    /// Original indices whose label matches the current query, ascending.
    pub filtered_options: Vec<usize>,
    /// The filter strategy.
    pub filter: F,
    /// The formatter strategy.
    pub formatter: M,
    /// The optional validator strategy.
    pub validator: Option<V>,
    /// The transient validation error, replaced by the next failed
    /// submission attempt.
    pub error: Option<String>,
}

/// No transition touches the configuration snapshot.
pub open spec fn config_kept<F: Filter, M: Formatter, V: Validator>(
    pre: MultiSelectPrompt<F, M, V>,
    post: MultiSelectPrompt<F, M, V>,
) -> bool {
    &&& post.message == pre.message
    &&& post.options == pre.options
    &&& post.help_message == pre.help_message
    &&& post.vim_mode == pre.vim_mode
    &&& post.page_size == pre.page_size
    &&& post.keep_filter == pre.keep_filter
    &&& post.filter == pre.filter
    &&& post.formatter == pre.formatter
    &&& post.validator == pre.validator
}

/// Moving the cursor up: everything else stays.
pub open spec fn up_step<F: Filter, M: Formatter, V: Validator>(
    pre: MultiSelectPrompt<F, M, V>,
    post: MultiSelectPrompt<F, M, V>,
) -> bool {
    &&& config_kept(pre, post)
    &&& post.checked == pre.checked
    &&& post.input == pre.input
    &&& post.filtered_options == pre.filtered_options
    &&& post.error == pre.error
    &&& post.cursor_index as int == up_cursor(
        pre.cursor_index as int,
        pre.filtered_options@.len() as int,
    )
}

/// Moving the cursor down: everything else stays.
pub open spec fn down_step<F: Filter, M: Formatter, V: Validator>(
    pre: MultiSelectPrompt<F, M, V>,
    post: MultiSelectPrompt<F, M, V>,
) -> bool {
    &&& config_kept(pre, post)
    &&& post.checked == pre.checked
    &&& post.input == pre.input
    &&& post.filtered_options == pre.filtered_options
    &&& post.error == pre.error
    &&& post.cursor_index as int == down_cursor(
        pre.cursor_index as int,
        pre.filtered_options@.len() as int,
    )
}

/// What clearing the filter text after a selection-changing action does
/// when the keep-filter flag is off: empty query, full filtered list, the
/// cursor clamped.
pub open spec fn filter_cleared<F: Filter, M: Formatter, V: Validator>(
    pre: MultiSelectPrompt<F, M, V>,
    post: MultiSelectPrompt<F, M, V>,
) -> bool {
    &&& post.input.chars@ == Seq::<char>::empty()
    &&& post.input.cursor == 0
    &&& post.filtered_options@ == full_range(pre.options@.len() as nat)
    &&& post.cursor_index as int == clamp_cursor(
        pre.cursor_index as int,
        pre.options@.len() as int,
    )
}

/// The filter state survives a selection-changing action: buffer, filtered
/// list and cursor stay.
pub open spec fn filter_kept<F: Filter, M: Formatter, V: Validator>(
    pre: MultiSelectPrompt<F, M, V>,
    post: MultiSelectPrompt<F, M, V>,
) -> bool {
    &&& post.input == pre.input
    &&& post.filtered_options == pre.filtered_options
    &&& post.cursor_index == pre.cursor_index
}

/// Toggling the option under the cursor: a no-op when nothing is visible;
/// otherwise membership of the original index at the cursor flips, and the
/// filter text is cleared when the keep-filter flag is off.
pub open spec fn toggle_step<F: Filter, M: Formatter, V: Validator>(
    pre: MultiSelectPrompt<F, M, V>,
    post: MultiSelectPrompt<F, M, V>,
) -> bool {
    if pre.filtered_options@.len() == 0 {
        post == pre
    } else {
        &&& config_kept(pre, post)
        &&& post.error == pre.error
        &&& post.checked@ == toggled(
            pre.checked@,
            pre.filtered_options@[pre.cursor_index as int] as int,
        )
        &&& if pre.keep_filter {
            filter_kept(pre, post)
        } else {
            filter_cleared(pre, post)
        }
    }
}

/// Checking everything visible: the checked set becomes exactly the indices
/// of the current filtered list (indices filtered out are unchecked, the
/// set having been cleared first).
pub open spec fn select_all_step<F: Filter, M: Formatter, V: Validator>(
    pre: MultiSelectPrompt<F, M, V>,
    post: MultiSelectPrompt<F, M, V>,
) -> bool {
    &&& config_kept(pre, post)
    &&& post.error == pre.error
    &&& post.checked@ == checked_from_filtered(pre.options@.len() as nat, pre.filtered_options@)
    &&& if pre.keep_filter {
        filter_kept(pre, post)
    } else {
        filter_cleared(pre, post)
    }
}

/// Clearing the checked set entirely.
pub open spec fn select_none_step<F: Filter, M: Formatter, V: Validator>(
    pre: MultiSelectPrompt<F, M, V>,
    post: MultiSelectPrompt<F, M, V>,
) -> bool {
    &&& config_kept(pre, post)
    &&& post.error == pre.error
    &&& post.checked@ == no_checked(pre.options@.len() as nat)
    &&& if pre.keep_filter {
        filter_kept(pre, post)
    } else {
        filter_cleared(pre, post)
    }
}

/// Forwarding a key to the editing buffer: the buffer applies it, and when
/// the content changed the filtered list is recomputed and the cursor
/// clamped.
pub open spec fn edit_step<F: Filter, M: Formatter, V: Validator>(
    pre: MultiSelectPrompt<F, M, V>,
    post: MultiSelectPrompt<F, M, V>,
    key: Key,
) -> bool {
    let content2 = content_after(pre.input.chars@, pre.input.cursor as int, key);
    let dirty = key_dirty(pre.input.chars@, pre.input.cursor as int, key);
    &&& config_kept(pre, post)
    &&& post.checked == pre.checked
    &&& post.error == pre.error
    &&& post.input.chars@ == content2
    &&& post.input.cursor as int == cursor_after(pre.input.chars@, pre.input.cursor as int, key)
    &&& if dirty {
        let f2 = matching_indices(
            query_pred(pre.filter, pre.options@, content2),
            pre.options@.len() as nat,
        );
        &&& post.filtered_options@ == f2
        &&& post.cursor_index as int == clamp_cursor(pre.cursor_index as int, f2.len() as int)
    } else {
        &&& post.filtered_options == pre.filtered_options
        &&& post.cursor_index == pre.cursor_index
    }
}

/// The answer corresponds to the checked set: each entry pairs a checked
/// original index with its label, the indices ascend strictly, and every
/// checked index appears — so the answer lists the checked options in
/// original list order.
pub open spec fn answers_correspond(
    ans: Seq<OptionAnswer>,
    options: Seq<String>,
    checked: Seq<bool>,
) -> bool {
    &&& forall|k: int|
        0 <= k < ans.len() ==> {
            &&& (#[trigger] ans[k]).index < options.len()
            &&& checked[ans[k].index as int]
            &&& ans[k].value@ == options[ans[k].index as int]@
        }
    &&& forall|k1: int, k2: int| 0 <= k1 < k2 < ans.len() ==> ans[k1].index < ans[k2].index
    &&& forall|i: int|
        0 <= i < checked.len() && checked[i] ==> exists|k: int|
            0 <= k < ans.len() && (#[trigger] ans[k]).index as int == i
}

/// One visual frame as data: everything the render boundary is handed, in
/// display order. `frame_plan` pins each field to the session state.
pub struct FramePlan {
    /// The transient error line, present iff the session carries one.
    pub error: Option<String>,
    /// The prompt message.
    pub message: String,
    /// The live filter text.
    pub query: String,
    /// One entry per visible option, top to bottom: its label, whether the
    /// cursor sits on it, and whether it is checked.
    pub lines: Vec<(String, bool, bool)>,
    /// The help line, present iff one is configured.
    pub help: Option<String>,
}

impl<F: Filter, M: Formatter, V: Validator> MultiSelectPrompt<F, M, V> {
    /// Session well-formedness: a non-empty option list, one checked flag
    /// per option, an ascending in-range filtered list, the cursor inside
    /// the filtered list (or 0 when it is empty), and a sound buffer.
    pub open spec fn wf(&self) -> bool {
        &&& self.options@.len() > 0
        &&& self.checked@.len() == self.options@.len()
        &&& forall|k: int|
            0 <= k < self.filtered_options@.len() ==> (((#[trigger] self.filtered_options@[k])
                as int) < self.options@.len())
        &&& forall|k1: int, k2: int|
            0 <= k1 < k2 < self.filtered_options@.len() ==> self.filtered_options@[k1]
                < self.filtered_options@[k2]
        &&& if self.filtered_options@.len() == 0 {
            self.cursor_index == 0
        } else {
            (self.cursor_index as int) < self.filtered_options@.len()
        }
        &&& self.input.wf()
    }

    /// The visibility predicate of the current query.
    pub open spec fn visible_pred(&self) -> spec_fn(int) -> bool {
        query_pred(self.filter, self.options@, self.input.chars@)
    }

    /// Validate the configuration and set up the session: cursor at the
    /// starting index, the full option range visible, the default indices
    /// checked, empty filter text, no error. Fails with a configuration
    /// error exactly when the option list is empty or a default or starting
    /// index is out of range.
    pub fn new(mso: MultiSelect<F, M, V>) -> (r: Result<Self, InquireError>)
        ensures
            ({
                let n = mso.options@.len() as int;
                let bad = n == 0 || (mso.default matches Some(d) && exists|k: int|
                    0 <= k < d@.len() && ((#[trigger] d@[k]) as int) >= n) || (
                    mso.starting_cursor as int) >= n;
                match r {
                    Ok(s) => {
                        &&& !bad
                        &&& s.wf()
                        &&& s.message == mso.message
                        &&& s.options == mso.options
                        &&& s.help_message == mso.help_message
                        &&& s.vim_mode == mso.vim_mode
                        &&& s.page_size == mso.page_size
                        &&& s.keep_filter == mso.keep_filter
                        &&& s.filter == mso.filter
                        &&& s.formatter == mso.formatter
                        &&& s.validator == mso.validator
                        &&& s.cursor_index == mso.starting_cursor
                        &&& s.filtered_options@ == full_range(n as nat)
                        &&& s.input.chars@ == Seq::<char>::empty()
                        &&& s.error is None
                        &&& forall|i: int|
                            0 <= i < n ==> (s.checked@[i] <==> (mso.default matches Some(d)
                                && in_seq(d@, i)))
                    },
                    Err(e) => bad && e matches InquireError::InvalidConfiguration(_),
                }
            }),
    {
        let n = mso.options.len();
        if n == 0 {
            return Err(
                InquireError::InvalidConfiguration("Available options can not be empty".to_owned()),
            );
        }
        if mso.starting_cursor >= n {
            return Err(
                InquireError::InvalidConfiguration(
                    "Starting cursor index is out-of-bounds of the option list".to_owned(),
                ),
            );
        }
        let mut checked: Vec<bool> = Vec::new();
        let mut i: usize = 0;
        while i < n
            invariant
                i <= n,
                checked@.len() == i,
                forall|j: int| 0 <= j < i ==> !(#[trigger] checked@[j]),
            decreases n - i,
        {
            checked.push(false);
            i = i + 1;
        }
        match &mso.default {
            Some(d) => {
                if has_out_of_range(d, n) {
                    return Err(
                        InquireError::InvalidConfiguration(
                            "A default index is out-of-bounds of the option list".to_owned(),
                        ),
                    );
                }
                let mut k: usize = 0;
                while k < d.len()
                    invariant
                        k <= d@.len(),
                        n == mso.options@.len(),
                        checked@.len() == n,
                        forall|j: int|
                            0 <= j < d@.len() ==> (((#[trigger] d@[j]) as int) < n),
                        forall|i2: int|
                            0 <= i2 < n ==> ((#[trigger] checked@[i2]) <==> in_seq(
                                d@.subrange(0, k as int),
                                i2,
                            )),
                    decreases d@.len() - k,
                {
                    let di = d[k];
                    checked[di] = true;
                    proof {
                        let pre = d@.subrange(0, k as int);
                        let cur = d@.subrange(0, k + 1);
                        assert(cur.drop_last() =~= pre);
                        assert(cur.last() == d@[k as int]);
                        assert forall|i2: int| 0 <= i2 < n implies ((#[trigger] checked@[i2])
                            <==> in_seq(cur, i2)) by {
                            if i2 == di as int {
                                assert(cur[cur.len() - 1] as int == i2);
                            } else {
                                if in_seq(cur, i2) {
                                    let j = choose|j: int|
                                        0 <= j < cur.len() && cur[j] as int == i2;
                                    assert(pre[j] as int == i2);
                                }
                                if in_seq(pre, i2) {
                                    let j = choose|j: int|
                                        0 <= j < pre.len() && pre[j] as int == i2;
                                    assert(cur[j] as int == i2);
                                }
                            }
                        }
                    }
                    k = k + 1;
                }
                proof {
                    assert(d@.subrange(0, d@.len() as int) =~= d@);
                }
            },
            None => {},
        }
        let mut filtered: Vec<usize> = Vec::new();
        let mut i2: usize = 0;
        while i2 < n
            invariant
                i2 <= n,
                filtered@.len() == i2,
                forall|j: int| 0 <= j < i2 ==> (#[trigger] filtered@[j]) as int == j,
            decreases n - i2,
        {
            filtered.push(i2);
            i2 = i2 + 1;
        }
        proof {
            assert(filtered@ =~= full_range(n as nat));
        }
        Ok(
            MultiSelectPrompt {
                message: mso.message,
                options: mso.options,
                help_message: mso.help_message,
                vim_mode: mso.vim_mode,
                cursor_index: mso.starting_cursor,
                checked,
                page_size: mso.page_size,
                keep_filter: mso.keep_filter,
                input: Input::new(),
                filtered_options: filtered,
                filter: mso.filter,
                formatter: mso.formatter,
                validator: mso.validator,
                error: None,
            },
        )
    }

    /// Re-derive the filtered index list from the current query and the
    /// filter strategy: the ascending original indices whose label the
    /// query keeps visible (all of them under an empty query).
    pub fn filter_options(&self) -> (r: Vec<usize>)
        ensures
            r@ == matching_indices(self.visible_pred(), self.options@.len() as nat),
            forall|k: int|
                0 <= k < r@.len() ==> (((#[trigger] r@[k]) as int) < self.options@.len()),
            forall|k1: int, k2: int| 0 <= k1 < k2 < r@.len() ==> r@[k1] < r@[k2],
    {
        let query = self.input.content();
        let empty = self.input.is_empty();
        let n = self.options.len();
        let mut r: Vec<usize> = Vec::new();
        let mut i: usize = 0;
        while i < n
            invariant
                i <= n,
                n == self.options@.len(),
                query@ == self.input.chars@,
                r@ == matching_indices(self.visible_pred(), i as nat),
                empty == (self.input.chars@.len() == 0),
            decreases n - i,
        {
            let keep = if empty {
                true
            } else {
                self.filter.matches(query.as_str(), self.options[i].as_str(), i)
            };
            proof {
                assert(keep == self.visible_pred()(i as int));
            }
            if keep {
                r.push(i);
            }
            i = i + 1;
        }
        proof {
            lemma_matching_indices(self.visible_pred(), n as nat);
        }
        r
    }

    /// Move the cursor one filtered position up, wrapping from the top to
    /// the last filtered position.
    pub fn move_cursor_up(&mut self)
        requires
            old(self).wf(),
        ensures
            final(self).wf(),
            up_step(*old(self), *final(self)),
    {
        if self.cursor_index > 0 {
            self.cursor_index = self.cursor_index - 1;
        } else {
            let l = self.filtered_options.len();
            if l > 0 {
                self.cursor_index = l - 1;
            } else {
                self.cursor_index = 0;
            }
        }
    }

    /// Move the cursor one filtered position down, wrapping past the end of
    /// the filtered list back to the top.
    pub fn move_cursor_down(&mut self)
        requires
            old(self).wf(),
        ensures
            final(self).wf(),
            down_step(*old(self), *final(self)),
    {
        let l = self.filtered_options.len();
        let next = self.cursor_index + 1;
        if next >= l {
            self.cursor_index = 0;
        } else {
            self.cursor_index = next;
        }
    }

    /// Clear the filter text and recompute the filtered view, clamping the
    /// cursor; used by the selection-changing actions when the keep-filter
    /// flag is off.
    fn clear_filter(&mut self)
        requires
            old(self).wf(),
        ensures
            final(self).wf(),
            config_kept(*old(self), *final(self)),
            final(self).checked == old(self).checked,
            final(self).error == old(self).error,
            filter_cleared(*old(self), *final(self)),
    {
        self.input.clear();
        let opts = self.filter_options();
        let n = self.options.len();
        proof {
            lemma_matching_all(self.visible_pred(), n as nat);
        }
        let flen = opts.len();
        self.filtered_options = opts;
        if flen == 0 {
            self.cursor_index = 0;
        } else if self.cursor_index >= flen {
            self.cursor_index = flen - 1;
        }
    }

    /// Flip the checked membership of the original index under the cursor; a
    /// no-op when the filtered list is empty. Clears the filter text when
    /// the keep-filter flag is off.
    pub fn toggle_cursor_selection(&mut self)
        requires
            old(self).wf(),
        ensures
            final(self).wf(),
            toggle_step(*old(self), *final(self)),
    {
        if self.cursor_index >= self.filtered_options.len() {
            return ;
        }
        let idx = self.filtered_options[self.cursor_index];
        let cur = self.checked[idx];
        self.checked[idx] = !cur;
        if !self.keep_filter {
            self.clear_filter();
        }
    }

    /// Clear the checked set, then check every original index currently in
    /// the filtered list: select-all is scoped to what is visible. Clears
    /// the filter text when the keep-filter flag is off.
    pub fn select_all_visible(&mut self)
        requires
            old(self).wf(),
        ensures
            final(self).wf(),
            select_all_step(*old(self), *final(self)),
    {
        let n = self.options.len();
        let mut checked: Vec<bool> = Vec::new();
        let mut i: usize = 0;
        while i < n
            invariant
                i <= n,
                checked@.len() == i,
                forall|j: int| 0 <= j < i ==> !(#[trigger] checked@[j]),
            decreases n - i,
        {
            checked.push(false);
            i = i + 1;
        }
        let flen = self.filtered_options.len();
        let mut j: usize = 0;
        while j < flen
            invariant
                j <= flen,
                flen == self.filtered_options@.len(),
                self.wf(),
                n == self.options@.len(),
                checked@.len() == n,
                forall|i2: int|
                    0 <= i2 < n ==> ((#[trigger] checked@[i2]) <==> in_seq(
                        self.filtered_options@.subrange(0, j as int),
                        i2,
                    )),
            decreases flen - j,
        {
            let idx = self.filtered_options[j];
            checked[idx] = true;
            proof {
                let pre = self.filtered_options@.subrange(0, j as int);
                let cur = self.filtered_options@.subrange(0, j + 1);
                assert(cur.drop_last() =~= pre);
                assert(cur.last() == self.filtered_options@[j as int]);
                assert forall|i2: int| 0 <= i2 < n implies ((#[trigger] checked@[i2]) <==> in_seq(
                    cur,
                    i2,
                )) by {
                    if i2 == idx as int {
                        assert(cur[cur.len() - 1] as int == i2);
                    } else {
                        if in_seq(cur, i2) {
                            let k = choose|k: int| 0 <= k < cur.len() && cur[k] as int == i2;
                            assert(pre[k] as int == i2);
                        }
                        if in_seq(pre, i2) {
                            let k = choose|k: int| 0 <= k < pre.len() && pre[k] as int == i2;
                            assert(cur[k] as int == i2);
                        }
                    }
                }
            }
            j = j + 1;
        }
        proof {
            assert(self.filtered_options@.subrange(0, flen as int) =~= self.filtered_options@);
            assert(checked@ =~= checked_from_filtered(n as nat, self.filtered_options@));
        }
        self.checked = checked;
        if !self.keep_filter {
            self.clear_filter();
        }
    }

    /// Clear the checked set entirely. Clears the filter text when the
    /// keep-filter flag is off.
    pub fn select_none(&mut self)
        requires
            old(self).wf(),
        ensures
            final(self).wf(),
            select_none_step(*old(self), *final(self)),
    {
        let n = self.options.len();
        let mut checked: Vec<bool> = Vec::new();
        let mut i: usize = 0;
        while i < n
            invariant
                i <= n,
                checked@.len() == i,
                forall|j: int| 0 <= j < i ==> !(#[trigger] checked@[j]),
            decreases n - i,
        {
            checked.push(false);
            i = i + 1;
        }
        proof {
            assert(checked@ =~= no_checked(n as nat));
        }
        self.checked = checked;
        if !self.keep_filter {
            self.clear_filter();
        }
    }

    /// Forward a key to the editing buffer; when the content changed,
    /// recompute the filtered view and clamp the cursor.
    fn apply_edit(&mut self, key: Key)
        requires
            old(self).wf(),
        ensures
            final(self).wf(),
            edit_step(*old(self), *final(self), key),
    {
        let dirty = self.input.handle_key(key);
        if dirty {
            let opts = self.filter_options();
            let n = self.options.len();
            proof {
                lemma_matching_indices(self.visible_pred(), n as nat);
            }
            let flen = opts.len();
            if flen == 0 {
                self.cursor_index = 0;
            } else if self.cursor_index >= flen {
                self.cursor_index = flen - 1;
            }
            self.filtered_options = opts;
        }
    }

    /// Apply one non-terminal key: navigation when unmodified (or `j`/`k`
    /// under vim mode), space toggles, right checks all visible, left
    /// clears, and everything else goes to the editing buffer.
    pub fn on_change(&mut self, key: Key)
        requires
            old(self).wf(),
        ensures
            final(self).wf(),
            ({
                let pre = *old(self);
                let post = *final(self);
                match key {
                    Key::Up(m) => if m == KeyModifiers::Plain {
                        up_step(pre, post)
                    } else {
                        edit_step(pre, post, key)
                    },
                    Key::Down(m) => if m == KeyModifiers::Plain {
                        down_step(pre, post)
                    } else {
                        edit_step(pre, post, key)
                    },
                    Key::Right(m) => if m == KeyModifiers::Plain {
                        select_all_step(pre, post)
                    } else {
                        edit_step(pre, post, key)
                    },
                    Key::Left(m) => if m == KeyModifiers::Plain {
                        select_none_step(pre, post)
                    } else {
                        edit_step(pre, post, key)
                    },
                    Key::Char(c, m) => if c == 'k' && m == KeyModifiers::Plain && pre.vim_mode {
                        up_step(pre, post)
                    } else if c == 'j' && m == KeyModifiers::Plain && pre.vim_mode {
                        down_step(pre, post)
                    } else if c == ' ' && m == KeyModifiers::Plain {
                        toggle_step(pre, post)
                    } else {
                        edit_step(pre, post, key)
                    },
                    _ => edit_step(pre, post, key),
                }
            }),
    {
        match key {
            Key::Up(m) => {
                if matches!(m, KeyModifiers::Plain) {
                    self.move_cursor_up();
                } else {
                    self.apply_edit(key);
                }
            },
            Key::Down(m) => {
                if matches!(m, KeyModifiers::Plain) {
                    self.move_cursor_down();
                } else {
                    self.apply_edit(key);
                }
            },
            Key::Right(m) => {
                if matches!(m, KeyModifiers::Plain) {
                    self.select_all_visible();
                } else {
                    self.apply_edit(key);
                }
            },
            Key::Left(m) => {
                if matches!(m, KeyModifiers::Plain) {
                    self.select_none();
                } else {
                    self.apply_edit(key);
                }
            },
            Key::Char(c, m) => {
                if c == 'k' && matches!(m, KeyModifiers::Plain) && self.vim_mode {
                    self.move_cursor_up();
                } else if c == 'j' && matches!(m, KeyModifiers::Plain) && self.vim_mode {
                    self.move_cursor_down();
                } else if c == ' ' && matches!(m, KeyModifiers::Plain) {
                    self.toggle_cursor_selection();
                } else {
                    self.apply_edit(key);
                }
            },
            _ => {
                self.apply_edit(key);
            },
        }
    }

    /// Assemble the candidate answer — the checked options in original list
    /// order — and gate it through the validator if one is configured. A
    /// rejection returns the validator's message.
    pub fn get_final_answer(&self) -> (r: Result<Vec<OptionAnswer>, String>)
        requires
            self.wf(),
        ensures
            r matches Ok(ans) ==> {
                &&& answers_correspond(ans@, self.options@, self.checked@)
                &&& self.validator matches Some(v) ==> v.validate_spec(ans@) is Ok
            },
            self.validator is None ==> r is Ok,
            r matches Err(m) ==> (self.validator matches Some(v) && exists|ans: Seq<OptionAnswer>|
                {
                    &&& answers_correspond(ans, self.options@, self.checked@)
                    &&& ((#[trigger] v.validate_spec(ans)) matches Err(s) && m@ == s)
                }),
    {
        let n = self.options.len();
        let mut out: Vec<OptionAnswer> = Vec::new();
        let mut i: usize = 0;
        while i < n
            invariant
                i <= n,
                n == self.options@.len(),
                self.wf(),
                forall|k: int|
                    0 <= k < out@.len() ==> {
                        &&& (((#[trigger] out@[k]).index as int) < i)
                        &&& self.checked@[out@[k].index as int]
                        &&& out@[k].value@ == self.options@[out@[k].index as int]@
                    },
                forall|k1: int, k2: int| 0 <= k1 < k2 < out@.len() ==> out@[k1].index
                    < out@[k2].index,
                forall|i2: int|
                    0 <= i2 < i && self.checked@[i2] ==> exists|k: int|
                        0 <= k < out@.len() && (#[trigger] out@[k]).index as int == i2,
            decreases n - i,
        {
            if self.checked[i] {
                let ghost out0 = out@;
                out.push(OptionAnswer::new(i, self.options[i].as_str()));
                proof {
                    assert forall|i2: int|
                        0 <= i2 <= i as int && self.checked@[i2] implies exists|k: int|
                        0 <= k < out@.len() && (#[trigger] out@[k]).index as int == i2 by {
                        if i2 == i as int {
                            assert(out@[out@.len() - 1].index as int == i2);
                        } else {
                            let k = choose|k: int|
                                0 <= k < out0.len() && (#[trigger] out0[k]).index as int == i2;
                            assert(out@[k].index as int == i2);
                        }
                    }
                }
            }
            i = i + 1;
        }
        match &self.validator {
            Some(v) => match v.validate(&out) {
                Ok(_) => Ok(out),
                Err(m) => {
                    proof {
                        assert(answers_correspond(out@, self.options@, self.checked@));
                    }
                    Err(m)
                },
            },
            None => Ok(out),
        }
    }

    /// One submission attempt: returns the confirmed answer when the
    /// validator (if any) accepts; otherwise records the rejection message
    /// as the transient session error and returns nothing, leaving the
    /// checked set and the rest of the session untouched.
    pub fn submit(&mut self) -> (r: Option<Vec<OptionAnswer>>)
        requires
            old(self).wf(),
        ensures
            final(self).wf(),
            config_kept(*old(self), *final(self)),
            final(self).checked == old(self).checked,
            final(self).input == old(self).input,
            final(self).filtered_options == old(self).filtered_options,
            final(self).cursor_index == old(self).cursor_index,
            old(self).validator is None ==> r is Some,
            r matches Some(ans) ==> {
                &&& answers_correspond(ans@, old(self).options@, old(self).checked@)
                &&& old(self).validator matches Some(v) ==> v.validate_spec(ans@) is Ok
                &&& final(self).error == old(self).error
            },
            r is None ==> (old(self).validator matches Some(v) && exists|ans: Seq<OptionAnswer>|
                {
                    &&& answers_correspond(ans, old(self).options@, old(self).checked@)
                    &&& ((#[trigger] v.validate_spec(ans)) matches Err(s) && (final(self).error
                        matches Some(e) && e@ == s))
                }),
    {
        match self.get_final_answer() {
            Ok(ans) => Some(ans),
            Err(m) => {
                self.error = Some(m);
                None
            },
        }
    }

    /// Project the session onto one visual frame: exactly what the render
    /// boundary is handed, pinned as data. The option lines are the visible
    /// window of the filtered list: `min(page_size, filtered len)` entries
    /// starting at `page_start`, each carrying its label, whether the cursor
    /// sits on it (true for exactly one line whenever any line is visible),
    /// and whether its original index is checked.
    pub fn frame_plan(&self) -> (r: FramePlan)
        requires
            self.wf(),
        ensures
            ({
                let flen = self.filtered_options@.len() as int;
                let start = page_start(self.page_size as int, flen, self.cursor_index as int);
                let width: int = if self.page_size as int <= flen {
                    self.page_size as int
                } else {
                    flen
                };
                &&& r.message@ == self.message@
                &&& r.query@ == self.input.chars@
                &&& (r.error is Some <==> self.error is Some)
                &&& (r.error matches Some(e) ==> (self.error matches Some(e0) && e@ == e0@))
                &&& (r.help is Some <==> self.help_message is Some)
                &&& (r.help matches Some(h) ==> (self.help_message matches Some(h0) && h@ == h0@))
                &&& r.lines@.len() == width
                &&& forall|j: int|
                    0 <= j < width ==> {
                        let idx = self.filtered_options@[start + j] as int;
                        &&& (#[trigger] r.lines@[j]).0@ == self.options@[idx]@
                        &&& r.lines@[j].1 == (start + j == self.cursor_index as int)
                        &&& r.lines@[j].2 == self.checked@[idx]
                    }
            }),
    {
        let page = paginate(self.page_size, self.filtered_options.len(), self.cursor_index);
        let mut lines: Vec<(String, bool, bool)> = Vec::new();
        let mut k = page.start;
        while k < page.end
            invariant
                self.wf(),
                page.start <= k <= page.end,
                page.end <= self.filtered_options@.len(),
                lines@.len() == k - page.start,
                forall|j: int|
                    0 <= j < lines@.len() ==> {
                        let idx = self.filtered_options@[page.start + j] as int;
                        &&& (#[trigger] lines@[j]).0@ == self.options@[idx]@
                        &&& lines@[j].1 == (page.start + j == self.cursor_index as int)
                        &&& lines@[j].2 == self.checked@[idx]
                    },
            decreases page.end - k,
        {
            let idx = self.filtered_options[k];
            lines.push((self.options[idx].clone(), k == self.cursor_index, self.checked[idx]));
            k = k + 1;
        }
        FramePlan {
            error: match &self.error {
                Some(e) => Some(e.clone()),
                None => None,
            },
            message: self.message.clone(),
            query: self.input.content(),
            lines,
            help: match &self.help_message {
                Some(h) => Some(h.clone()),
                None => None,
            },
        }
    }

    /// Request one visual frame: the transient error if set, the prompt
    /// line with the live filter text, the visible page of options with
    /// cursor and check marks, and the help line if configured. What is
    /// handed to each backend call is pinned by `frame_plan`; only the call
    /// order itself lies beyond contract.
    pub fn render<B: MultiSelectBackend>(&self, backend: &mut B) -> (r: Result<(), InquireError>)
        requires
            self.wf(),
    {
        let plan = self.frame_plan();
        backend.frame_setup()?;
        match &plan.error {
            Some(err) => {
                backend.render_error_message(err.as_str())?;
            },
            None => {},
        }
        backend.render_multiselect_prompt(plan.message.as_str(), plan.query.as_str())?;
        let total = plan.lines.len();
        let mut j: usize = 0;
        while j < total
            invariant
                j <= total,
                total == plan.lines@.len(),
            decreases total - j,
        {
            let line = &plan.lines[j];
            backend.render_option(line.0.as_str(), line.1, line.2)?;
            j = j + 1;
        }
        match &plan.help {
            Some(help) => {
                backend.render_help_message(help.as_str())?;
            },
            None => {},
        }
        backend.frame_finish()?;
        Ok(())
    }

    /// The interaction loop: render, block for a key, apply it; cancel ends
    /// the session at once with no validation, submit ends it when the
    /// validator (if any) accepts, and every other key stays in the session.
    pub fn prompt<B: MultiSelectBackend>(self, backend: &mut B) -> (r: Result<
        Vec<OptionAnswer>,
        InquireError,
    >)
        requires
            self.wf(),
        ensures
            r matches Ok(ans) ==> {
                &&& exists|ch: Seq<bool>|
                    ch.len() == self.options@.len() && answers_correspond(
                        ans@,
                        self.options@,
                        ch,
                    )
                &&& self.validator matches Some(v) ==> v.validate_spec(ans@) is Ok
            },
    {
        let mut session = self;
        let ghost orig_options = session.options@;
        let ghost orig_validator = session.validator;
        // Termination bookkeeping only: no session outlives usize::MAX keys.
        let mut fuel: usize = usize::MAX;
        loop
            invariant
                session.wf(),
                session.options@ == orig_options,
                session.validator == orig_validator,
                orig_options == self.options@,
                orig_validator == self.validator,
            decreases fuel,
        {
            if fuel == 0 {
                return Err(
                    InquireError::IO("the key source never produced a terminal key".to_owned()),
                );
            }
            fuel = fuel - 1;
            match session.render(backend) {
                Ok(_) => {},
                Err(e) => {
                    return Err(e);
                },
            }
            let key = match backend.read_key() {
                Ok(k) => k,
                Err(e) => {
                    return Err(e);
                },
            };
            match key {
                Key::Cancel => {
                    return Err(InquireError::OperationCanceled);
                },
                Key::Submit => {
                    match session.submit() {
                        Some(ans) => {
                            let formatted = session.formatter.format(&ans);
                            match backend.finish_prompt(
                                session.message.as_str(),
                                formatted.as_str(),
                            ) {
                                Ok(_) => {},
                                Err(e) => {
                                    return Err(e);
                                },
                            }
                            proof {
                                let ch = session.checked@;
                                assert(ch.len() == self.options@.len());
                                assert(answers_correspond(ans@, self.options@, ch));
                            }
                            return Ok(ans);
                        },
                        None => {},
                    }
                },
                other => {
                    session.on_change(other);
                },
            }
        }
    }
}

} // verus!
