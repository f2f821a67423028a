//! The paged scroll model shared by every list page: the selected index is
//! rounded down to the start of its page.

use vstd::prelude::*;

verus! {

/// How many pages it takes to show `item_count` items, `visible` at a time.
pub open spec fn spec_page_count(item_count: nat, visible: nat) -> nat
    recommends
        visible > 0,
{
    if item_count % visible > 0 {
        item_count / visible + 1
    } else {
        item_count / visible
    }
}

/// The first index of the page that `selected_index` falls on.
pub open spec fn spec_page_start(selected_index: nat, visible: nat) -> nat
    recommends
        visible > 0,
{
    (selected_index - selected_index % visible) as nat
}

/// Maps a list's length, the window height and the selected index to the
/// zero-based page number, the total page count and the index of the first
/// visible item. The start of the page never lies past the selection and is
/// always a multiple of the window height.
pub fn pagination(item_count: usize, visible_item_count: usize, selected_index: usize) -> (r: (
    usize,
    usize,
    usize,
))
    requires
        visible_item_count > 0,
    ensures
        r.2 == spec_page_start(selected_index as nat, visible_item_count as nat),
        r.2 <= selected_index,
        r.2 % visible_item_count == 0,
        r.1 == spec_page_count(item_count as nat, visible_item_count as nat),
        r.0 == selected_index as int / visible_item_count as int,
{
    proof {
        let s = selected_index as int;
        let v = visible_item_count as int;
        let c = item_count as int;
        vstd::arithmetic::div_mod::lemma_fundamental_div_mod(s, v);
        vstd::arithmetic::div_mod::lemma_div_pos_is_pos(s, v);
        vstd::arithmetic::mul::lemma_mul_nonnegative(v, s / v);
        assert(s - s % v == v * (s / v));
        vstd::arithmetic::div_mod::lemma_mod_multiples_basic(s / v, v);
        vstd::arithmetic::div_mod::lemma_div_by_multiple(s / v, v);
        assert((s / v) * v == v * (s / v)) by (nonlinear_arith);
        assert((s - s % v) / v == s / v);
        if c % v > 0 {
            assert(v >= 2);
            vstd::arithmetic::div_mod::lemma_div_is_ordered_by_denominator(c, 2, v);
            vstd::arithmetic::div_mod::lemma_div_is_ordered(c, usize::MAX as int, 2);
        }
    }
    let page_start_index = selected_index - (selected_index % visible_item_count);
    let pages = if item_count % visible_item_count > 0 {
        item_count / visible_item_count + 1
    } else {
        item_count / visible_item_count
    };
    let page = if page_start_index % visible_item_count > 0 {
        page_start_index / visible_item_count + 1
    } else {
        page_start_index / visible_item_count
    };
    (page, pages, page_start_index)
}

// ---------------------------------------------------------------------------
// Selection movement shared by the list pages
// ---------------------------------------------------------------------------
/// A selected index is valid when it lies inside the list, or is zero for an
/// empty list.
pub open spec fn sel_wf(i: nat, len: nat) -> bool {
    if len == 0 {
        i == 0
    } else {
        i < len
    }
}

/// Moving down by one wraps from the last item to the first.
pub open spec fn wrap_next(i: nat, len: nat) -> nat {
    if i + 1 < len {
        i + 1
    } else {
        0
    }
}

/// Moving up by one wraps from the first item to the last.
pub open spec fn wrap_prev(i: nat, len: nat) -> nat {
    if i > 0 {
        (i - 1) as nat
    } else if len > 0 {
        (len - 1) as nat
    } else {
        0
    }
}

/// Moving down by a page stops at the last item.
pub open spec fn clamp_add(i: nat, h: nat, len: nat) -> nat {
    if len == 0 {
        0
    } else if i + h > len - 1 {
        (len - 1) as nat
    } else {
        i + h
    }
}

/// Moving up by a page stops at the first item.
pub open spec fn clamp_sub(i: nat, h: nat) -> nat {
    if i < h {
        0
    } else {
        (i - h) as nat
    }
}

/// Where the End key lands: the last item.
pub open spec fn end_index(len: nat) -> nat {
    if len > 0 {
        (len - 1) as nat
    } else {
        0
    }
}

/// `wrap_next` applied `n` times.
pub open spec fn wrap_next_n(i: nat, n: nat, len: nat) -> nat
    decreases n,
{
    if n == 0 {
        i
    } else {
        wrap_next(wrap_next_n(i, (n - 1) as nat, len), len)
    }
}

proof fn lemma_wrap_next_k(k: nat, len: nat)
    requires
        k < len,
    ensures
        wrap_next_n(0, k, len) == k,
    decreases k,
{
    if k > 0 {
        lemma_wrap_next_k((k - 1) as nat, len);
    }
}

/// Law: in a list of `len` items, advancing the selection `len` times from the
/// top wraps back to the top, and moving back once from the top selects the
/// last item.
pub proof fn lemma_selection_wraps(len: nat)
    requires
        len >= 1,
    ensures
        wrap_next_n(0, len, len) == 0,
        wrap_prev(0, len) == len - 1,
{
    lemma_wrap_next_k((len - 1) as nat, len);
}

} // verus!
