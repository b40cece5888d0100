//! Finds the part of the framebuffer that changed since the last flush.

use vstd::prelude::*;

verus! {

/// Bytes per row as the diff counts them when it turns a byte index into a
/// column and a row.
pub const DIFF_STRIDE: usize = 128;

/// Whether the two buffers differ at index `i`.
pub open spec fn differs_at(cur: Seq<u8>, prev: Seq<u8>, i: int) -> bool {
    0 <= i < cur.len() && cur[i] != prev[i]
}

/// Index of the first differing byte at or after `i`, or 0 if there is none.
pub open spec fn first_change_from(cur: Seq<u8>, prev: Seq<u8>, i: int) -> int
    decreases cur.len() - i,
{
    if i < 0 || i >= cur.len() {
        0
    } else if cur[i] != prev[i] {
        i
    } else {
        first_change_from(cur, prev, i + 1)
    }
}

/// Index of the first differing byte, or 0 if the buffers are equal.
pub open spec fn first_change(cur: Seq<u8>, prev: Seq<u8>) -> int {
    first_change_from(cur, prev, 0)
}

/// One past the last differing byte below `n`, or the buffer's length if
/// there is none.
pub open spec fn last_change_below(cur: Seq<u8>, prev: Seq<u8>, n: int) -> int
    decreases n,
{
    if n <= 0 || n > cur.len() {
        cur.len() as int
    } else if cur[n - 1] != prev[n - 1] {
        n
    } else {
        last_change_below(cur, prev, n - 1)
    }
}

/// One past the last differing byte, or the buffer's length if the buffers
/// are equal.
pub open spec fn last_change(cur: Seq<u8>, prev: Seq<u8>) -> int {
    last_change_below(cur, prev, cur.len() as int)
}

/// An inclusive rectangle of columns and rows on the device.
#[derive(Clone, Copy, Debug, PartialEq, Eq, Structural)]
pub struct Window {
    pub start_column: u8,
    pub start_row: u8,
    pub end_column: u8,
    pub end_row: u8,
}

/// The window spanned by the byte indices `first` and `last`: it starts at
/// the column and row of `first` and ends at the column and row of `last`,
/// which for a changed span is the index one past the last change.
pub open spec fn window_of(first: int, last: int) -> Window {
    Window {
        start_column: (first % 128) as u8,
        start_row: (first / 128) as u8,
        end_column: (last % 128) as u8,
        end_row: (last / 128) as u8,
    }
}

/// Whether byte index `i` falls inside the window `w`.
pub open spec fn in_window(w: Window, i: int) -> bool {
    &&& w.start_column <= i % 128 <= w.end_column
    &&& w.start_row <= i / 128 <= w.end_row
}

/// The bytes of `cur` with index in `first..last` that fall inside `w`, in
/// ascending order of index.
pub open spec fn window_payload(cur: Seq<u8>, w: Window, first: int, last: int) -> Seq<u8>
    decreases last - first,
{
    if last <= first {
        Seq::empty()
    } else if in_window(w, last - 1) {
        window_payload(cur, w, first, last - 1).push(cur[last - 1])
    } else {
        window_payload(cur, w, first, last - 1)
    }
}

proof fn lemma_first_change_from(cur: Seq<u8>, prev: Seq<u8>, i: int)
    requires
        0 <= i <= cur.len(),
    ensures
        (forall|j: int| i <= j < cur.len() ==> cur[j] == prev[j]) ==> first_change_from(
            cur,
            prev,
            i,
        ) == 0,
        (exists|j: int| i <= j && differs_at(cur, prev, j)) ==> {
            let f = first_change_from(cur, prev, i);
            &&& i <= f
            &&& differs_at(cur, prev, f)
            &&& forall|j: int| i <= j < f ==> cur[j] == prev[j]
        },
    decreases cur.len() - i,
{
    if i < cur.len() {
        lemma_first_change_from(cur, prev, i + 1);
        if cur[i] == prev[i] {
            if exists|j: int| i <= j && differs_at(cur, prev, j) {
                let j = choose|j: int| i <= j && differs_at(cur, prev, j);
                assert(i + 1 <= j && differs_at(cur, prev, j));
            }
        }
    }
}

proof fn lemma_last_change_below(cur: Seq<u8>, prev: Seq<u8>, n: int)
    requires
        0 <= n <= cur.len(),
    ensures
        (forall|j: int| 0 <= j < n ==> cur[j] == prev[j]) ==> last_change_below(cur, prev, n)
            == cur.len(),
        (exists|j: int| j < n && differs_at(cur, prev, j)) ==> {
            let l = last_change_below(cur, prev, n);
            &&& 0 < l <= n
            &&& differs_at(cur, prev, l - 1)
            &&& forall|j: int| l <= j < n ==> cur[j] == prev[j]
        },
    decreases n,
{
    if n > 0 {
        lemma_last_change_below(cur, prev, n - 1);
        if cur[n - 1] == prev[n - 1] {
            if exists|j: int| j < n && differs_at(cur, prev, j) {
                let j = choose|j: int| j < n && differs_at(cur, prev, j);
                assert(j < n - 1 && differs_at(cur, prev, j));
            }
        }
    }
}

/// Buffers that agree everywhere give the fallback span: it starts at 0 and
/// ends at the buffer's length.
pub proof fn lemma_unchanged_span(cur: Seq<u8>, prev: Seq<u8>)
    requires
        cur.len() == prev.len(),
        forall|j: int| 0 <= j < cur.len() ==> cur[j] == prev[j],
    ensures
        first_change(cur, prev) == 0,
        last_change(cur, prev) == cur.len(),
{
    lemma_first_change_from(cur, prev, 0);
    lemma_last_change_below(cur, prev, cur.len() as int);
}

/// Buffers that differ somewhere give the tightest span: it starts at the
/// lowest differing index and ends one past the highest.
pub proof fn lemma_changed_span(cur: Seq<u8>, prev: Seq<u8>, k: int)
    requires
        cur.len() == prev.len(),
        differs_at(cur, prev, k),
    ensures
        differs_at(cur, prev, first_change(cur, prev)),
        differs_at(cur, prev, last_change(cur, prev) - 1),
        first_change(cur, prev) <= k < last_change(cur, prev),
        forall|j: int| 0 <= j < first_change(cur, prev) ==> cur[j] == prev[j],
        forall|j: int| last_change(cur, prev) <= j < cur.len() ==> cur[j] == prev[j],
{
    lemma_first_change_from(cur, prev, 0);
    lemma_last_change_below(cur, prev, cur.len() as int);
}

/// Buffers that differ at index `k` only give the span of that index alone.
/// The window then covers the byte, which is the whole payload, unless the
/// byte sits in the last column of the stride: the window's end column then
/// wraps to 0 and the payload is empty.
pub proof fn lemma_single_change(cur: Seq<u8>, prev: Seq<u8>, k: int)
    requires
        cur.len() == prev.len(),
        cur.len() <= 32767,
        differs_at(cur, prev, k),
        forall|j: int| 0 <= j < cur.len() && j != k ==> cur[j] == prev[j],
    ensures
        first_change(cur, prev) == k,
        last_change(cur, prev) == k + 1,
        k % 128 != 127 ==> window_of(k, k + 1) == (Window {
            start_column: (k % 128) as u8,
            start_row: (k / 128) as u8,
            end_column: (k % 128 + 1) as u8,
            end_row: (k / 128) as u8,
        }),
        k % 128 != 127 ==> window_payload(cur, window_of(k, k + 1), k, k + 1) == seq![cur[k]],
        k % 128 == 127 ==> window_payload(cur, window_of(k, k + 1), k, k + 1) == Seq::<
            u8,
        >::empty(),
{
    lemma_changed_span(cur, prev, k);
    let w = window_of(k, k + 1);
    assert(window_payload(cur, w, k, k) == Seq::<u8>::empty());
    if k % 128 != 127 {
        assert(in_window(w, k));
        assert(window_payload(cur, w, k, k + 1) =~= seq![cur[k]]);
    } else {
        assert(!in_window(w, k));
    }
}

/// Whatever the buffers hold, the span lies inside the buffer.
pub proof fn lemma_span_bounds(cur: Seq<u8>, prev: Seq<u8>)
    requires
        cur.len() == prev.len(),
    ensures
        0 <= first_change(cur, prev) <= last_change(cur, prev) <= cur.len(),
        cur.len() > 0 ==> first_change(cur, prev) < cur.len(),
{
    lemma_first_change_from(cur, prev, 0);
    lemma_last_change_below(cur, prev, cur.len() as int);
    if exists|j: int| differs_at(cur, prev, j) {
        let k = choose|j: int| differs_at(cur, prev, j);
        assert(0 <= k && differs_at(cur, prev, k));
        assert(k < cur.len() && differs_at(cur, prev, k));
        lemma_changed_span(cur, prev, k);
    } else {
        assert forall|j: int| 0 <= j < cur.len() implies cur[j] == prev[j] by {
            assert(!differs_at(cur, prev, j));
        }
    }
}

/// A full framebuffer compared with itself gives the fallback window: column
/// 0 only, rows 0 to 64.
pub proof fn lemma_unchanged_window(buf: Seq<u8>)
    requires
        buf.len() == 8192,
    ensures
        window_of(first_change(buf, buf), last_change(buf, buf)) == (Window {
            start_column: 0,
            start_row: 0,
            end_column: 0,
            end_row: 64,
        }),
{
    lemma_unchanged_span(buf, buf);
}

/// Finds the span of bytes that changed: the index of the first differing
/// byte and one past the last. Equal buffers give `(0, len)`.
pub fn changed_span(cur: &Vec<u8>, prev: &Vec<u8>) -> (r: (usize, usize))
    requires
        cur@.len() == prev@.len(),
    ensures
        r.0 == first_change(cur@, prev@),
        r.1 == last_change(cur@, prev@),
        r.0 <= r.1 <= cur@.len(),
{
    let n: usize = cur.len();
    let mut first: usize = 0;
    let mut i: usize = 0;
    while i < n
        invariant_except_break
            i <= n,
            first == 0,
            first_change_from(cur@, prev@, i as int) == first_change(cur@, prev@),
        invariant
            n == cur@.len(),
            n == prev@.len(),
        ensures
            first == first_change(cur@, prev@),
        decreases n - i,
    {
        if cur[i] != prev[i] {
            first = i;
            break ;
        }
        i += 1;
    }
    let mut last: usize = n;
    let mut k: usize = n;
    while k > 0
        invariant_except_break
            k <= n,
            last == n,
            last_change_below(cur@, prev@, k as int) == last_change(cur@, prev@),
        invariant
            n == cur@.len(),
            n == prev@.len(),
        ensures
            last == last_change(cur@, prev@),
        decreases k,
    {
        if cur[k - 1] != prev[k - 1] {
            last = k;
            break ;
        }
        k -= 1;
    }
    proof {
        lemma_span_bounds(cur@, prev@);
    }
    (first, last)
}

/// Turns a span of byte indices into the device window that covers it.
pub fn span_window(first: usize, last: usize) -> (w: Window)
    requires
        first <= 32767,
        last <= 32767,
    ensures
        w == window_of(first as int, last as int),
{
    Window {
        start_column: (first % DIFF_STRIDE) as u8,
        start_row: (first / DIFF_STRIDE) as u8,
        end_column: (last % DIFF_STRIDE) as u8,
        end_row: (last / DIFF_STRIDE) as u8,
    }
}

/// Whether byte index `i` falls inside the window `w`.
pub fn index_in_window(w: &Window, i: usize) -> (r: bool)
    ensures
        r == in_window(*w, i as int),
{
    let column: usize = i % DIFF_STRIDE;
    let row: usize = i / DIFF_STRIDE;
    column >= w.start_column as usize && column <= w.end_column as usize && row
        >= w.start_row as usize && row <= w.end_row as usize
}

/// Computes the window that a partial flush addresses for these two buffers.
pub fn diff_window(cur: &Vec<u8>, prev: &Vec<u8>) -> (w: Window)
    requires
        cur@.len() == prev@.len(),
        cur@.len() <= 32767,
    ensures
        w == window_of(first_change(cur@, prev@), last_change(cur@, prev@)),
{
    let span = changed_span(cur, prev);
    span_window(span.0, span.1)
}

} // verus!
