//! Contact windows between two nodes of the relay network.
//!
//! A contact window is a stretch of time during which two nodes have an
//! unobstructed line of sight. Time is sampled at a fixed step; for each
//! sample the line of sight is either clear or blocked. A window opens at the
//! first clear sample after a blocked one (a rising edge) and closes at the
//! first blocked sample after it (a falling edge). A window that is still open
//! after the last sample closes at the end of the planning horizon.
//!
//! Windows are given as pairs of sample indices `(start, end)`: `start` is the
//! index of the rising-edge sample, `end` is the index of the falling-edge
//! sample, or the number of samples when the window closes at the horizon.

use vstd::prelude::*;

verus! {

/// A node in the contact graph, satellite or ground station.
#[derive(Debug, Clone, PartialEq, Eq)]
pub struct NodeId(pub &'static str);

impl NodeId {
    /// The node's display name.
    pub fn to_string(&self) -> (s: String)
        ensures
            s@ == self.0@,
    {
        String::from_str(self.0)
    }
}

/// `(start, end)` is a maximal run of clear samples of `visible`:
/// every sample in `start..end` is clear, the sample before `start` (if any)
/// is blocked, and the sample at `end` (if any) is blocked.
pub open spec fn is_window(visible: Seq<bool>, start: int, end: int) -> bool {
    &&& 0 <= start < end <= visible.len()
    &&& forall|i: int| start <= i < end ==> #[trigger] visible[i]
    &&& start == 0 || !visible[start - 1]
    &&& end == visible.len() || !visible[end]
}

/// Sample `i` lies inside one of the windows.
pub open spec fn covered(windows: Seq<(usize, usize)>, i: int) -> bool {
    exists|k: int| 0 <= k < windows.len() && #[trigger] windows[k].0 <= i < windows[k].1
}

/// `windows` lists exactly the maximal runs of clear samples of `visible`,
/// in increasing order of time.
pub open spec fn contact_windows_of(visible: Seq<bool>, windows: Seq<(usize, usize)>) -> bool {
    &&& forall|k: int|
        0 <= k < windows.len() ==> is_window(visible, #[trigger] windows[k].0 as int, windows[k].1 as int)
    &&& forall|k: int, l: int|
        0 <= k < l < windows.len() ==> #[trigger] windows[k].1 < #[trigger] windows[l].0
    &&& forall|i: int| 0 <= i < visible.len() && #[trigger] visible[i] ==> covered(windows, i)
}

/// Turn a series of line-of-sight samples into contact windows.
///
/// `visible[i]` tells whether the line of sight was clear at the `i`-th
/// sample time. The result lists every window, sorted by start.
pub fn contact_windows(visible: &Vec<bool>) -> (windows: Vec<(usize, usize)>)
    ensures
        contact_windows_of(visible@, windows@),
{
    let n = visible.len();
    let mut windows: Vec<(usize, usize)> = Vec::new();
    let mut open: Option<usize> = None;
    let mut i: usize = 0;
    while i < n
        invariant
            n == visible@.len(),
            0 <= i <= n,
            forall|k: int|
                0 <= k < windows@.len() ==> is_window(visible@, #[trigger] windows@[k].0 as int, windows@[k].1 as int),
            forall|k: int|
                0 <= k < windows@.len() ==> #[trigger] windows@[k].1 < i,
            forall|k: int, l: int|
                0 <= k < l < windows@.len() ==> #[trigger] windows@[k].1 < #[trigger] windows@[l].0,
            match open {
                Some(s) => {
                    &&& s < i
                    &&& forall|j: int| s <= j < i ==> #[trigger] visible@[j]
                    &&& s == 0 || !visible@[s - 1]
                    &&& forall|k: int| 0 <= k < windows@.len() ==> #[trigger] windows@[k].1 < s
                },
                None => i == 0 || !visible@[i - 1],
            },
            forall|j: int|
                0 <= j < i && #[trigger] visible@[j] ==> covered(windows@, j) || (open matches Some(s)
                    && s <= j),
        decreases n - i,
    {
        let clear = visible[i];
        match open {
            None => {
                if clear {
                    // rising edge: a window opens here
                    open = Some(i);
                }
            },
            Some(s) => {
                if !clear {
                    // falling edge: the window closes here
                    let ghost before = windows@;
                    windows.push((s, i));
                    assert forall|j: int| 0 <= j < i + 1 && #[trigger] visible@[j] implies covered(
                        windows@,
                        j,
                    ) by {
                        if s <= j && j < i {
                            assert(windows@[before.len() as int].0 <= j < windows@[before.len() as int].1);
                        } else {
                            let k = choose|k: int| 0 <= k < before.len() && #[trigger] before[k].0 <= j < before[k].1;
                            assert(windows@[k] == before[k]);
                        }
                    }
                    open = None;
                }
            },
        }
        i = i + 1;
    }
    if let Some(s) = open {
        // the window is still open at the end of the horizon
        let ghost before = windows@;
        windows.push((s, n));
        assert forall|j: int| 0 <= j < n && #[trigger] visible@[j] implies covered(windows@, j) by {
            if s <= j {
                assert(windows@[before.len() as int].0 <= j < windows@[before.len() as int].1);
            } else {
                let k = choose|k: int| 0 <= k < before.len() && #[trigger] before[k].0 <= j < before[k].1;
                assert(windows@[k] == before[k]);
            }
        }
    }
    windows
}

/// Two windows of the same sample series that share a sample are the same window.
proof fn lemma_overlapping_windows_equal(visible: Seq<bool>, a: (usize, usize), b: (usize, usize), i: int)
    requires
        is_window(visible, a.0 as int, a.1 as int),
        is_window(visible, b.0 as int, b.1 as int),
        a.0 <= i < a.1,
        b.0 <= i < b.1,
    ensures
        a == b,
{
    if a.0 < b.0 {
        assert(visible[b.0 - 1]);
    }
    if b.0 < a.0 {
        assert(visible[a.0 - 1]);
    }
    if a.1 < b.1 {
        assert(visible[a.1 as int]);
    }
    if b.1 < a.1 {
        assert(visible[b.1 as int]);
    }
}

/// The first `k` windows of two window lists that both satisfy the contract
/// of `contact_windows` agree.
proof fn lemma_windows_prefix_agree(
    visible: Seq<bool>,
    w1: Seq<(usize, usize)>,
    w2: Seq<(usize, usize)>,
    k: int,
)
    requires
        contact_windows_of(visible, w1),
        contact_windows_of(visible, w2),
        0 <= k <= w1.len(),
    ensures
        k <= w2.len(),
        forall|j: int| 0 <= j < k ==> w1[j] == w2[j],
    decreases k,
{
    if k > 0 {
        let k0 = k - 1;
        lemma_windows_prefix_agree(visible, w1, w2, k0);
        let s = w1[k0].0 as int;
        assert(visible[s]);
        let m = choose|m: int| 0 <= m < w2.len() && #[trigger] w2[m].0 <= s < w2[m].1;
        lemma_overlapping_windows_equal(visible, w1[k0], w2[m], s);
        if m < k0 {
            assert(w1[m] == w2[m]);
            assert(w1[m].1 < w1[k0].0);
        }
        if m > k0 {
            let t = w2[k0].0 as int;
            assert(visible[t]);
            let p = choose|p: int| 0 <= p < w1.len() && #[trigger] w1[p].0 <= t < w1[p].1;
            lemma_overlapping_windows_equal(visible, w1[p], w2[k0], t);
            if p < k0 {
                assert(w1[p] == w2[p]);
                assert(w2[p].1 < w2[k0].0);
            } else if p == k0 {
                assert(w2[k0].1 < w2[m].0);
            } else {
                assert(w1[k0].1 < w1[p].0);
                assert(w2[k0].1 < w2[m].0);
            }
        }
        assert(m == k0);
    }
}

/// The windows of a sample series are determined by the series: two window
/// lists that both satisfy the contract of `contact_windows` are equal.
pub proof fn lemma_contact_windows_determined(
    visible: Seq<bool>,
    w1: Seq<(usize, usize)>,
    w2: Seq<(usize, usize)>,
)
    requires
        contact_windows_of(visible, w1),
        contact_windows_of(visible, w2),
    ensures
        w1 == w2,
{
    lemma_windows_prefix_agree(visible, w1, w2, w1.len() as int);
    if w2.len() > w1.len() {
        let t = w2[w1.len() as int].0 as int;
        assert(visible[t]);
        let p = choose|p: int| 0 <= p < w1.len() && #[trigger] w1[p].0 <= t < w1[p].1;
        lemma_overlapping_windows_equal(visible, w1[p], w2[w1.len() as int], t);
        assert(w1[p] == w2[p]);
        assert(w2[p].1 < w2[w1.len() as int].0);
    }
    assert(w1 =~= w2);
}

/// When the line of sight stays clear at every sample, there is exactly one
/// contact window, and it spans the whole planning horizon.
pub proof fn lemma_always_clear_single_window(visible: Seq<bool>, windows: Seq<(usize, usize)>)
    requires
        visible.len() > 0,
        visible.len() <= usize::MAX,
        forall|i: int| 0 <= i < visible.len() ==> #[trigger] visible[i],
        contact_windows_of(visible, windows),
    ensures
        windows == seq![(0usize, visible.len() as usize)],
{
    let whole = seq![(0usize, visible.len() as usize)];
    assert(is_window(visible, 0, visible.len() as int));
    assert forall|i: int| 0 <= i < visible.len() && #[trigger] visible[i] implies covered(whole, i) by {
        assert(whole[0].0 <= i < whole[0].1);
    }
    assert(contact_windows_of(visible, whole));
    lemma_contact_windows_determined(visible, windows, whole);
}

/// When the line of sight is blocked at every sample, there is no contact window.
pub proof fn lemma_never_clear_no_window(visible: Seq<bool>, windows: Seq<(usize, usize)>)
    requires
        forall|i: int| 0 <= i < visible.len() ==> !#[trigger] visible[i],
        contact_windows_of(visible, windows),
    ensures
        windows.len() == 0,
{
    if windows.len() > 0 {
        assert(is_window(visible, windows[0].0 as int, windows[0].1 as int));
        assert(visible[windows[0].0 as int]);
    }
}

} // verus!
