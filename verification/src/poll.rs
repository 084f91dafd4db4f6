use vstd::prelude::*;

verus! {

/// The poll loop's cursor: the timestamp of the last message handled to
/// the end, kept so that nothing below it is ever reprocessed.
pub struct PollCursor {
    pub watermark: i64,
}

impl PollCursor {
    pub fn new(watermark: i64) -> (c: PollCursor)
        ensures
            c.watermark == watermark,
    {
        PollCursor { watermark }
    }

    /// Whether a message is new under the watermark.
    pub fn should_process(&self, ts: i64) -> (r: bool)
        ensures
            r == (ts > self.watermark),
    {
        ts > self.watermark
    }

    /// Move the watermark up to a handled message, one message at a time,
    /// never in bulk.  The watermark only ever grows.
    pub fn advance(&mut self, ts: i64)
        requires
            ts > old(self).watermark,
        ensures
            final(self).watermark == ts,
            final(self).watermark > old(self).watermark,
    {
        self.watermark = ts;
    }
}

/// Plan one poll cycle over the visible messages' timestamps: the
/// messages newer than the watermark, each exactly once, in ascending
/// timestamp order; everything at or below the watermark is left alone.
pub fn plan_cycle(timestamps: &Vec<i64>, watermark: i64) -> (order: Vec<usize>)
    ensures
        forall|k: int|
            0 <= k < order@.len() ==> order@[k] < timestamps@.len() && timestamps@[order@[k] as int]
                > watermark,
        forall|k: int, l: int|
            0 <= k < l < order@.len() ==> timestamps@[order@[k] as int] <= timestamps@[order@[l] as int],
        forall|k: int, l: int| 0 <= k < l < order@.len() ==> order@[k] != order@[l],
        forall|j: int|
            0 <= j < timestamps@.len() && timestamps@[j] > watermark ==> order@.contains(j as usize),
{
    let n = timestamps.len();
    let mut order: Vec<usize> = Vec::new();
    let mut j: usize = 0;
    while j < n
        invariant
            0 <= j <= n,
            n == timestamps@.len(),
            forall|k: int|
                0 <= k < order@.len() ==> order@[k] < j && timestamps@[order@[k] as int]
                    > watermark,
            forall|k: int, l: int|
                0 <= k < l < order@.len() ==> timestamps@[order@[k] as int] <= timestamps@[order@[l] as int],
            forall|k: int, l: int| 0 <= k < l < order@.len() ==> order@[k] != order@[l],
            forall|t: int|
                0 <= t < j && timestamps@[t] > watermark ==> order@.contains(t as usize),
        decreases n - j,
    {
        if timestamps[j] > watermark {
            let mut p: usize = 0;
            while p < order.len() && timestamps[order[p]] <= timestamps[j]
                invariant
                    0 <= p <= order@.len(),
                    n == timestamps@.len(),
                    j < n,
                    forall|k: int|
                        0 <= k < order@.len() ==> order@[k] < n,
                    forall|q: int|
                        0 <= q < p ==> timestamps@[order@[q] as int] <= timestamps@[j as int],
                decreases order@.len() - p,
            {
                p += 1;
            }
            let ghost oldorder = order@;
            order.insert(p, j);
            proof {
                assert forall|k: int|
                    0 <= k < order@.len() implies order@[k] < j + 1 && timestamps@[order@[k] as int]
                    > watermark by {
                    if k < p {
                        assert(order@[k] == oldorder[k]);
                    } else if k > p {
                        assert(order@[k] == oldorder[k - 1]);
                    }
                }
                assert forall|k: int, l: int|
                    0 <= k < l < order@.len() implies timestamps@[order@[k] as int]
                    <= timestamps@[order@[l] as int] by {
                    if k < p {
                        assert(order@[k] == oldorder[k]);
                    } else if k > p {
                        assert(order@[k] == oldorder[k - 1]);
                    }
                    if l < p {
                        assert(order@[l] == oldorder[l]);
                    } else if l > p {
                        assert(order@[l] == oldorder[l - 1]);
                    }
                }
                assert forall|k: int, l: int|
                    0 <= k < l < order@.len() implies order@[k] != order@[l] by {
                    if k < p {
                        assert(order@[k] == oldorder[k]);
                    } else if k > p {
                        assert(order@[k] == oldorder[k - 1]);
                    }
                    if l < p {
                        assert(order@[l] == oldorder[l]);
                    } else if l > p {
                        assert(order@[l] == oldorder[l - 1]);
                    }
                }
                assert forall|t: int|
                    0 <= t < j + 1 && timestamps@[t] > watermark implies order@.contains(
                    t as usize,
                ) by {
                    if t == j {
                        assert(order@[p as int] == t as usize);
                    } else {
                        let q = choose|q: int|
                            0 <= q < oldorder.len() && oldorder[q] == t as usize;
                        if q < p {
                            assert(order@[q] == t as usize);
                        } else {
                            assert(order@[q + 1] == t as usize);
                        }
                    }
                }
            }
        }
        j += 1;
    }
    order
}

} // verus!
