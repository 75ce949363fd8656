use vstd::prelude::*;
use vstd::seq_lib::group_to_multiset_ensures;
use vstd::seq_lib::to_multiset_insert;

verus! {

/// A run of observations is ordered when no later entry carries an
/// earlier timestamp.
pub open spec fn sorted_by_ts<V>(items: Seq<(usize, V)>) -> bool {
    forall|i: int, j: int| 0 <= i < j < items.len() ==> (#[trigger] items[i]).0 <= (
    #[trigger] items[j]).0
}

/// Sorts observations by timestamp, keeping each value with its
/// timestamp: the result is ordered and holds exactly the given
/// observations.
pub fn sort_pairs_by_ts<V>(items: Vec<(usize, V)>) -> (r: Vec<(usize, V)>)
    ensures
        sorted_by_ts(r@),
        r@.to_multiset() == items@.to_multiset(),
{
    let mut v = items;
    if v.len() <= 1 {
        return v;
    }
    let ghost orig = v@;
    let n = v.len();
    let mut i: usize = 1;
    while i < n
        invariant
            1 <= i <= n,
            n == v@.len(),
            v@.to_multiset() == orig.to_multiset(),
            sorted_by_ts(v@.take(i as int)),
        decreases n - i,
    {
        let cur_ts = v[i].0;
        let mut j: usize = i;
        while 0 < j && cur_ts < v[j - 1].0
            invariant
                j <= i,
                i < n,
                n == v@.len(),
                cur_ts == v@[i as int].0,
                forall|k: int| j <= k < i ==> cur_ts < (#[trigger] v@[k]).0,
            decreases j,
        {
            j -= 1;
        }
        let ghost before = v@;
        let moved = v.remove(i);
        v.insert(j, moved);
        proof {
            broadcast use group_to_multiset_ensures, to_multiset_insert;

            assert(moved == before[i as int] && moved.0 == cur_ts);
            assert(forall|k: int| 0 <= k < j ==> v@[k] == before[k]);
            assert(v@[j as int] == moved);
            assert(forall|k: int| j < k <= i ==> v@[k] == before[k - 1]);
            assert(forall|k: int| 0 <= k < j ==> (#[trigger] before[k]).0 <= cur_ts) by {
                if 0 < j {
                    assert(before[j - 1].0 <= cur_ts);
                    assert(forall|k: int|
                        0 <= k < j - 1 ==> (#[trigger] before[k]).0 <= before[j - 1].0);
                }
            }
            assert forall|a: int, b: int| 0 <= a < b < i + 1 implies (#[trigger] v@[a]).0 <= (
            #[trigger] v@[b]).0 by {
                if a < j {
                    assert(v@[a] == before[a]);
                } else if a == j {
                    assert(v@[a] == moved);
                } else {
                    assert(v@[a] == before[a - 1]);
                }
                if b < j {
                    assert(v@[b] == before[b]);
                } else if b == j {
                    assert(v@[b] == moved);
                } else {
                    assert(v@[b] == before[b - 1]);
                }
            }
            assert(sorted_by_ts(v@.take(i + 1))) by {
                assert(forall|k: int| 0 <= k < i + 1 ==> v@.take(i + 1)[k] == v@[k]);
            }
            assert(before.to_multiset().count(moved) > 0) by {
                assert(before.contains(moved));
            }
            assert(v@.to_multiset() =~= before.to_multiset());
        }
        i += 1;
    }
    proof {
        assert(v@.take(n as int) =~= v@);
    }
    v
}

/// A time series split into parallel columns: `tss[k]` is the timestamp
/// of the reading `vals[k]`.
#[derive(Debug)]
pub struct TSData<V> {
    pub tss: Vec<usize>,
    pub vals: Vec<V>,
}

impl<V> TSData<V> {
    /// The columns zipped back into observations.
    pub open spec fn pairs(&self) -> Seq<(usize, V)> {
        Seq::new(self.tss@.len(), |k: int| (self.tss@[k], self.vals@[k]))
    }

    /// The two columns always run in step.
    pub open spec fn wf(&self) -> bool {
        self.tss@.len() == self.vals@.len()
    }

    /// Sorts the observations by timestamp and splits them into columns:
    /// the columns hold exactly the given observations, ordered.
    pub fn from_pairs(items: Vec<(usize, V)>) -> (r: TSData<V>)
        ensures
            r.wf(),
            sorted_by_ts(r.pairs()),
            r.pairs().to_multiset() == items@.to_multiset(),
    {
        let mut sorted = sort_pairs_by_ts(items);
        let ghost s0 = sorted@;
        let mut tss: Vec<usize> = Vec::new();
        let mut vals: Vec<V> = Vec::new();
        while sorted.len() > 0
            invariant
                tss@.len() == vals@.len(),
                tss@.len() + sorted@.len() == s0.len(),
                sorted@ == s0.skip(tss@.len() as int),
                forall|k: int|
                    0 <= k < tss@.len() ==> tss@[k] == (#[trigger] s0[k]).0 && vals@[k] == s0[k].1,
            decreases sorted@.len(),
        {
            let ghost done = tss@.len();
            let p = sorted.remove(0);
            tss.push(p.0);
            vals.push(p.1);
            proof {
                assert(s0.skip(done as int).remove(0) =~= s0.skip(done as int + 1));
            }
        }
        let r = TSData { tss, vals };
        proof {
            assert(r.pairs() =~= s0);
        }
        r
    }

    /// Zips already-separated columns: accepted exactly when they are of
    /// one length, else refused unchanged.
    pub fn from_iters(tss: Vec<usize>, vals: Vec<V>) -> (r: Result<TSData<V>, &'static str>)
        ensures
            match r {
                Result::Ok(d) => {
                    &&& tss@.len() == vals@.len()
                    &&& d.tss == tss
                    &&& d.vals == vals
                },
                Result::Err(_) => tss@.len() != vals@.len(),
            },
    {
        if tss.len() != vals.len() {
            return Result::Err("ts and val counts don't match");
        }
        Result::Ok(TSData { tss, vals })
    }
}

} // verus!
