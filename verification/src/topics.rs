//! Topic discovery: the distinct set of receive topics across the known
//! sensors, which is exactly what the broker is subscribed to.

use vstd::prelude::*;

use crate::store::{SensorRecord, SensorStore};

verus! {

/// Whether some topic in `ts` reads `x`.
pub open spec fn contains_topic(ts: Seq<String>, x: Seq<char>) -> bool {
    exists|i: int| 0 <= i < ts.len() && ts[i]@ == x
}

/// No topic occurs twice.
pub open spec fn distinct_topics(ts: Seq<String>) -> bool {
    forall|i: int, j: int| 0 <= i < j < ts.len() ==> ts[i]@ != ts[j]@
}

/// Whether some sensor receives on topic `x`.
pub open spec fn store_has_topic(sensors: Seq<SensorRecord>, x: Seq<char>) -> bool {
    exists|i: int| 0 <= i < sensors.len() && sensors[i].recv_topic@ == x
}

fn contains_str(v: &Vec<String>, t: &String) -> (b: bool)
    ensures
        b == contains_topic(v@, t@),
{
    let mut j: usize = 0;
    while j < v.len()
        invariant
            j <= v@.len(),
            forall|k: int| 0 <= k < j ==> v@[k]@ != t@,
        decreases v@.len() - j,
    {
        if v[j].eq(t) {
            assert(v@[j as int]@ == t@);
            return true;
        }
        j = j + 1;
    }
    false
}

/// The distinct values of `rows`, each exactly once, first occurrences kept
/// in order. An empty input gives an empty result, not an error.
pub fn dedup_topics(rows: &Vec<String>) -> (r: Vec<String>)
    ensures
        distinct_topics(r@),
        forall|x: Seq<char>| contains_topic(r@, x) == contains_topic(rows@, x),
        rows@.len() == 0 ==> r@.len() == 0,
{
    let n = rows.len();
    let mut r: Vec<String> = Vec::new();
    let mut i: usize = 0;
    while i < n
        invariant
            i <= n,
            n == rows@.len(),
            distinct_topics(r@),
            forall|k: int| 0 <= k < r@.len() ==> contains_topic(rows@, #[trigger] r@[k]@),
            forall|k: int| 0 <= k < i ==> contains_topic(r@, #[trigger] rows@[k]@),
            i == 0 ==> r@.len() == 0,
        decreases n - i,
    {
        let ghost pre = r@;
        let t = &rows[i];
        let seen = contains_str(&r, t);
        if !seen {
            r.push(t.clone());
            proof {
                assert(r@[pre.len() as int]@ == rows@[i as int]@);
                assert forall|a: int, b: int| 0 <= a < b < r@.len() implies r@[a]@ != r@[b]@ by {
                    if b == pre.len() {
                        assert(!contains_topic(pre, r@[b]@));
                        assert(pre[a]@ == r@[a]@);
                    }
                }
                assert forall|k: int| 0 <= k < i + 1 implies contains_topic(
                    r@,
                    #[trigger] rows@[k]@,
                ) by {
                    if k < i {
                        let w = choose|w: int| 0 <= w < pre.len() && pre[w]@ == rows@[k]@;
                        assert(r@[w]@ == rows@[k]@);
                    } else {
                        assert(r@[pre.len() as int]@ == rows@[k]@);
                    }
                }
            }
        }
        i = i + 1;
    }
    proof {
        assert forall|x: Seq<char>| contains_topic(r@, x) == contains_topic(rows@, x) by {
            if contains_topic(r@, x) {
                let k = choose|k: int| 0 <= k < r@.len() && r@[k]@ == x;
                assert(contains_topic(rows@, r@[k]@));
            }
            if contains_topic(rows@, x) {
                let k = choose|k: int| 0 <= k < rows@.len() && rows@[k]@ == x;
                assert(contains_topic(r@, rows@[k]@));
            }
        }
    }
    r
}

/// The distinct receive topics of the store's sensors, each exactly once;
/// the empty sequence, not an error, when no sensors are configured.
pub fn get_recv_topics(store: &SensorStore) -> (r: Vec<String>)
    ensures
        distinct_topics(r@),
        forall|x: Seq<char>| contains_topic(r@, x) == store_has_topic(store.sensors@, x),
        store.sensors@.len() == 0 ==> r@.len() == 0,
{
    let n = store.sensors.len();
    let mut rows: Vec<String> = Vec::new();
    let mut i: usize = 0;
    while i < n
        invariant
            i <= n,
            n == store.sensors@.len(),
            rows@.len() == i,
            forall|k: int| 0 <= k < i ==> rows@[k]@ == store.sensors@[k].recv_topic@,
        decreases n - i,
    {
        rows.push(store.sensors[i].recv_topic.clone());
        i = i + 1;
    }
    let r = dedup_topics(&rows);
    proof {
        assert forall|x: Seq<char>| contains_topic(rows@, x) == store_has_topic(
            store.sensors@,
            x,
        ) by {
            if contains_topic(rows@, x) {
                let k = choose|k: int| 0 <= k < rows@.len() && rows@[k]@ == x;
                assert(store.sensors@[k].recv_topic@ == x);
            }
            if store_has_topic(store.sensors@, x) {
                let k = choose|k: int|
                    0 <= k < store.sensors@.len() && store.sensors@[k].recv_topic@ == x;
                assert(rows@[k]@ == x);
            }
        }
    }
    r
}

} // verus!
