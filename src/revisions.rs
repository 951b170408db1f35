//! Choosing among links and revisions: the latest revision of an entry is
//! the target of its newest "Updates" link, and the oldest delete is the one
//! with the earliest timestamp. Equal timestamps are settled by the action
//! hash, so that every peer picks the same one whatever order it received
//! them in.
use vstd::prelude::*;
use crate::action::Action;
use crate::hash::{ActionHash, AnyLinkableHash};

verus! {

/// A link as a query for the links of a base returns it.
#[derive(Clone, Copy, Debug)]
pub struct Link {
    pub target: AnyLinkableHash,
    /// Microseconds since the Unix epoch.
    pub timestamp: i64,
    pub create_link_hash: ActionHash,
}

/// Lexicographic order on byte strings of one length.
pub open spec fn bytes_less(a: Seq<u8>, b: Seq<u8>) -> bool
    decreases a.len(),
{
    if a.len() == 0 || b.len() == 0 {
        false
    } else if a[0] != b[0] {
        a[0] < b[0]
    } else {
        bytes_less(a.drop_first(), b.drop_first())
    }
}

/// Whether (`t1`, `h1`) comes before (`t2`, `h2`): earlier timestamp first,
/// then smaller hash.
pub open spec fn stamp_less(t1: i64, h1: ActionHash, t2: i64, h2: ActionHash) -> bool {
    t1 < t2 || (t1 == t2 && bytes_less(h1.bytes@, h2.bytes@))
}

proof fn lemma_bytes_less_step(a: Seq<u8>, b: Seq<u8>, i: int)
    requires
        a.len() == b.len(),
        0 <= i < a.len(),
        forall|j: int| 0 <= j < i ==> a[j] == b[j],
    ensures
        bytes_less(a, b) == bytes_less(a.subrange(i, a.len() as int), b.subrange(i, b.len() as int)),
    decreases i,
{
    if i > 0 {
        assert(a[0] == b[0]);
        lemma_bytes_less_step(a.drop_first(), b.drop_first(), i - 1);
        assert(a.drop_first().subrange(i - 1, a.len() - 1) =~= a.subrange(i, a.len() as int));
        assert(b.drop_first().subrange(i - 1, b.len() - 1) =~= b.subrange(i, b.len() as int));
    } else {
        assert(a.subrange(0, a.len() as int) =~= a);
        assert(b.subrange(0, b.len() as int) =~= b);
    }
}

proof fn lemma_bytes_less_equal(a: Seq<u8>, b: Seq<u8>)
    requires
        a == b,
    ensures
        !bytes_less(a, b),
    decreases a.len(),
{
    if a.len() > 0 {
        lemma_bytes_less_equal(a.drop_first(), b.drop_first());
    }
}

/// Whether `a` comes before `b` in byte order.
pub fn hash_less(a: &ActionHash, b: &ActionHash) -> (r: bool)
    ensures
        r == bytes_less(a.bytes@, b.bytes@),
{
    let mut i: usize = 0;
    while i < 36
        invariant
            i <= 36,
            a.bytes@.len() == 36,
            b.bytes@.len() == 36,
            forall|j: int| 0 <= j < i ==> a.bytes@[j] == b.bytes@[j],
        decreases 36 - i,
    {
        if a.bytes[i] != b.bytes[i] {
            proof {
                lemma_bytes_less_step(a.bytes@, b.bytes@, i as int);
            }
            return a.bytes[i] < b.bytes[i];
        }
        i = i + 1;
    }
    proof {
        assert(a.bytes@ =~= b.bytes@);
        lemma_bytes_less_equal(a.bytes@, b.bytes@);
    }
    false
}

fn stamp_before(t1: i64, h1: &ActionHash, t2: i64, h2: &ActionHash) -> (r: bool)
    ensures
        r == stamp_less(t1, *h1, t2, *h2),
{
    t1 < t2 || (t1 == t2 && hash_less(h1, h2))
}

/// Whether link `i` of `links` is the newest: no other link comes after it.
pub open spec fn is_newest(links: Seq<Link>, i: int) -> bool {
    &&& 0 <= i < links.len()
    &&& forall|j: int|
        0 <= j < links.len() ==> !stamp_less(
            links[i].timestamp,
            links[i].create_link_hash,
            #[trigger] links[j].timestamp,
            links[j].create_link_hash,
        )
}

proof fn lemma_bytes_less_total(a: Seq<u8>, b: Seq<u8>)
    requires
        a.len() == b.len(),
    ensures
        a != b ==> bytes_less(a, b) || bytes_less(b, a),
        !(bytes_less(a, b) && bytes_less(b, a)),
    decreases a.len(),
{
    if a.len() > 0 {
        lemma_bytes_less_total(a.drop_first(), b.drop_first());
        if a[0] == b[0] && a != b {
            assert(a =~= seq![a[0]] + a.drop_first());
            assert(b =~= seq![b[0]] + b.drop_first());
        }
    } else {
        assert(a =~= b);
    }
}

proof fn lemma_bytes_less_trans(a: Seq<u8>, b: Seq<u8>, c: Seq<u8>)
    requires
        a.len() == b.len(),
        b.len() == c.len(),
        bytes_less(a, b),
        bytes_less(b, c),
    ensures
        bytes_less(a, c),
    decreases a.len(),
{
    if a.len() > 0 && a[0] == b[0] && b[0] == c[0] {
        lemma_bytes_less_trans(a.drop_first(), b.drop_first(), c.drop_first());
    }
}

/// Position of the newest revision link, if there is any.
pub fn newest_link(links: &Vec<Link>) -> (r: Option<usize>)
    ensures
        match r {
            Some(i) => is_newest(links@, i as int),
            None => links@.len() == 0,
        },
{
    if links.len() == 0 {
        return None;
    }
    let mut best: usize = 0;
    let mut i: usize = 1;
    proof {
        lemma_bytes_less_equal(links@[0].create_link_hash.bytes@, links@[0].create_link_hash.bytes@);
    }
    while i < links.len()
        invariant
            1 <= i <= links@.len(),
            best < i,
            forall|j: int|
                0 <= j < i ==> !stamp_less(
                    links@[best as int].timestamp,
                    links@[best as int].create_link_hash,
                    #[trigger] links@[j].timestamp,
                    links@[j].create_link_hash,
                ),
        decreases links@.len() - i,
    {
        if stamp_before(links[best].timestamp, &links[best].create_link_hash, links[i].timestamp, &links[i].create_link_hash) {
            proof {
                let b = links@[best as int];
                let n = links@[i as int];
                assert forall|j: int| 0 <= j < i + 1 implies !stamp_less(
                    n.timestamp,
                    n.create_link_hash,
                    #[trigger] links@[j].timestamp,
                    links@[j].create_link_hash,
                ) by {
                    let x = links@[j];
                    lemma_bytes_less_total(n.create_link_hash.bytes@, b.create_link_hash.bytes@);
                    lemma_bytes_less_total(x.create_link_hash.bytes@, n.create_link_hash.bytes@);
                    if j < i && stamp_less(n.timestamp, n.create_link_hash, x.timestamp, x.create_link_hash) {
                        if b.timestamp == n.timestamp && n.timestamp == x.timestamp {
                            lemma_bytes_less_trans(
                                b.create_link_hash.bytes@,
                                n.create_link_hash.bytes@,
                                x.create_link_hash.bytes@,
                            );
                        }
                        assert(stamp_less(b.timestamp, b.create_link_hash, x.timestamp, x.create_link_hash));
                    }
                    if j == i {
                        lemma_bytes_less_equal(n.create_link_hash.bytes@, x.create_link_hash.bytes@);
                    }
                }
            }
            best = i;
        }
        i = i + 1;
    }
    Some(best)
}

/// The revision that `original` stands at now: the target of the newest
/// revision link, or `original` itself where it has none. `None` where the
/// newest link does not point at an action.
pub fn latest_revision(original: &ActionHash, links: &Vec<Link>) -> (r: Option<ActionHash>)
    ensures
        links@.len() == 0 ==> r == Some(*original),
        links@.len() > 0 ==> exists|i: int|
            #[trigger] is_newest(links@, i) && r == links@[i].target.into_action_hash_spec(),
{
    match newest_link(links) {
        None => Some(*original),
        Some(i) => links[i].target.into_action_hash(),
    }
}

/// Whether delete `i` of `deletes` is the oldest: no other comes before it.
pub open spec fn is_oldest(deletes: Seq<Action>, i: int) -> bool {
    &&& 0 <= i < deletes.len()
    &&& forall|j: int|
        0 <= j < deletes.len() ==> !stamp_less(
            #[trigger] deletes[j].timestamp,
            deletes[j].hash,
            deletes[i].timestamp,
            deletes[i].hash,
        )
}

/// Position of the oldest of `deletes`, if there is any.
pub fn oldest_delete(deletes: &Vec<Action>) -> (r: Option<usize>)
    ensures
        match r {
            Some(i) => is_oldest(deletes@, i as int),
            None => deletes@.len() == 0,
        },
{
    if deletes.len() == 0 {
        return None;
    }
    let mut best: usize = 0;
    let mut i: usize = 1;
    proof {
        lemma_bytes_less_equal(deletes@[0].hash.bytes@, deletes@[0].hash.bytes@);
    }
    while i < deletes.len()
        invariant
            1 <= i <= deletes@.len(),
            best < i,
            forall|j: int|
                0 <= j < i ==> !stamp_less(
                    #[trigger] deletes@[j].timestamp,
                    deletes@[j].hash,
                    deletes@[best as int].timestamp,
                    deletes@[best as int].hash,
                ),
        decreases deletes@.len() - i,
    {
        if stamp_before(deletes[i].timestamp, &deletes[i].hash, deletes[best].timestamp, &deletes[best].hash) {
            proof {
                let b = deletes@[best as int];
                let n = deletes@[i as int];
                assert forall|j: int| 0 <= j < i + 1 implies !stamp_less(
                    #[trigger] deletes@[j].timestamp,
                    deletes@[j].hash,
                    n.timestamp,
                    n.hash,
                ) by {
                    let x = deletes@[j];
                    lemma_bytes_less_total(n.hash.bytes@, b.hash.bytes@);
                    lemma_bytes_less_total(x.hash.bytes@, n.hash.bytes@);
                    if j < i && stamp_less(x.timestamp, x.hash, n.timestamp, n.hash) {
                        if b.timestamp == n.timestamp && n.timestamp == x.timestamp {
                            lemma_bytes_less_trans(x.hash.bytes@, n.hash.bytes@, b.hash.bytes@);
                        }
                        assert(stamp_less(x.timestamp, x.hash, b.timestamp, b.hash));
                    }
                    if j == i {
                        lemma_bytes_less_equal(x.hash.bytes@, n.hash.bytes@);
                    }
                }
            }
            best = i;
        }
        i = i + 1;
    }
    Some(best)
}

/// The links of `links` that point at `target`, by the actions that created
/// them: those to delete when `target` goes away.
pub fn links_targeting(links: &Vec<Link>, target: &AnyLinkableHash) -> (r: Vec<ActionHash>)
    ensures
        r@ == links@.filter(|l: Link| l.target == *target).map_values(|l: Link| l.create_link_hash),
{
    let mut r: Vec<ActionHash> = Vec::new();
    let mut i: usize = 0;
    while i < links.len()
        invariant
            i <= links@.len(),
            r@ == links@.subrange(0, i as int).filter(|l: Link| l.target == *target).map_values(
                |l: Link| l.create_link_hash,
            ),
        decreases links@.len() - i,
    {
        let l = links[i];
        proof {
            reveal(Seq::filter);
            assert(links@.subrange(0, i + 1).drop_last() =~= links@.subrange(0, i as int));
        }
        if l.target.kind == target.kind && l.target.hash == target.hash {
            r.push(l.create_link_hash);
            proof {
                let f = links@.subrange(0, i as int).filter(|l: Link| l.target == *target);
                assert(f.push(l).map_values(|l: Link| l.create_link_hash) =~= f.map_values(
                    |l: Link| l.create_link_hash,
                ).push(l.create_link_hash));
            }
        }
        i = i + 1;
    }
    assert(links@.subrange(0, links@.len() as int) =~= links@);
    r
}

} // verus!
