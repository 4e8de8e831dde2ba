//! Chain ids in ascending order, each once.
use vstd::prelude::*;

verus! {

/// Whether `ids` ascend strictly.
pub open spec fn in_order(ids: Seq<u64>) -> bool {
    forall|i: int, j: int| 0 <= i < j < ids.len() ==> ids[i] < ids[j]
}

/// Whether `ids` are the members of `set`, ascending.
pub open spec fn lists(ids: Seq<u64>, set: Set<u64>) -> bool {
    &&& in_order(ids)
    &&& forall|id: u64| #[trigger] ids.contains(id) <==> set.contains(id)
}

/// The members of `set`, ascending.
pub open spec fn ascending(set: Set<u64>) -> Seq<u64> {
    choose|ids: Seq<u64>| lists(ids, set)
}

proof fn lemma_lists_unique(a: Seq<u64>, b: Seq<u64>, set: Set<u64>)
    requires
        lists(a, set),
        lists(b, set),
    ensures
        a == b,
    decreases a.len(),
{
    if a.len() == 0 {
        if b.len() > 0 {
            assert(b.contains(b[0]));
            assert(a.contains(b[0]));
        }
        assert(a =~= b);
    } else {
        assert(a.contains(a.last()));
        assert(b.contains(a.last()));
        assert(b.contains(b.last()));
        assert(a.contains(b.last()));
        let i = choose|i: int| 0 <= i < a.len() && a[i] == b.last();
        let j = choose|j: int| 0 <= j < b.len() && b[j] == a.last();
        assert(a.last() == b.last());
        let x = a.last();
        lemma_without_last(a, set);
        lemma_without_last(b, set);
        lemma_lists_unique(a.drop_last(), b.drop_last(), set.remove(x));
        assert(a =~= a.drop_last().push(x));
        assert(b =~= b.drop_last().push(x));
    }
}

proof fn lemma_without_last(a: Seq<u64>, set: Set<u64>)
    requires
        lists(a, set),
        a.len() > 0,
    ensures
        lists(a.drop_last(), set.remove(a.last())),
{
    let b = a.drop_last();
    assert forall|id: u64| #[trigger] b.contains(id) implies set.remove(a.last()).contains(id) by {
        let i = choose|i: int| 0 <= i < b.len() && b[i] == id;
        assert(a[i] == id);
        assert(a.contains(id));
    }
    assert forall|id: u64| set.remove(a.last()).contains(id) implies #[trigger] b.contains(id) by {
        assert(a.contains(id));
        let i = choose|i: int| 0 <= i < a.len() && a[i] == id;
        assert(b[i] == id);
    }
}

/// A list that ascends and holds the members of `set` is the one list that does.
pub proof fn lemma_ascending(ids: Seq<u64>, set: Set<u64>)
    requires
        lists(ids, set),
    ensures
        ascending(set) == ids,
{
    lemma_lists_unique(ascending(set), ids, set);
}

/// A list that ascends, with one id more in its place.
spec fn inserted(ids: Seq<u64>, id: u64) -> Seq<u64>
    decreases ids.len(),
{
    if ids.len() == 0 || ids.last() < id {
        ids.push(id)
    } else {
        inserted(ids.drop_last(), id).push(ids.last())
    }
}

proof fn lemma_inserted(ids: Seq<u64>, id: u64)
    requires
        in_order(ids),
        !ids.contains(id),
    ensures
        in_order(inserted(ids, id)),
        forall|x: u64| #[trigger] inserted(ids, id).contains(x) <==> ids.contains(x) || x == id,
    decreases ids.len(),
{
    let more = inserted(ids, id);
    if ids.len() == 0 || ids.last() < id {
        assert forall|x: u64| #[trigger] more.contains(x) <==> ids.contains(x) || x == id by {
            if ids.contains(x) {
                let i = choose|i: int| 0 <= i < ids.len() && ids[i] == x;
                assert(more[i] == x);
            }
            assert(more[ids.len() as int] == id);
        }
    } else {
        let rest = ids.drop_last();
        let last = ids.last();
        assert(ids[ids.len() - 1] == last);
        assert(!rest.contains(id)) by {
            if rest.contains(id) {
                let i = choose|i: int| 0 <= i < rest.len() && rest[i] == id;
                assert(ids[i] == id);
            }
        }
        lemma_inserted(rest, id);
        let tail = inserted(rest, id);
        assert forall|i: int, j: int| 0 <= i < j < more.len() implies more[i] < more[j] by {
            if j == more.len() - 1 {
                assert(tail.contains(tail[i]));
                assert(rest.contains(tail[i]) || tail[i] == id);
                if rest.contains(tail[i]) {
                    let k = choose|k: int| 0 <= k < rest.len() && rest[k] == tail[i];
                    assert(ids[k] < ids[ids.len() - 1]);
                } else {
                    assert(id != last);
                }
            }
        }
        assert forall|x: u64| #[trigger] more.contains(x) <==> ids.contains(x) || x == id by {
            assert(tail.contains(x) <==> rest.contains(x) || x == id);
            if more.contains(x) {
                let i = choose|i: int| 0 <= i < more.len() && more[i] == x;
                if i < tail.len() {
                    assert(tail[i] == x);
                }
            }
            if tail.contains(x) {
                let i = choose|i: int| 0 <= i < tail.len() && tail[i] == x;
                assert(more[i] == x);
            }
            if ids.contains(x) {
                let i = choose|i: int| 0 <= i < ids.len() && ids[i] == x;
                if i < rest.len() {
                    assert(rest[i] == x);
                }
            }
            if rest.contains(x) {
                let i = choose|i: int| 0 <= i < rest.len() && rest[i] == x;
                assert(ids[i] == x);
            }
            assert(more[more.len() - 1] == last);
        }
    }
}

/// A finite set has a list of its members that ascends, so that `ascending` is one.
pub proof fn lemma_ascending_lists(set: Set<u64>)
    requires
        set.finite(),
    ensures
        lists(ascending(set), set),
    decreases set.len(),
{
    if set.len() == 0 {
        assert(set =~= Set::empty());
        assert(lists(seq![], set));
    } else {
        let id = set.choose();
        let less = set.remove(id);
        lemma_ascending_lists(less);
        let ids = ascending(less);
        assert(!ids.contains(id));
        lemma_inserted(ids, id);
        let more = inserted(ids, id);
        assert forall|x: u64| #[trigger] more.contains(x) <==> set.contains(x) by {
            assert(more.contains(x) <==> ids.contains(x) || x == id);
            assert(ids.contains(x) <==> less.contains(x));
        }
        assert(lists(more, set));
    }
}

/// Puts `id` where it belongs, unless it is there already.
pub fn insert_in_order(ids: &mut Vec<u64>, id: u64)
    requires
        in_order(old(ids)@),
    ensures
        in_order(final(ids)@),
        forall|x: u64| #[trigger]
            final(ids)@.contains(x) <==> old(ids)@.contains(x) || x == id,
{
    let mut i: usize = 0;
    while i < ids.len() && ids[i] < id
        invariant
            ids@ == old(ids)@,
            i <= ids.len(),
            forall|j: int| 0 <= j < i ==> ids@[j] < id,
        decreases ids.len() - i,
    {
        i = i + 1;
    }
    let ghost before = ids@;
    if i < ids.len() && ids[i] == id {
        assert(before.contains(before[i as int]));
        return ;
    }
    ids.insert(i, id);
    proof {
        assert forall|x: u64| #[trigger] ids@.contains(x) implies before.contains(x) || x == id by {
            let j = choose|j: int| 0 <= j < ids@.len() && ids@[j] == x;
            if j < i {
                assert(before[j] == x);
            } else if j > i {
                assert(before[j - 1] == x);
            }
        }
        assert forall|x: u64| before.contains(x) || x == id implies #[trigger] ids@.contains(x) by {
            if x == id {
                assert(ids@[i as int] == x);
            } else {
                let j = choose|j: int| 0 <= j < before.len() && before[j] == x;
                if j < i {
                    assert(ids@[j] == x);
                } else {
                    assert(ids@[j + 1] == x);
                }
            }
        }
    }
}

} // verus!
