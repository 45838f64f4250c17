//! Sequences of outcomes: the first failure, or all the values.

use vstd::prelude::*;

verus! {

/// The values of `rs` if every outcome is a success, else the first failure.
pub open spec fn collected<T, E>(rs: Seq<Result<T, E>>) -> Result<Seq<T>, E>
    decreases rs.len(),
{
    if rs.len() == 0 {
        Ok(Seq::empty())
    } else {
        match collected(rs.drop_last()) {
            Err(e) => Err(e),
            Ok(head) => match rs.last() {
                Err(e) => Err(e),
                Ok(x) => Ok(head.push(x)),
            },
        }
    }
}

/// Outcomes that are all successes collect to their values.
pub proof fn lemma_collected_ok<T, E>(rs: Seq<Result<T, E>>, values: Seq<T>)
    requires
        rs.len() == values.len(),
        forall|i: int| 0 <= i < rs.len() ==> rs[i] == Ok::<T, E>(values[i]),
    ensures
        collected(rs) == Ok::<Seq<T>, E>(values),
    decreases rs.len(),
{
    if rs.len() == 0 {
        assert(values =~= Seq::empty());
    } else {
        lemma_collected_ok(rs.drop_last(), values.drop_last());
        assert(values.drop_last().push(values.last()) =~= values);
    }
}

/// Outcomes whose first failure is at `i` collect to that failure.
pub proof fn lemma_collected_err<T, E>(rs: Seq<Result<T, E>>, i: int)
    requires
        0 <= i < rs.len(),
        rs[i] is Err,
        forall|j: int| 0 <= j < i ==> rs[j] is Ok,
    ensures
        collected(rs) == Err::<Seq<T>, E>(rs[i]->Err_0),
    decreases rs.len(),
{
    if i == rs.len() - 1 {
        let head = rs.drop_last();
        let values = Seq::new(head.len(), |j: int| head[j]->Ok_0);
        lemma_collected_ok(head, values);
    } else {
        lemma_collected_err(rs.drop_last(), i);
    }
}

/// The elements of `s` that satisfy `keep`, in order.
pub open spec fn kept<T>(s: Seq<T>, keep: spec_fn(T) -> bool) -> Seq<T>
    decreases s.len(),
{
    if s.len() == 0 {
        s
    } else if keep(s.last()) {
        kept(s.drop_last(), keep).push(s.last())
    } else {
        kept(s.drop_last(), keep)
    }
}

/// The first value that `pick` finds in `s`, going from the front.
pub open spec fn first_found<T, U>(s: Seq<T>, pick: spec_fn(T) -> Option<U>) -> Option<U>
    decreases s.len(),
{
    if s.len() == 0 {
        None
    } else if pick(s[0]) is Some {
        pick(s[0])
    } else {
        first_found(s.drop_first(), pick)
    }
}

/// If `pick` finds nothing before `i`, the first value found is what it finds
/// at `i` or behind.
pub proof fn lemma_first_found_skip<T, U>(s: Seq<T>, pick: spec_fn(T) -> Option<U>, i: int)
    requires
        0 <= i <= s.len(),
        forall|j: int| 0 <= j < i ==> pick(s[j]) is None,
    ensures
        first_found(s, pick) == first_found(s.skip(i), pick),
    decreases i,
{
    if i == 0 {
        assert(s.skip(0) =~= s);
    } else {
        lemma_first_found_skip(s.drop_first(), pick, i - 1);
        assert(s.drop_first().skip(i - 1) =~= s.skip(i));
    }
}

/// If `pick` finds something at `i`, it finds something in `s`.
pub proof fn lemma_first_found_some<T, U>(s: Seq<T>, pick: spec_fn(T) -> Option<U>, i: int)
    requires
        0 <= i < s.len(),
        pick(s[i]) is Some,
    ensures
        first_found(s, pick) is Some,
    decreases i,
{
    if i > 0 && pick(s[0]) is None {
        lemma_first_found_some(s.drop_first(), pick, i - 1);
    }
}

/// What is kept of the first `i` elements stands at the front of what is kept
/// of all.
pub proof fn lemma_kept_prefix<T>(s: Seq<T>, keep: spec_fn(T) -> bool, i: int)
    requires
        0 <= i <= s.len(),
    ensures
        kept(s.take(i), keep).len() <= kept(s, keep).len(),
        kept(s.take(i), keep) == kept(s, keep).take(kept(s.take(i), keep).len() as int),
    decreases s.len(),
{
    if i == s.len() {
        assert(s.take(i) =~= s);
        assert(kept(s, keep).take(kept(s, keep).len() as int) =~= kept(s, keep));
    } else {
        lemma_kept_prefix(s.drop_last(), keep, i);
        assert(s.drop_last().take(i) =~= s.take(i));
        let front = kept(s.take(i), keep);
        assert(kept(s, keep).take(front.len() as int) =~= kept(s.drop_last(), keep).take(
            front.len() as int,
        ));
    }
}

/// Where every element is kept, all are there.
pub proof fn lemma_kept_all<T>(s: Seq<T>, keep: spec_fn(T) -> bool)
    requires
        forall|i: int| 0 <= i < s.len() ==> keep(#[trigger] s[i]),
    ensures
        kept(s, keep) == s,
    decreases s.len(),
{
    if s.len() > 0 {
        lemma_kept_all(s.drop_last(), keep);
        assert(s.drop_last().push(s.last()) =~= s);
    }
}

/// What is kept of one element more.
pub proof fn lemma_kept_step<T>(s: Seq<T>, keep: spec_fn(T) -> bool, i: int)
    requires
        0 <= i < s.len(),
    ensures
        kept(s.take(i + 1), keep) == if keep(s[i]) {
            kept(s.take(i), keep).push(s[i])
        } else {
            kept(s.take(i), keep)
        },
{
    assert(s.take(i + 1).drop_last() =~= s.take(i));
}

/// The sequences in `parts`, one after another.
pub open spec fn concatenated<T>(parts: Seq<Seq<T>>) -> Seq<T>
    decreases parts.len(),
{
    if parts.len() == 0 {
        Seq::empty()
    } else {
        concatenated(parts.drop_last()) + parts.last()
    }
}

/// Outcomes collect to values exactly if all are successes, and then to their
/// values.
pub proof fn lemma_collected_values<T, E>(rs: Seq<Result<T, E>>)
    ensures
        collected(rs) is Ok <==> forall|i: int| 0 <= i < rs.len() ==> (#[trigger] rs[i]) is Ok,
        collected(rs) is Ok ==> collected(rs)->Ok_0.len() == rs.len(),
        collected(rs) is Ok ==> forall|i: int|
            0 <= i < rs.len() ==> #[trigger] rs[i] == Ok::<T, E>(collected(rs)->Ok_0[i]),
    decreases rs.len(),
{
    if rs.len() > 0 {
        lemma_collected_values(rs.drop_last());
        if collected(rs) is Ok {
            assert forall|i: int| 0 <= i < rs.len() implies (#[trigger] rs[i]) is Ok && rs[i] == Ok::<
                T,
                E,
            >(collected(rs)->Ok_0[i]) by {
                if i < rs.len() - 1 {
                    assert(rs.drop_last()[i] == rs[i]);
                }
            }
        }
        if forall|i: int| 0 <= i < rs.len() ==> (#[trigger] rs[i]) is Ok {
            assert forall|i: int| 0 <= i < rs.drop_last().len() implies (#[trigger] rs.drop_last()[i]) is Ok by {
                assert(rs[i] is Ok);
            }
        }
    }
}

/// Every element of a part is an element of the concatenation; the result is
/// where it stands there.
pub proof fn lemma_concatenated_holds<T>(parts: Seq<Seq<T>>, i: int, j: int) -> (k: int)
    requires
        0 <= i < parts.len(),
        0 <= j < parts[i].len(),
    ensures
        0 <= k < concatenated(parts).len(),
        concatenated(parts)[k] == parts[i][j],
    decreases parts.len(),
{
    if i == parts.len() - 1 {
        concatenated(parts.drop_last()).len() + j
    } else {
        assert(parts.drop_last()[i] == parts[i]);
        lemma_concatenated_holds(parts.drop_last(), i, j)
    }
}

/// Every element of the concatenation is an element of a part; the result is
/// the part and where the element stands in it.
pub proof fn lemma_concatenated_origin<T>(parts: Seq<Seq<T>>, k: int) -> (r: (int, int))
    requires
        0 <= k < concatenated(parts).len(),
    ensures
        0 <= r.0 < parts.len(),
        0 <= r.1 < parts[r.0].len(),
        parts[r.0][r.1] == concatenated(parts)[k],
    decreases parts.len(),
{
    let front = concatenated(parts.drop_last());
    if k < front.len() {
        let r = lemma_concatenated_origin(parts.drop_last(), k);
        assert(parts.drop_last()[r.0] == parts[r.0]);
        r
    } else {
        (parts.len() - 1, k - front.len())
    }
}

/// Every element that is kept is an element of the sequence that satisfies the
/// test; the result is where it stands in the sequence.
pub proof fn lemma_kept_origin<T>(s: Seq<T>, keep: spec_fn(T) -> bool, k: int) -> (i: int)
    requires
        0 <= k < kept(s, keep).len(),
    ensures
        0 <= i < s.len(),
        keep(s[i]),
        s[i] == kept(s, keep)[k],
    decreases s.len(),
{
    let front = kept(s.drop_last(), keep);
    if k < front.len() {
        lemma_kept_origin(s.drop_last(), keep, k)
    } else {
        s.len() - 1
    }
}

/// Every element of the sequence that satisfies the test is kept; the result
/// is where it stands among the kept.
pub proof fn lemma_kept_holds<T>(s: Seq<T>, keep: spec_fn(T) -> bool, i: int) -> (k: int)
    requires
        0 <= i < s.len(),
        keep(s[i]),
    ensures
        0 <= k < kept(s, keep).len(),
        kept(s, keep)[k] == s[i],
    decreases s.len(),
{
    if i == s.len() - 1 {
        kept(s.drop_last(), keep).len() as int
    } else {
        lemma_kept_holds(s.drop_last(), keep, i)
    }
}

} // verus!
