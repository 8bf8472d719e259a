//! The deployments of a project as its deployer lists them.

use crate::timestamp::Timestamp;
use vstd::prelude::*;

verus! {

/// The state of a deployment.
#[derive(Debug, Clone, Copy, PartialEq, Eq, Structural)]
pub enum State {
    Running,
    Completed,
    Crashed,
    Stopped,
    /// Anywhere in the pipeline that builds and loads a deployment.
    InPipeline,
}

/// A deployment of a project.
#[derive(Debug, PartialEq, Eq)]
pub struct Deployment {
    pub id: String,
    pub state: State,
    pub last_update: Timestamp,
}

/// `s` with `d` put behind the last deployment that is not newer than `d`.
pub open spec fn inserted(s: Seq<Deployment>, d: Deployment) -> Seq<Deployment>
    decreases s.len(),
{
    if s.len() == 0 || !s.last().last_update.later(d.last_update) {
        s.push(d)
    } else {
        inserted(s.drop_last(), d).push(s.last())
    }
}

/// `s` from the oldest update to the newest; deployments of one time keep their order.
pub open spec fn by_last_update(s: Seq<Deployment>) -> Seq<Deployment>
    decreases s.len(),
{
    if s.len() == 0 {
        s
    } else {
        inserted(by_last_update(s.drop_last()), s.last())
    }
}

/// The deployments of `s` that run.
pub open spec fn running(s: Seq<Deployment>) -> Seq<Deployment> {
    s.filter(|d: Deployment| d.state == State::Running)
}

/// Whether a deployment of `s` is still being built.
pub open spec fn any_in_pipeline(s: Seq<Deployment>) -> bool {
    exists|i: int| 0 <= i < s.len() && (#[trigger] s[i]).state == State::InPipeline
}

/// Whether no deployment of `s` comes before one with an older update.
pub open spec fn in_order(s: Seq<Deployment>) -> bool {
    forall|i: int, j: int|
        0 <= i < j < s.len() ==> !(#[trigger] s[i]).last_update.later((#[trigger] s[j]).last_update)
}

/// The deployments of `s` that were updated at `t`, in the order of `s`.
pub open spec fn updated_at(s: Seq<Deployment>, t: Timestamp) -> Seq<Deployment> {
    s.filter(|d: Deployment| d.last_update == t)
}

proof fn lemma_inserted_at(s: Seq<Deployment>, d: Deployment, pos: int)
    requires
        0 <= pos <= s.len(),
        pos > 0 ==> !s[pos - 1].last_update.later(d.last_update),
        forall|j: int| pos <= j < s.len() ==> (#[trigger] s[j]).last_update.later(d.last_update),
    ensures
        inserted(s, d) == s.insert(pos, d),
    decreases s.len(),
{
    if pos == s.len() {
        assert(s.insert(pos, d) =~= s.push(d));
    } else {
        assert(s.last() == s[s.len() - 1]);
        lemma_inserted_at(s.drop_last(), d, pos);
        assert(s.drop_last().insert(pos, d).push(s.last()) =~= s.insert(pos, d));
    }
}

/// Sorts deployments by the time of their last update. The sort is stable.
pub fn sort_by_last_update(list: Vec<Deployment>) -> (r: Vec<Deployment>)
    ensures
        r@ == by_last_update(list@),
        r@.to_multiset() == list@.to_multiset(),
        forall|i: int, j: int|
            0 <= i < j < r@.len() ==> (#[trigger] r@[i]).last_update.secs < (
            #[trigger] r@[j]).last_update.secs || (r@[i].last_update.secs
                == r@[j].last_update.secs && r@[i].last_update.nanos <= r@[j].last_update.nanos),
{
    proof {
        law_sort_is_permutation(list@);
        law_sort_is_by_time(list@);
    }
    let mut rest = list;
    let mut sorted: Vec<Deployment> = Vec::new();
    let ghost mut done = Seq::<Deployment>::empty();
    while rest.len() > 0
        invariant
            done + rest@ == list@,
            sorted@ == by_last_update(done),
        decreases rest.len(),
    {
        let ghost before = rest@;
        let d = rest.remove(0);
        let mut pos: usize = sorted.len();
        while pos > 0 && sorted[pos - 1].last_update.is_after(&d.last_update)
            invariant
                pos <= sorted.len(),
                forall|j: int|
                    pos <= j < sorted.len() ==> (#[trigger] sorted@[j]).last_update.later(
                        d.last_update,
                    ),
            decreases pos,
        {
            pos -= 1;
        }
        proof {
            lemma_inserted_at(sorted@, d, pos as int);
            assert(done.push(d).drop_last() =~= done);
            assert(done.push(d) + rest@ =~= done + before);
            done = done.push(d);
        }
        sorted.insert(pos, d);
    }
    assert(done =~= list@);
    sorted
}

/// Whether a deployment in the list is still being built.
pub fn has_building(list: &Vec<Deployment>) -> (r: bool)
    ensures
        r == any_in_pipeline(list@),
        r == exists|i: int| 0 <= i < list@.len() && (#[trigger] list@[i]).state == State::InPipeline,
{
    let mut i: usize = 0;
    while i < list.len()
        invariant
            i <= list.len(),
            forall|j: int| 0 <= j < i ==> (#[trigger] list@[j]).state != State::InPipeline,
        decreases list.len() - i,
    {
        if list[i].state == State::InPipeline {
            return true;
        }
        i += 1;
    }
    false
}

/// Takes the running deployments out of a list, in the order of the list.
pub fn take_running(list: Vec<Deployment>) -> (r: Vec<Deployment>)
    ensures
        r@ == running(list@),
        r@ == list@.filter(|d: Deployment| d.state == State::Running),
{
    let mut rest = list;
    let mut kept: Vec<Deployment> = Vec::new();
    let ghost mut done = Seq::<Deployment>::empty();
    proof {
        reveal(Seq::filter);
    }
    while rest.len() > 0
        invariant
            done + rest@ == list@,
            kept@ == running(done),
        decreases rest.len(),
    {
        let ghost before = rest@;
        let d = rest.remove(0);
        proof {
            reveal(Seq::filter);
            assert(done.push(d).drop_last() =~= done);
            assert(done.push(d) + rest@ =~= done + before);
            done = done.push(d);
        }
        if d.state == State::Running {
            kept.push(d);
        }
    }
    assert(done =~= list@);
    kept
}

proof fn lemma_inserted(s: Seq<Deployment>, d: Deployment, t: Timestamp)
    requires
        in_order(s),
    ensures
        in_order(inserted(s, d)),
        inserted(s, d).len() == s.len() + 1,
        updated_at(inserted(s, d), t) == updated_at(s.push(d), t),
        forall|x: Deployment| #[trigger]
            inserted(s, d).contains(x) ==> x == d || s.contains(x),
    decreases s.len(),
{
    reveal(Seq::filter);
    if s.len() == 0 || !s.last().last_update.later(d.last_update) {
        assert(in_order(s.push(d))) by {
            assert forall|i: int, j: int| 0 <= i < j < s.push(d).len() implies !(#[trigger] s.push(
                d,
            )[i]).last_update.later((#[trigger] s.push(d)[j]).last_update) by {
                if j == s.len() {
                    assert(s.last() == s[s.len() - 1]);
                    if i < s.len() - 1 {
                        assert(!s[i].last_update.later(s[s.len() - 1].last_update));
                    }
                }
            }
        }
        assert forall|x: Deployment| #[trigger] s.push(d).contains(x) implies x == d || s.contains(
            x,
        ) by {
            let i = choose|i: int| 0 <= i < s.push(d).len() && s.push(d)[i] == x;
            if i < s.len() {
                assert(s[i] == x);
            }
        }
    } else {
        let init = s.drop_last();
        let last = s.last();
        let ins = inserted(init, d);
        assert(in_order(init)) by {
            assert forall|i: int, j: int| 0 <= i < j < init.len() implies !(
            #[trigger] init[i]).last_update.later((#[trigger] init[j]).last_update) by {
                assert(init[i] == s[i] && init[j] == s[j]);
            }
        }
        lemma_inserted(init, d, t);
        let out = ins.push(last);
        assert forall|x: Deployment| #[trigger] out.contains(x) implies x == d || s.contains(x) by {
            let i = choose|i: int| 0 <= i < out.len() && out[i] == x;
            if i < ins.len() {
                assert(ins[i] == x);
                assert(ins.contains(x));
                if x != d {
                    let k = choose|k: int| 0 <= k < init.len() && init[k] == x;
                    assert(s[k] == x);
                }
            } else {
                assert(s[s.len() - 1] == x);
            }
        }
        assert forall|i: int, j: int| 0 <= i < j < out.len() implies !(
        #[trigger] out[i]).last_update.later((#[trigger] out[j]).last_update) by {
            if j == ins.len() {
                assert(ins.contains(ins[i]));
                if ins[i] != d {
                    let k = choose|k: int| 0 <= k < init.len() && init[k] == ins[i];
                    assert(s[k] == ins[i]);
                    assert(!s[k].last_update.later(s[s.len() - 1].last_update));
                }
            } else {
                assert(out[i] == ins[i] && out[j] == ins[j]);
            }
        }
        assert(out.drop_last() =~= ins);
        assert(init.push(d).drop_last() =~= init);
        assert(s.push(d).drop_last() =~= s);
        let head = updated_at(init, t);
        assert(updated_at(s, t) == if last.last_update == t {
            head.push(last)
        } else {
            head
        });
        assert(updated_at(s.push(d), t) == if d.last_update == t {
            updated_at(s, t).push(d)
        } else {
            updated_at(s, t)
        });
        assert(updated_at(init.push(d), t) == if d.last_update == t {
            head.push(d)
        } else {
            head
        });
        assert(updated_at(out, t) == if last.last_update == t {
            updated_at(ins, t).push(last)
        } else {
            updated_at(ins, t)
        });
    }
}

/// The sort puts no newer deployment before an older one, and of the deployments of one time it
/// keeps all, adds none and leaves their order alone.
pub proof fn law_sort_is_stable(s: Seq<Deployment>, t: Timestamp)
    ensures
        in_order(by_last_update(s)),
        by_last_update(s).len() == s.len(),
        updated_at(by_last_update(s), t) == updated_at(s, t),
    decreases s.len(),
{
    reveal(Seq::filter);
    if s.len() > 0 {
        let init = s.drop_last();
        let sorted = by_last_update(init);
        law_sort_is_stable(init, t);
        lemma_inserted(sorted, s.last(), t);
        assert(sorted.push(s.last()).drop_last() =~= sorted);
        assert(updated_at(sorted.push(s.last()), t) == updated_at(s, t));
    }
}

proof fn lemma_inserted_multiset(s: Seq<Deployment>, d: Deployment)
    ensures
        inserted(s, d).to_multiset() == s.to_multiset().insert(d),
    decreases s.len(),
{
    broadcast use vstd::seq_lib::group_to_multiset_ensures;

    if s.len() == 0 || !s.last().last_update.later(d.last_update) {
    } else {
        lemma_inserted_multiset(s.drop_last(), d);
        assert(s =~= s.drop_last().push(s.last()));
        assert(s.drop_last().to_multiset().insert(d).insert(s.last())
            =~= s.drop_last().to_multiset().insert(s.last()).insert(d));
    }
}

/// The sort keeps every deployment as often as it was there, and adds none.
pub proof fn law_sort_is_permutation(s: Seq<Deployment>)
    ensures
        by_last_update(s).to_multiset() == s.to_multiset(),
        forall|d: Deployment| #[trigger] by_last_update(s).contains(d) <==> s.contains(d),
    decreases s.len(),
{
    broadcast use vstd::seq_lib::group_to_multiset_ensures;

    if s.len() > 0 {
        law_sort_is_permutation(s.drop_last());
        lemma_inserted_multiset(by_last_update(s.drop_last()), s.last());
        assert(s =~= s.drop_last().push(s.last()));
    }
    assert forall|d: Deployment| #[trigger] by_last_update(s).contains(d) <==> s.contains(d) by {
        assert(s.to_multiset().count(d) > 0 <==> s.contains(d));
        assert(by_last_update(s).to_multiset().count(d) > 0 <==> by_last_update(s).contains(d));
    }
}

/// The sort goes by the seconds of the last update, then by the nanoseconds.
pub proof fn law_sort_is_by_time(s: Seq<Deployment>)
    ensures
        forall|i: int, j: int|
            #![trigger by_last_update(s)[i], by_last_update(s)[j]]
            0 <= i < j < s.len() ==> {
                let a = by_last_update(s)[i].last_update;
                let b = by_last_update(s)[j].last_update;
                a.secs < b.secs || (a.secs == b.secs && a.nanos <= b.nanos)
            },
        by_last_update(s).len() == s.len(),
{
    law_sort_is_stable(s, Timestamp { secs: 0, nanos: 0 });
}

/// A deployment is being built exactly if one of the list is in the pipeline, wherever it stands.
pub proof fn law_building_at_any_place(s: Seq<Deployment>)
    ensures
        any_in_pipeline(s) <==> exists|i: int|
            0 <= i < s.len() && (#[trigger] s[i]).state == State::InPipeline,
        any_in_pipeline(by_last_update(s)) <==> exists|i: int|
            0 <= i < s.len() && (#[trigger] s[i]).state == State::InPipeline,
{
    law_sort_is_permutation(s);
    let sorted = by_last_update(s);
    if exists|i: int| 0 <= i < s.len() && (#[trigger] s[i]).state == State::InPipeline {
        let i = choose|i: int| 0 <= i < s.len() && (#[trigger] s[i]).state == State::InPipeline;
        assert(s.contains(s[i]));
        assert(sorted.contains(s[i]));
        let j = choose|j: int| 0 <= j < sorted.len() && sorted[j] == s[i];
        assert(sorted[j].state == State::InPipeline);
    }
    if any_in_pipeline(sorted) {
        let j = choose|j: int|
            0 <= j < sorted.len() && (#[trigger] sorted[j]).state == State::InPipeline;
        assert(sorted.contains(sorted[j]));
        assert(s.contains(sorted[j]));
        let i = choose|i: int| 0 <= i < s.len() && s[i] == sorted[j];
        assert(s[i].state == State::InPipeline);
    }
}

proof fn lemma_filter_twice(
    s: Seq<Deployment>,
    p: spec_fn(Deployment) -> bool,
    q: spec_fn(Deployment) -> bool,
)
    ensures
        s.filter(p).filter(q) == s.filter(|d: Deployment| p(d) && q(d)),
    decreases s.len(),
{
    reveal(Seq::filter);
    if s.len() > 0 {
        lemma_filter_twice(s.drop_last(), p, q);
        if p(s.last()) {
            assert(s.filter(p).drop_last() =~= s.drop_last().filter(p));
        }
    }
}

/// Of the deployments of one time, those that run and no others are picked, in the order in which
/// they were listed.
pub proof fn law_running_of_one_time(s: Seq<Deployment>, t: Timestamp)
    ensures
        running(by_last_update(s)).filter(|d: Deployment| d.last_update == t) == s.filter(
            |d: Deployment| d.last_update == t && d.state == State::Running,
        ),
{
    let at = |d: Deployment| d.last_update == t;
    let runs = |d: Deployment| d.state == State::Running;
    let sorted = by_last_update(s);
    law_sort_is_stable(s, t);
    lemma_filter_twice(sorted, runs, at);
    lemma_filter_twice(sorted, at, runs);
    lemma_filter_twice(s, at, runs);
    assert((|d: Deployment| runs(d) && at(d)) =~= (|d: Deployment| at(d) && runs(d)));
    assert((|d: Deployment| at(d) && runs(d)) =~= (|d: Deployment|
        d.last_update == t && d.state == State::Running));
    assert(updated_at(sorted, t) == sorted.filter(at));
    assert(updated_at(s, t) == s.filter(at));
}

/// What is picked runs, whatever the list.
pub proof fn law_picked_deployments_run(s: Seq<Deployment>)
    ensures
        forall|i: int|
            0 <= i < running(s).len() ==> (#[trigger] running(s)[i]).state == State::Running,
        forall|d: Deployment| #[trigger]
            running(s).contains(d) <==> s.contains(d) && d.state == State::Running,
    decreases s.len(),
{
    reveal(Seq::filter);
    if s.len() > 0 {
        let init = s.drop_last();
        let last = s.last();
        law_picked_deployments_run(init);
        assert(s =~= init.push(last));
        assert forall|d: Deployment| #[trigger] running(s).contains(d) <==> s.contains(d) && d.state
            == State::Running by {
            assert(s.contains(d) <==> init.contains(d) || d == last) by {
                if init.contains(d) {
                    assert(s[init.index_of(d)] == d);
                }
                if d == last {
                    assert(s[s.len() - 1] == d);
                }
                if s.contains(d) && d != last {
                    assert(init[s.index_of(d)] == d);
                }
            }
            if last.state == State::Running {
                let r = running(init);
                assert(running(s) == r.push(last));
                if r.contains(d) {
                    assert(r.push(last)[r.index_of(d)] == d);
                }
                if d == last {
                    assert(r.push(last)[r.len() as int] == d);
                }
                if r.push(last).contains(d) && d != last {
                    assert(r[r.push(last).index_of(d)] == d);
                }
            }
        }
    }
}

proof fn lemma_filter_in_order(s: Seq<Deployment>)
    requires
        in_order(s),
    ensures
        in_order(running(s)),
    decreases s.len(),
{
    reveal(Seq::filter);
    if s.len() > 0 {
        let init = s.drop_last();
        assert(in_order(init)) by {
            assert forall|i: int, j: int| 0 <= i < j < init.len() implies !(
            #[trigger] init[i]).last_update.later((#[trigger] init[j]).last_update) by {
                assert(init[i] == s[i] && init[j] == s[j]);
            }
        }
        lemma_filter_in_order(init);
        let r = running(init);
        if s.last().state == State::Running {
            law_picked_deployments_run(init);
            assert forall|i: int, j: int| 0 <= i < j < r.push(s.last()).len() implies !(
            #[trigger] r.push(s.last())[i]).last_update.later(
                (#[trigger] r.push(s.last())[j]).last_update,
            ) by {
                if j == r.len() {
                    assert(r.contains(r[i]));
                    let k = choose|k: int| 0 <= k < init.len() && init[k] == r[i];
                    assert(s[k] == r[i]);
                    assert(s[s.len() - 1] == s.last());
                }
            }
        }
    }
}

/// What is picked of a sorted list goes by the seconds of the last update, then by the nanoseconds.
pub proof fn law_picked_by_time(s: Seq<Deployment>)
    ensures
        forall|i: int, j: int|
            #![trigger running(by_last_update(s))[i], running(by_last_update(s))[j]]
            0 <= i < j < running(by_last_update(s)).len() ==> {
                let a = running(by_last_update(s))[i].last_update;
                let b = running(by_last_update(s))[j].last_update;
                a.secs < b.secs || (a.secs == b.secs && a.nanos <= b.nanos)
            },
{
    law_sort_is_stable(s, Timestamp { secs: 0, nanos: 0 });
    lemma_filter_in_order(by_last_update(s));
}

} // verus!
