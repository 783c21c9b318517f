use vstd::prelude::*;

verus! {

/// What draining a result stream gives, starting from the records already
/// collected in `items`: every record in stream order, or the first failure.
pub open spec fn drain_outcome<T, E>(items: Seq<T>, pulls: Seq<Result<T, E>>) -> Result<
    Seq<T>,
    E,
>
    decreases pulls.len(),
{
    if pulls.len() == 0 {
        Ok(items)
    } else {
        match pulls[0] {
            Ok(x) => drain_outcome(items.push(x), pulls.drop_first()),
            Err(e) => Err(e),
        }
    }
}

/// The records of a stream in which every pull succeeded.
pub open spec fn pulled_records<T, E>(pulls: Seq<Result<T, E>>) -> Seq<T> {
    pulls.map_values(|p: Result<T, E>| p->Ok_0)
}

/// Where a drain stands after one pull from the stream.
pub enum DrainState<T, E> {
    /// The stream may hold more: keep pulling, with these records collected.
    Pending(Vec<T>),
    /// The drain is over, with every record or with the first failure.
    Done(Result<Vec<T>, E>),
}

/// One step of draining a stream: `next` is what the last pull gave
/// (`None` once the stream is exhausted). A failure discards what was
/// collected.
pub fn drain_step<T, E>(items: Vec<T>, next: Option<Result<T, E>>) -> (r: DrainState<T, E>)
    ensures
        match next {
            None => r == DrainState::<T, E>::Done(Ok(items)),
            Some(Ok(x)) => r is Pending && r->Pending_0@ == items@.push(x),
            Some(Err(e)) => r == DrainState::<T, E>::Done(Err(e)),
        },
{
    match next {
        None => DrainState::Done(Ok(items)),
        Some(Ok(x)) => {
            let mut items = items;
            items.push(x);
            DrainState::Pending(items)
        },
        Some(Err(e)) => DrainState::Done(Err(e)),
    }
}

/// Drains a stream whose pulls are already at hand, in order: every record,
/// or the first failure and nothing else.
pub fn drain_all<T, E>(pulls: Vec<Result<T, E>>) -> (r: Result<Vec<T>, E>)
    ensures
        match r {
            Ok(v) => drain_outcome(Seq::<T>::empty(), pulls@) == Ok::<Seq<T>, E>(v@),
            Err(e) => drain_outcome(Seq::<T>::empty(), pulls@) == Err::<Seq<T>, E>(e),
        },
{
    let mut items: Vec<T> = Vec::new();
    let mut rest = pulls;
    loop
        invariant
            drain_outcome(items@, rest@) == drain_outcome(Seq::<T>::empty(), pulls@),
        decreases rest.len(),
    {
        let ghost before = rest@;
        let next = if rest.len() == 0 {
            None
        } else {
            Some(rest.remove(0))
        };
        proof {
            if before.len() > 0 {
                assert(rest@ =~= before.drop_first());
            }
        }
        match drain_step(items, next) {
            DrainState::Pending(v) => {
                items = v;
            },
            DrainState::Done(res) => {
                return res;
            },
        }
    }
}

/// An exhausted stream that held nothing drains to an empty sequence, not to
/// a failure.
pub proof fn law_empty_stream_drains_to_empty<T, E>()
    ensures
        drain_outcome(Seq::<T>::empty(), Seq::<Result<T, E>>::empty()) == Ok::<Seq<T>, E>(
            Seq::<T>::empty(),
        ),
{
}

/// A failed pull ends the drain with that failure when every pull before it
/// succeeded: the records collected so far are never returned.
pub proof fn law_first_failure_aborts<T, E>(items: Seq<T>, pulls: Seq<Result<T, E>>, i: int)
    requires
        0 <= i < pulls.len(),
        pulls[i] is Err,
        forall|j: int| 0 <= j < i ==> pulls[j] is Ok,
    ensures
        drain_outcome(items, pulls) == Err::<Seq<T>, E>(pulls[i]->Err_0),
    decreases i,
{
    if i > 0 {
        assert(pulls[0] is Ok);
        law_first_failure_aborts(items.push(pulls[0]->Ok_0), pulls.drop_first(), i - 1);
    }
}

/// A stream in which every pull succeeds drains to all its records, after
/// those already collected, in stream order.
pub proof fn law_success_keeps_every_record_in_order<T, E>(items: Seq<T>, pulls: Seq<Result<T, E>>)
    requires
        forall|j: int| 0 <= j < pulls.len() ==> pulls[j] is Ok,
    ensures
        drain_outcome(items, pulls) == Ok::<Seq<T>, E>(items + pulled_records(pulls)),
    decreases pulls.len(),
{
    if pulls.len() == 0 {
        assert(items + pulled_records(pulls) =~= items);
    } else {
        assert(pulls[0] is Ok);
        let tail = pulls.drop_first();
        assert forall|j: int| 0 <= j < tail.len() implies tail[j] is Ok by {
            assert(tail[j] == pulls[j + 1]);
        }
        law_success_keeps_every_record_in_order(items.push(pulls[0]->Ok_0), tail);
        assert(items.push(pulls[0]->Ok_0) + pulled_records(tail) =~= items + pulled_records(pulls));
    }
}

} // verus!
