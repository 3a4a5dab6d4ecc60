//! What happens to the blobs of a block, in whatever order it happens.

use vstd::prelude::*;

verus! {

/// Something that happens to a blob, and takes it from one phase to the next.
pub trait Event: Sized {
    type Phase;

    /// The phase in which a blob starts.
    spec fn first_phase() -> Self::Phase;

    /// Whether the event can happen in `phase`.
    spec fn can_happen_in(self, phase: Self::Phase) -> bool;

    /// The phase that the event leads to.
    spec fn next_phase(self) -> Self::Phase;

    /// Whether the blob has come where it was to come.
    spec fn is_success(phase: Self::Phase) -> bool;

    /// A blob does not start where it is to come.
    proof fn success_takes_an_event()
        ensures
            !Self::is_success(Self::first_phase()),
    ;

    /// Nothing happens any more to a blob that has come where it was to come.
    proof fn success_is_the_end(self, phase: Self::Phase)
        requires
            Self::is_success(phase),
        ensures
            !self.can_happen_in(phase),
    ;
}

/// How many of `events` are such that `which` holds of them.
pub open spec fn count<E>(events: Seq<E>, which: spec_fn(E) -> bool) -> nat
    decreases events.len(),
{
    if events.len() == 0 {
        0
    } else {
        count(events.drop_last(), which) + if which(events.last()) {
            1nat
        } else {
            0
        }
    }
}

/// One element of a list is changed.
pub(crate) proof fn lemma_count_update<E>(list: Seq<E>, i: int, element: E, which: spec_fn(E) -> bool)
    requires
        0 <= i < list.len(),
    ensures
        count(list.update(i, element), which) + (if which(list[i]) {
            1nat
        } else {
            0
        }) == count(list, which) + (if which(element) {
            1nat
        } else {
            0
        }),
    decreases list.len(),
{
    let changed = list.update(i, element);
    if i == list.len() - 1 {
        assert(changed.drop_last() =~= list.drop_last());
    } else {
        lemma_count_update(list.drop_last(), i, element, which);
        assert(changed.drop_last() =~= list.drop_last().update(i, element));
    }
}

/// Of two properties, the wider one holds at least as often.
pub(crate) proof fn lemma_count_wider<E>(
    list: Seq<E>,
    narrow: spec_fn(E) -> bool,
    wide: spec_fn(E) -> bool,
)
    requires
        forall|element: E| #[trigger] narrow(element) ==> wide(element),
    ensures
        count(list, narrow) <= count(list, wide),
    decreases list.len(),
{
    if list.len() > 0 {
        lemma_count_wider(list.drop_last(), narrow, wide);
    }
}

/// A property that no element has is counted zero times.
pub(crate) proof fn lemma_count_none<E>(list: Seq<E>, which: spec_fn(E) -> bool)
    requires
        forall|i: int| 0 <= i < list.len() ==> !which(#[trigger] list[i]),
    ensures
        count(list, which) == 0,
    decreases list.len(),
{
    if list.len() > 0 {
        lemma_count_none(list.drop_last(), which);
    }
}

/// The phase of a blob to which `events` have happened.
pub open spec fn phase_after<E: Event>(events: Seq<E>) -> E::Phase {
    if events.len() == 0 {
        E::first_phase()
    } else {
        events.last().next_phase()
    }
}

/// Whether `events` can happen to one blob, in this order.
pub open spec fn is_life<E: Event>(events: Seq<E>) -> bool
    decreases events.len(),
{
    events.len() > 0 ==> {
        &&& is_life(events.drop_last())
        &&& events.last().can_happen_in(phase_after(events.drop_last()))
    }
}

/// The phases of `blobs` blobs after a run: the events that happened, each with the number of
/// the blob that it happened to.
pub open spec fn phases_after<E: Event>(blobs: nat, run: Seq<(int, E)>) -> Seq<E::Phase>
    decreases run.len(),
{
    if run.len() == 0 {
        Seq::new(blobs, |i: int| E::first_phase())
    } else {
        phases_after(blobs, run.drop_last()).update(run.last().0, run.last().1.next_phase())
    }
}

/// Whether a run can happen to `blobs` blobs. The blobs take turns in any way.
pub open spec fn is_run<E: Event>(blobs: nat, run: Seq<(int, E)>) -> bool
    decreases run.len(),
{
    run.len() > 0 ==> {
        &&& is_run(blobs, run.drop_last())
        &&& 0 <= run.last().0 < blobs
        &&& run.last().1.can_happen_in(phases_after(blobs, run.drop_last())[run.last().0])
    }
}

/// What happened to blob `i` in a run.
pub open spec fn events_of<E>(run: Seq<(int, E)>, i: int) -> Seq<E>
    decreases run.len(),
{
    if run.len() == 0 {
        Seq::empty()
    } else if run.last().0 == i {
        events_of(run.drop_last(), i).push(run.last().1)
    } else {
        events_of(run.drop_last(), i)
    }
}

/// The lengths of those of the first `k` blobs that have come where they were to come.
pub open spec fn success_bytes<E: Event>(lens: Seq<nat>, phases: Seq<E::Phase>, k: nat) -> nat
    decreases k,
{
    if k == 0 {
        0
    } else {
        success_bytes::<E>(lens, phases, (k - 1) as nat) + if E::is_success(phases[k - 1]) {
            lens[k - 1]
        } else {
            0
        }
    }
}

/// The lengths of the blobs, each time that one comes where it was to come.
pub open spec fn counted_bytes<E: Event>(lens: Seq<nat>, run: Seq<(int, E)>) -> nat
    decreases run.len(),
{
    if run.len() == 0 {
        0
    } else {
        counted_bytes(lens, run.drop_last()) + if E::is_success(run.last().1.next_phase()) {
            lens[run.last().0]
        } else {
            0
        }
    }
}

/// There is a phase for each blob.
pub(crate) proof fn lemma_phases_len<E: Event>(blobs: nat, run: Seq<(int, E)>)
    requires
        is_run(blobs, run),
    ensures
        phases_after(blobs, run).len() == blobs,
    decreases run.len(),
{
    if run.len() > 0 {
        lemma_phases_len(blobs, run.drop_last());
    }
}

/// Whatever turns the blobs take, what happens to each of them is the life of one blob, and
/// leads to the phase in which the run leaves it.
pub proof fn law_run_is_made_of_lives<E: Event>(blobs: nat, run: Seq<(int, E)>, i: int)
    requires
        is_run(blobs, run),
        0 <= i < blobs,
    ensures
        is_life(events_of(run, i)),
        phase_after(events_of(run, i)) == phases_after(blobs, run)[i],
    decreases run.len(),
{
    if run.len() > 0 {
        law_run_is_made_of_lives(blobs, run.drop_last(), i);
        lemma_phases_len(blobs, run.drop_last());
        if run.last().0 == i {
            let before = events_of(run.drop_last(), i);
            assert(events_of(run, i).drop_last() =~= before);
        }
    }
}

/// A phase that is changed only past the first `k` blobs does not matter to them.
proof fn lemma_success_bytes_past<E: Event>(
    lens: Seq<nat>,
    phases: Seq<E::Phase>,
    i: int,
    phase: E::Phase,
    k: nat,
)
    requires
        k <= i < phases.len(),
    ensures
        success_bytes::<E>(lens, phases.update(i, phase), k) == success_bytes::<E>(
            lens,
            phases,
            k,
        ),
    decreases k,
{
    if k > 0 {
        lemma_success_bytes_past::<E>(lens, phases, i, phase, (k - 1) as nat);
    }
}

/// A blob that had not come where it was to come counts as soon as it does.
proof fn lemma_success_bytes_update<E: Event>(
    lens: Seq<nat>,
    phases: Seq<E::Phase>,
    i: int,
    phase: E::Phase,
    k: nat,
)
    requires
        0 <= i < k <= phases.len(),
        !E::is_success(phases[i]),
    ensures
        success_bytes::<E>(lens, phases.update(i, phase), k) == success_bytes::<E>(
            lens,
            phases,
            k,
        ) + if E::is_success(phase) {
            lens[i]
        } else {
            0
        },
    decreases k,
{
    if i == k - 1 {
        lemma_success_bytes_past::<E>(lens, phases, i, phase, (k - 1) as nat);
    } else {
        lemma_success_bytes_update::<E>(lens, phases, i, phase, (k - 1) as nat);
    }
}

/// No blob counts before anything happened.
proof fn lemma_success_bytes_at_first<E: Event>(lens: Seq<nat>, blobs: nat, k: nat)
    requires
        k <= blobs,
    ensures
        success_bytes::<E>(lens, Seq::new(blobs, |i: int| E::first_phase()), k) == 0,
    decreases k,
{
    if k > 0 {
        lemma_success_bytes_at_first::<E>(lens, blobs, (k - 1) as nat);
        E::success_takes_an_event();
    }
}

/// Whatever turns the blobs take, each blob that comes where it was to come is counted once,
/// and no other is.
pub proof fn law_each_blob_is_counted_once<E: Event>(lens: Seq<nat>, run: Seq<(int, E)>)
    requires
        is_run(lens.len(), run),
    ensures
        counted_bytes(lens, run) == success_bytes::<E>(
            lens,
            phases_after(lens.len(), run),
            lens.len(),
        ),
    decreases run.len(),
{
    if run.len() == 0 {
        lemma_success_bytes_at_first::<E>(lens, lens.len(), lens.len());
    } else {
        law_each_blob_is_counted_once(lens, run.drop_last());
        lemma_phases_len(lens.len(), run.drop_last());
        let phases = phases_after(lens.len(), run.drop_last());
        let (i, event) = run.last();
        if E::is_success(phases[i]) {
            event.success_is_the_end(phases[i]);
        }
        lemma_success_bytes_update::<E>(lens, phases, i, event.next_phase(), lens.len());
    }
}

} // verus!
