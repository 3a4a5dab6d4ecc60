//! What holds of the client as a whole.

use crate::blob::{blobs, law_blob_sizes, law_blobs_rebuild_the_block, total_len};
use crate::confirm::{
    confirm_outcomes, ConfirmAction, ConfirmEvent, ConfirmPhase, Confirmation, Storage,
};
use crate::da::{DAClient, ZGDA};
use crate::disperse::{
    blob_data, disperse_outcomes, BlobDispersal, Dispersal, DisperseAction, DisperseEvent,
    DispersePhase,
};
use crate::disperser::{
    spec_is_rate_limit, BlobPlace, BlobStatus, BlobStatusReply, DAError, RetrieveBlobRequest,
};
use crate::gather::{gathers, law_gathering_fails_on_an_error};
use crate::metrics::{Counter, DAMetrics};
use crate::promises::{
    law_all_of_a_block_is_dispersed, law_all_of_a_block_is_stored, law_confirmation_finishes,
    law_every_blob_is_retrieved, law_retrieval_finishes, law_storage_goes_on_to_wait,
};
use crate::retrieve::{
    requests_for, BlobRetrieval, Retrieval, RetrieveAction, RetrieveEvent, RetrievePhase,
};
use crate::run::{
    count, counted_bytes, is_life, is_run, law_each_blob_is_counted_once, lemma_count_none,
    lemma_count_update, lemma_count_wider, lemma_phases_len, phase_after, phases_after,
    success_bytes, Event,
};
use vstd::prelude::*;

verus! {

impl Event for DisperseEvent {
    type Phase = DispersePhase;

    open spec fn first_phase() -> DispersePhase {
        DispersePhase::Idle
    }

    open spec fn can_happen_in(self, phase: DispersePhase) -> bool {
        phase.expects(self)
    }

    open spec fn next_phase(self) -> DispersePhase {
        self.leads_to()
    }

    open spec fn is_success(phase: DispersePhase) -> bool {
        phase is Accepted
    }

    proof fn success_takes_an_event() {
    }

    proof fn success_is_the_end(self, phase: DispersePhase) {
    }
}

impl Event for ConfirmEvent {
    type Phase = ConfirmPhase;

    open spec fn first_phase() -> ConfirmPhase {
        ConfirmPhase::Idle
    }

    open spec fn can_happen_in(self, phase: ConfirmPhase) -> bool {
        phase.expects(self)
    }

    open spec fn next_phase(self) -> ConfirmPhase {
        self.leads_to()
    }

    open spec fn is_success(phase: ConfirmPhase) -> bool {
        phase is Finalized
    }

    proof fn success_takes_an_event() {
    }

    proof fn success_is_the_end(self, phase: ConfirmPhase) {
    }
}

impl Event for RetrieveEvent {
    type Phase = RetrievePhase;

    open spec fn first_phase() -> RetrievePhase {
        RetrievePhase::Idle
    }

    open spec fn can_happen_in(self, phase: RetrievePhase) -> bool {
        phase.expects(self)
    }

    open spec fn next_phase(self) -> RetrievePhase {
        self.leads_to()
    }

    open spec fn is_success(phase: RetrievePhase) -> bool {
        phase is Retrieved
    }

    proof fn success_takes_an_event() {
    }

    proof fn success_is_the_end(self, phase: RetrievePhase) {
    }
}

/// How often a blob was sent.
pub open spec fn sends(events: Seq<DisperseEvent>) -> nat {
    count(events, |event: DisperseEvent| event.leads_to() is Sending)
}

/// How often a blob was refused.
pub open spec fn refusals(events: Seq<DisperseEvent>) -> nat {
    count(events, |event: DisperseEvent| event is Refused)
}

/// How often a blob was taken.
pub open spec fn acceptances(events: Seq<DisperseEvent>) -> nat {
    count(events, |event: DisperseEvent| event is Accepted)
}

/// How often a blob was given a place among the requests under way.
pub open spec fn permits(events: Seq<DisperseEvent>) -> nat {
    count(events, |event: DisperseEvent| event is PermitGranted)
}

/// How often the rate limit let a blob through.
pub open spec fn rate_waits(events: Seq<DisperseEvent>) -> nat {
    count(events, |event: DisperseEvent| event is RateReady || event is RetryReady)
}

/// A blob is sent with one place among the requests under way, however often it is refused, and
/// each time after a pass of its own through the rate limit. It is sent once more after each
/// refusal that it got over, is taken at most once, and, once taken, has been sent once more often
/// than it was refused. One that finds no connection is never sent.
pub proof fn law_life_of_a_dispersal(events: Seq<DisperseEvent>)
    requires
        is_life(events),
    ensures
        sends(events) <= refusals(events) + 1,
        refusals(events) <= sends(events),
        sends(events) > 0 ==> permits(events) == 1,
        sends(events) <= rate_waits(events),
        sends(events) > 0 ==> sends(events) == rate_waits(events),
        acceptances(events) == if phase_after(events) is Accepted {
            1nat
        } else {
            0
        },
        phase_after(events) is Sending || phase_after(events) is Accepted ==> sends(events)
            == refusals(events) + 1,
        phase_after(events) is BackingOff || phase_after(events) is AwaitingRetryRate ==> sends(
            events,
        ) == refusals(events) && sends(events) > 0,
        phase_after(events) is Failed ==> sends(events) == 0,
        events.len() > 0 && events.last() is Accepted ==> phase_after(events)
            == DispersePhase::Accepted(events.last()->Accepted_0),
        phase_after(events) is Failed ==> events.last() is ConnectFailed && phase_after(events)
            == DispersePhase::Failed(DAError::Connect(events.last()->ConnectFailed_0)),
{
    lemma_life_of_a_dispersal(events);
}

/// The counts of a blob's life, phase by phase.
proof fn lemma_life_of_a_dispersal(events: Seq<DisperseEvent>)
    requires
        is_life(events),
    ensures
        match phase_after(events) {
            DispersePhase::Idle | DispersePhase::AwaitingPermit => {
                &&& permits(events) == 0
                &&& rate_waits(events) == 0
                &&& sends(events) == 0
                &&& refusals(events) == 0
                &&& acceptances(events) == 0
            },
            DispersePhase::AwaitingRate => {
                &&& permits(events) == 1
                &&& rate_waits(events) == 0
                &&& sends(events) == 0
                &&& refusals(events) == 0
                &&& acceptances(events) == 0
            },
            DispersePhase::Connecting | DispersePhase::Failed(_) => {
                &&& permits(events) == 1
                &&& rate_waits(events) == 1
                &&& sends(events) == 0
                &&& refusals(events) == 0
                &&& acceptances(events) == 0
            },
            DispersePhase::Sending => {
                &&& permits(events) == 1
                &&& rate_waits(events) == sends(events)
                &&& sends(events) == refusals(events) + 1
                &&& acceptances(events) == 0
            },
            DispersePhase::BackingOff | DispersePhase::AwaitingRetryRate => {
                &&& permits(events) == 1
                &&& rate_waits(events) == sends(events)
                &&& sends(events) == refusals(events)
                &&& sends(events) > 0
                &&& acceptances(events) == 0
            },
            DispersePhase::Accepted(_) => {
                &&& permits(events) == 1
                &&& rate_waits(events) == sends(events)
                &&& sends(events) == refusals(events) + 1
                &&& acceptances(events) == 1
            },
        },
    decreases events.len(),
{
    if events.len() > 0 {
        lemma_life_of_a_dispersal(events.drop_last());
    }
}

/// How often a place among the requests under way was given in a run.
pub open spec fn places_given(run: Seq<(int, DisperseEvent)>) -> nat {
    count(run, |happened: (int, DisperseEvent)| happened.1 is PermitGranted)
}

/// How often a blob that had such a place was done with in a run.
pub open spec fn places_returned(run: Seq<(int, DisperseEvent)>) -> nat {
    count(run, |happened: (int, DisperseEvent)| happened.1.leads_to().is_final())
}

/// How many blobs are on their way to the disperser.
pub open spec fn under_way(phases: Seq<DispersePhase>) -> nat {
    count(phases, |phase: DispersePhase| phase is Sending)
}

/// Whether a blob in this phase has a place among the requests under way.
pub open spec fn has_place(phase: DispersePhase) -> bool {
    ||| phase is AwaitingRate
    ||| phase is Connecting
    ||| phase is Sending
    ||| phase is BackingOff
    ||| phase is AwaitingRetryRate
}

/// How many blobs have a place among the requests under way.
pub open spec fn places_taken(phases: Seq<DispersePhase>) -> nat {
    count(phases, |phase: DispersePhase| has_place(phase))
}

/// The blobs that have a place are those that were given one and are not done with.
proof fn lemma_places(blobs: nat, run: Seq<(int, DisperseEvent)>)
    requires
        is_run(blobs, run),
    ensures
        places_taken(phases_after(blobs, run)) + places_returned(run) == places_given(run),
    decreases run.len(),
{
    let which = |phase: DispersePhase| has_place(phase);
    if run.len() == 0 {
        lemma_count_none(phases_after(blobs, run), which);
    } else {
        let before = run.drop_last();
        lemma_places(blobs, before);
        lemma_phases_len(blobs, before);
        let (i, event) = run.last();
        lemma_count_update(phases_after(blobs, before), i, event.leads_to(), which);
    }
}

/// No more blobs wait for the rate limit, connect, are sent or wait to be sent again than the
/// settings allow, whatever turns the blobs take, as long as no more places are given and not
/// returned than the client has.
pub proof fn law_requests_under_way_are_limited(
    da: ZGDA,
    blobs: nat,
    run: Seq<(int, DisperseEvent)>,
)
    requires
        da.is_valid(),
        is_run(blobs, run),
        places_given(run) <= places_returned(run) + da.disperser_permits,
    ensures
        places_taken(phases_after(blobs, run)) <= da.config.max_out_standing,
        under_way(phases_after(blobs, run)) <= da.config.max_out_standing,
{
    lemma_places(blobs, run);
    lemma_count_wider(
        phases_after(blobs, run),
        |phase: DispersePhase| phase is Sending,
        |phase: DispersePhase| has_place(phase),
    );
}

/// Once every blob is done with, every place that was given has been returned.
pub proof fn law_places_are_returned(blobs: nat, run: Seq<(int, DisperseEvent)>)
    requires
        is_run(blobs, run),
        forall|i: int|
            0 <= i < blobs ==> (#[trigger] phases_after(blobs, run)[i]).is_final(),
    ensures
        places_given(run) == places_returned(run),
{
    lemma_places(blobs, run);
    lemma_phases_len(blobs, run);
    lemma_count_none(phases_after(blobs, run), |phase: DispersePhase| has_place(phase));
}

/// How often a request went out in a run.
pub open spec fn run_sends(run: Seq<(int, DisperseEvent)>) -> nat {
    count(run, |happened: (int, DisperseEvent)| happened.1.leads_to() is Sending)
}

/// How often the rate limit let a blob through in a run.
pub open spec fn run_rate_waits(run: Seq<(int, DisperseEvent)>) -> nat {
    count(
        run,
        |happened: (int, DisperseEvent)| happened.1 is RateReady || happened.1 is RetryReady,
    )
}

/// The rate limit let through what was sent, and one for each blob that connects or could not.
proof fn lemma_rate_waits(blobs: nat, run: Seq<(int, DisperseEvent)>)
    requires
        is_run(blobs, run),
    ensures
        run_rate_waits(run) == run_sends(run) + count(
            phases_after(blobs, run),
            |phase: DispersePhase| phase is Connecting || phase is Failed,
        ),
    decreases run.len(),
{
    let which = |phase: DispersePhase| phase is Connecting || phase is Failed;
    if run.len() == 0 {
        lemma_count_none(phases_after(blobs, run), which);
    } else {
        let before = run.drop_last();
        lemma_rate_waits(blobs, before);
        lemma_phases_len(blobs, before);
        let (i, event) = run.last();
        lemma_count_update(phases_after(blobs, before), i, event.leads_to(), which);
    }
}

/// No more requests have gone out at any time than the rate limit let through, those that follow
/// a refusal among them, whatever turns the blobs take.
pub proof fn law_every_request_passes_the_rate_limit(
    blobs: nat,
    run: Seq<(int, DisperseEvent)>,
)
    requires
        is_run(blobs, run),
    ensures
        run_sends(run) <= run_rate_waits(run),
{
    lemma_rate_waits(blobs, run);
}

/// How often the disperser was asked for a blob's status.
pub open spec fn polls(events: Seq<ConfirmEvent>) -> nat {
    count(events, |event: ConfirmEvent| event.leads_to() is Polling)
}

/// How often the disperser answered.
pub open spec fn answers(events: Seq<ConfirmEvent>) -> nat {
    count(events, |event: ConfirmEvent| event is Status)
}

/// The disperser is asked once more after each answer but the last, and at most one poll is
/// open. The wait ends with success exactly when an answer, the last, says that the blob is
/// finalized; that answer also says where the blob is.
pub proof fn law_life_of_a_confirmation(events: Seq<ConfirmEvent>)
    requires
        is_life(events),
    ensures
        phase_after(events) is Polling ==> polls(events) == answers(events) + 1,
        !(phase_after(events) is Polling) ==> polls(events) == answers(events),
        phase_after(events) is Idle || phase_after(events) is Connecting || phase_after(
            events,
        ) is Failed ==> polls(events) == 0,
        phase_after(events) is Finalized <==> exists|i: int|
            0 <= i < events.len() && (#[trigger] events[i]) is Status
                && events[i]->Status_0.spec_is_finalized(),
        phase_after(events) is Finalized ==> {
            &&& events.last() == ConfirmEvent::Status(phase_after(events)->Finalized_0)
            &&& phase_after(events)->Finalized_0.spec_is_finalized()
            &&& phase_after(events)->Finalized_0.spec_has_header()
        },
    decreases events.len(),
{
    if events.len() > 0 {
        let before = events.drop_last();
        law_life_of_a_confirmation(before);
        let last = events.len() - 1;
        assert(events[last] == events.last());
        assert(phase_after(before) !is Finalized);
        assert forall|i: int| 0 <= i < last implies !((#[trigger] events[i]) is Status
            && events[i]->Status_0.spec_is_finalized()) by {
            assert(before[i] == events[i]);
        }
    }
}

/// How often the disperser was asked for a blob.
pub open spec fn asks(events: Seq<RetrieveEvent>) -> nat {
    count(events, |event: RetrieveEvent| event.leads_to() is Requesting)
}

/// The disperser is asked for a blob at most once, and is asked before the blob comes. Whatever
/// data comes is the blob, and the retrieval fails only with what the transport or the disperser
/// said last.
pub proof fn law_life_of_a_retrieval(events: Seq<RetrieveEvent>)
    requires
        is_life(events),
    ensures
        asks(events) <= 1,
        phase_after(events) is Requesting || phase_after(events) is Retrieved ==> asks(events)
            == 1,
        phase_after(events) is Idle || phase_after(events) is Connecting ==> asks(events) == 0,
        events.len() > 0 && events.last() is Data ==> phase_after(events)
            == RetrievePhase::Retrieved(events.last()->Data_0),
        phase_after(events) is Retrieved ==> events.last() is Data,
        phase_after(events) is Failed ==> {
            ||| events.last() is ConnectFailed && phase_after(events) == RetrievePhase::Failed(
                DAError::Connect(events.last()->ConnectFailed_0),
            )
            ||| events.last() is Refused && phase_after(events) == RetrievePhase::Failed(
                DAError::Retrieve(events.last()->Refused_0),
            )
        },
    decreases events.len(),
{
    if events.len() > 0 {
        law_life_of_a_retrieval(events.drop_last());
    }
}

/// Every request that disperses a block carries something, and no more than the client's limit.
pub proof fn law_requests_are_limited(
    da: ZGDA,
    data: Seq<u8>,
    dispersal: Dispersal<'_>,
    i: int,
    action: DisperseAction,
)
    requires
        da.blob_limit() > 0,
        blob_data(dispersal.blobs@) == blobs(data, da.blob_limit()),
        0 <= i < dispersal.blobs@.len(),
        action.suits(DispersePhase::Sending, dispersal.blobs@[i].data@, da),
    ensures
        0 < action->Send_0.data@.len() <= da.config.blob_size,
{
    assert(blob_data(dispersal.blobs@)[i] == dispersal.blobs@[i].data@);
    law_blob_sizes(data, da.blob_limit(), i);
}

/// A counter after `amount` more, counted in however many steps.
pub open spec fn counter_after(counter: Counter, amount: nat) -> Counter {
    Counter { value: ((counter.value + amount) % 0x1_0000_0000_0000_0000) as u64, ..counter }
}

/// One more step of counting.
proof fn lemma_counter_after(counter: Counter, amount: nat, step: nat)
    requires
        step <= u64::MAX,
    ensures
        counter_after(counter, amount).plus(step as u64) == counter_after(
            counter,
            amount + step,
        ),
{
}

/// The counters after a run of dispersals of blobs of these lengths.
pub open spec fn metrics_after_dispersal(
    metrics: DAMetrics,
    lens: Seq<nat>,
    run: Seq<(int, DisperseEvent)>,
) -> DAMetrics
    decreases run.len(),
{
    if run.len() == 0 {
        metrics
    } else {
        run.last().1.counted_in(
            metrics_after_dispersal(metrics, lens, run.drop_last()),
            lens[run.last().0],
        )
    }
}

/// The counters after a run of waits for blobs of these lengths.
pub open spec fn metrics_after_confirmation(
    metrics: DAMetrics,
    lens: Seq<nat>,
    run: Seq<(int, ConfirmEvent)>,
) -> DAMetrics
    decreases run.len(),
{
    if run.len() == 0 {
        metrics
    } else {
        run.last().1.counted_in(
            metrics_after_confirmation(metrics, lens, run.drop_last()),
            lens[run.last().0],
        )
    }
}

/// How often a blob was refused because of a rate limit in a run.
pub open spec fn run_rate_limits(run: Seq<(int, DisperseEvent)>) -> nat {
    count(
        run,
        |happened: (int, DisperseEvent)|
            happened.1 is Refused && spec_is_rate_limit(happened.1->Refused_0),
    )
}

/// How often the disperser answered a poll in a run.
pub open spec fn run_answers(run: Seq<(int, ConfirmEvent)>) -> nat {
    count(run, |happened: (int, ConfirmEvent)| happened.1 is Status)
}

/// The counters of a run of dispersals, by its events.
proof fn lemma_metrics_after_dispersal(
    metrics: DAMetrics,
    lens: Seq<nat>,
    run: Seq<(int, DisperseEvent)>,
)
    requires
        is_run(lens.len(), run),
        forall|i: int| 0 <= i < lens.len() ==> (#[trigger] lens[i]) <= u64::MAX,
    ensures
        metrics_after_dispersal(metrics, lens, run) == (DAMetrics {
            dispersed_bytes: counter_after(metrics.dispersed_bytes, counted_bytes(lens, run)),
            dispersal_rate_limited: counter_after(
                metrics.dispersal_rate_limited,
                run_rate_limits(run),
            ),
            ..metrics
        }),
    decreases run.len(),
{
    if run.len() > 0 {
        let before = run.drop_last();
        lemma_metrics_after_dispersal(metrics, lens, before);
        lemma_counter_after(
            metrics.dispersed_bytes,
            counted_bytes(lens, before),
            lens[run.last().0],
        );
        lemma_counter_after(metrics.dispersal_rate_limited, run_rate_limits(before), 1);
    }
}

/// The counters of a run of waits, by its events.
proof fn lemma_metrics_after_confirmation(
    metrics: DAMetrics,
    lens: Seq<nat>,
    run: Seq<(int, ConfirmEvent)>,
)
    requires
        is_run(lens.len(), run),
        forall|i: int| 0 <= i < lens.len() ==> (#[trigger] lens[i]) <= u64::MAX,
    ensures
        metrics_after_confirmation(metrics, lens, run) == (DAMetrics {
            confirmed_bytes: counter_after(metrics.confirmed_bytes, counted_bytes(lens, run)),
            poll_confirmation_count: counter_after(
                metrics.poll_confirmation_count,
                run_answers(run),
            ),
            ..metrics
        }),
    decreases run.len(),
{
    if run.len() > 0 {
        let before = run.drop_last();
        lemma_metrics_after_confirmation(metrics, lens, before);
        lemma_counter_after(
            metrics.confirmed_bytes,
            counted_bytes(lens, before),
            lens[run.last().0],
        );
        lemma_counter_after(metrics.poll_confirmation_count, run_answers(before), 1);
    }
}

/// The counters tell what a dispersal did, whatever turns its blobs took: the bytes of the blobs
/// that were taken, each once, and every refusal that was a rate limit. The other
/// counters stay.
pub proof fn law_dispersal_is_counted(
    metrics: DAMetrics,
    lens: Seq<nat>,
    run: Seq<(int, DisperseEvent)>,
)
    requires
        is_run(lens.len(), run),
        forall|i: int| 0 <= i < lens.len() ==> (#[trigger] lens[i]) <= u64::MAX,
    ensures
        metrics_after_dispersal(metrics, lens, run) == (DAMetrics {
            dispersed_bytes: counter_after(
                metrics.dispersed_bytes,
                success_bytes::<DisperseEvent>(
                    lens,
                    phases_after(lens.len(), run),
                    lens.len(),
                ),
            ),
            dispersal_rate_limited: counter_after(
                metrics.dispersal_rate_limited,
                run_rate_limits(run),
            ),
            ..metrics
        }),
{
    lemma_metrics_after_dispersal(metrics, lens, run);
    law_each_blob_is_counted_once(lens, run);
}

/// The counters tell what a wait did, whatever turns its blobs took: the bytes of the blobs that
/// were finalized, each once, and every answered poll. The other counters stay.
pub proof fn law_confirmation_is_counted(
    metrics: DAMetrics,
    lens: Seq<nat>,
    run: Seq<(int, ConfirmEvent)>,
)
    requires
        is_run(lens.len(), run),
        forall|i: int| 0 <= i < lens.len() ==> (#[trigger] lens[i]) <= u64::MAX,
    ensures
        metrics_after_confirmation(metrics, lens, run) == (DAMetrics {
            confirmed_bytes: counter_after(
                metrics.confirmed_bytes,
                success_bytes::<ConfirmEvent>(
                    lens,
                    phases_after(lens.len(), run),
                    lens.len(),
                ),
            ),
            poll_confirmation_count: counter_after(
                metrics.poll_confirmation_count,
                run_answers(run),
            ),
            ..metrics
        }),
{
    lemma_metrics_after_confirmation(metrics, lens, run);
    law_each_blob_is_counted_once(lens, run);
}

/// The lengths of the blobs of a list.
pub open spec fn lengths(parts: Seq<Seq<u8>>) -> Seq<nat> {
    parts.map_values(|part: Seq<u8>| part.len())
}

/// The length of each blob can be counted.
proof fn lemma_lengths_fit(data: Seq<u8>, size: nat)
    requires
        0 < size <= u64::MAX,
    ensures
        forall|i: int|
            0 <= i < lengths(blobs(data, size)).len() ==> (#[trigger] lengths(
                blobs(data, size),
            )[i]) <= u64::MAX,
{
    let lens = lengths(blobs(data, size));
    assert forall|i: int| 0 <= i < lens.len() implies (#[trigger] lens[i]) <= u64::MAX by {
        law_blob_sizes(data, size, i);
    }
}

/// Where every blob has come where it was to come, all bytes count.
proof fn lemma_all_bytes<E: Event>(parts: Seq<Seq<u8>>, phases: Seq<E::Phase>, k: nat)
    requires
        k <= parts.len(),
        phases.len() == parts.len(),
        forall|i: int| 0 <= i < phases.len() ==> E::is_success(#[trigger] phases[i]),
    ensures
        success_bytes::<E>(lengths(parts), phases, k) == total_len(parts.take(k as int)),
    decreases k,
{
    if k > 0 {
        lemma_all_bytes::<E>(parts, phases, (k - 1) as nat);
        assert(parts.take(k as int).drop_last() =~= parts.take(k - 1));
        assert(E::is_success(phases[k - 1]));
    }
}

/// Once every blob of a block was taken, the block's length has been added to the dispersed
/// bytes.
pub proof fn law_every_dispersed_byte_is_counted(
    data: Seq<u8>,
    size: nat,
    metrics: DAMetrics,
    run: Seq<(int, DisperseEvent)>,
)
    requires
        0 < size <= u64::MAX,
        is_run(blobs(data, size).len(), run),
        forall|i: int|
            0 <= i < blobs(data, size).len() ==> (#[trigger] phases_after(
                blobs(data, size).len(),
                run,
            )[i]) is Accepted,
    ensures
        metrics_after_dispersal(metrics, lengths(blobs(data, size)), run).dispersed_bytes
            == counter_after(metrics.dispersed_bytes, data.len()),
{
    let parts = blobs(data, size);
    lemma_lengths_fit(data, size);
    law_dispersal_is_counted(metrics, lengths(parts), run);
    lemma_phases_len(parts.len(), run);
    lemma_all_bytes::<DisperseEvent>(parts, phases_after(parts.len(), run), parts.len());
    assert(parts.take(parts.len() as int) =~= parts);
    law_blobs_rebuild_the_block(data, size);
}

/// Once every blob of a block is finalized, the block's length has been added to the confirmed
/// bytes.
pub proof fn law_every_confirmed_byte_is_counted(
    data: Seq<u8>,
    size: nat,
    metrics: DAMetrics,
    run: Seq<(int, ConfirmEvent)>,
)
    requires
        0 < size <= u64::MAX,
        is_run(blobs(data, size).len(), run),
        forall|i: int|
            0 <= i < blobs(data, size).len() ==> (#[trigger] phases_after(
                blobs(data, size).len(),
                run,
            )[i]) is Finalized,
    ensures
        metrics_after_confirmation(metrics, lengths(blobs(data, size)), run).confirmed_bytes
            == counter_after(metrics.confirmed_bytes, data.len()),
{
    let parts = blobs(data, size);
    lemma_lengths_fit(data, size);
    law_confirmation_is_counted(metrics, lengths(parts), run);
    lemma_phases_len(parts.len(), run);
    lemma_all_bytes::<ConfirmEvent>(parts, phases_after(parts.len(), run), parts.len());
    assert(parts.take(parts.len() as int) =~= parts);
    law_blobs_rebuild_the_block(data, size);
}

/// The wait for a block is told the request id and the length of each of its blobs, in order.
pub proof fn law_every_blob_is_waited_for(
    dispersal: Dispersal<'_>,
    ids: Seq<(Vec<u8>, usize)>,
    confirmation: Confirmation,
)
    requires
        dispersal.is_finished(),
        gathers(disperse_outcomes(dispersal.blobs@), Ok(ids)),
        confirmation.is_fresh(ids),
    ensures
        confirmation.blobs@.len() == dispersal.blobs@.len(),
        forall|i: int|
            #![trigger confirmation.blobs@[i]]
            0 <= i < dispersal.blobs@.len() ==> {
                &&& dispersal.blobs@[i].phase == DispersePhase::Accepted(
                    confirmation.blobs@[i].request_id,
                )
                &&& confirmation.blobs@[i].data_len == dispersal.blobs@[i].data@.len()
            },
{
    assert forall|i: int|
        #![trigger confirmation.blobs@[i]]
        0 <= i < dispersal.blobs@.len() implies {
        &&& dispersal.blobs@[i].phase == DispersePhase::Accepted(
            confirmation.blobs@[i].request_id,
        )
        &&& confirmation.blobs@[i].data_len == dispersal.blobs@[i].data@.len()
    } by {
        assert(disperse_outcomes(dispersal.blobs@)[i] == Ok::<(Vec<u8>, usize), DAError>(ids[i]));
        assert(dispersal.blobs@[i].phase.is_final());
        assert(dispersal.blobs@[i].data.len() == dispersal.blobs@[i].data@.len());
    }
}

/// The replies of a storage that succeeded all say where their blob is: the block can be asked
/// for.
pub proof fn law_what_is_stored_can_be_asked_for(
    confirmation: Confirmation,
    waits: Seq<Seq<ConfirmEvent>>,
    replies: Seq<BlobStatusReply>,
    requests: Result<Seq<RetrieveBlobRequest>, DAError>,
)
    requires
        waits.len() == confirmation.blobs@.len(),
        forall|i: int| 0 <= i < waits.len() ==> is_life(#[trigger] waits[i]),
        forall|i: int|
            0 <= i < waits.len() ==> confirmation.blobs@[i].phase == phase_after(
                #[trigger] waits[i],
            ),
        confirmation.is_finished(),
        gathers(confirm_outcomes(confirmation.blobs@), Ok(replies)),
        gathers(requests_for(replies), requests),
    ensures
        requests is Ok,
{
    let outcomes = confirm_outcomes(confirmation.blobs@);
    assert forall|i: int| 0 <= i < requests_for(replies).len() implies (
    #[trigger] requests_for(replies)[i]) is Ok by {
        assert(outcomes[i] == Ok::<BlobStatusReply, DAError>(replies[i]));
        law_life_of_a_confirmation(waits[i]);
        assert(confirmation.blobs@[i].phase is Finalized);
    }
    law_gathering_fails_on_an_error(requests_for(replies), requests);
}

/// Each request that goes out for a blob of a block carries all bytes of that blob, and so the
/// requests for all blobs, one after the other, carry the block.
pub proof fn law_requests_carry_the_block(
    da: &ZGDA,
    data: &[u8],
    dispersal: Dispersal<'_>,
    sent: Seq<DisperseAction>,
)
    requires
        da.config.blob_size > 0,
        call_ensures(<ZGDA as DAClient>::disperse_blob, (da, data), dispersal),
        sent.len() == dispersal.blobs@.len(),
        forall|i: int|
            0 <= i < sent.len() ==> (#[trigger] sent[i]).suits(
                DispersePhase::Sending,
                dispersal.blobs@[i].data@,
                *da,
            ),
    ensures
        forall|i: int|
            0 <= i < sent.len() ==> (#[trigger] sent[i]) is Send && sent[i]->Send_0.data@
                == dispersal.blobs@[i].data@,
        sent.map_values(|action: DisperseAction| action->Send_0.data@).flatten() == data@,
{
    law_all_of_a_block_is_dispersed(da, data, dispersal);
    assert forall|i: int| 0 <= i < sent.len() implies (#[trigger] sent[i]) is Send
        && sent[i]->Send_0.data@ == dispersal.blobs@[i].data@ by {
        assert(sent[i].suits(DispersePhase::Sending, dispersal.blobs@[i].data@, *da));
    }
    assert(sent.map_values(|action: DisperseAction| action->Send_0.data@)
        =~= dispersal.blobs@.map_values(|blob: BlobDispersal<'_>| blob.data@));
}

/// Each poll in the wait for a blob names the request id with which the disperser took that blob,
/// all of it.
pub proof fn law_polls_name_what_was_accepted(
    da: ZGDA,
    storage: Storage<'_>,
    confirmation: Confirmation,
    i: int,
    poll: ConfirmAction,
)
    requires
        call_ensures(Storage::confirm, (storage,), Ok(confirmation)),
        forall|j: int|
            0 <= j < storage.dispersal.blobs@.len() ==> (
            #[trigger] storage.dispersal.blobs@[j]).phase is Accepted,
        0 <= i < storage.dispersal.blobs@.len(),
        poll.suits(ConfirmPhase::Polling, confirmation.blobs@[i].request_id@, da),
    ensures
        poll is Poll,
        poll->Poll_0.request_id@ == storage.dispersal.blobs@[i].phase->Accepted_0@,
{
    law_storage_goes_on_to_wait(storage, Ok(confirmation), 0);
    assert(storage.dispersal.blobs@[i].phase is Accepted);
}

/// The place that a reply names.
pub open spec fn place_in(reply: BlobStatusReply) -> BlobPlace {
    BlobPlace {
        storage_root: reply.info->0.blob_header->0.storage_root@,
        epoch: reply.info->0.blob_header->0.epoch,
        quorum_id: reply.info->0.blob_header->0.quorum_id,
    }
}

/// The place that a request names.
pub open spec fn place_asked(request: RetrieveBlobRequest) -> BlobPlace {
    BlobPlace {
        storage_root: request.storage_root@,
        epoch: request.epoch,
        quorum_id: request.quorum_id,
    }
}

/// A block that was stored comes back as it was, from a service that keeps its word: it takes,
/// under the request id that it answers, what the request carries; when it is asked about a
/// request id, the place that it names is where it holds what it took under that id; and when it
/// is asked for a place, it sends what it holds there.
pub proof fn law_what_was_stored_comes_back(
    da: &ZGDA,
    data: &[u8],
    storage: Storage<'_>,
    sent: Seq<DisperseAction>,
    lives: Seq<Seq<DisperseEvent>>,
    stored: Storage<'_>,
    confirmation: Confirmation,
    polls: Seq<ConfirmAction>,
    waits: Seq<Seq<ConfirmEvent>>,
    confirmed: Confirmation,
    replies: Vec<BlobStatusReply>,
    retrieval: Retrieval,
    asked: Seq<RetrieveAction>,
    fetches: Seq<Seq<RetrieveEvent>>,
    retrieved: Retrieval,
    taken: spec_fn(Seq<u8>) -> Seq<u8>,
    held: spec_fn(BlobPlace) -> Seq<u8>,
    block: Result<Vec<u8>, DAError>,
)
    requires
        da.config.blob_size > 0,
        // The block is dispersed: each blob is sent, and in the end taken.
        call_ensures(<ZGDA as DAClient>::store_blob, (da, data), storage),
        sent.len() == storage.dispersal.blobs@.len(),
        lives.len() == storage.dispersal.blobs@.len(),
        stored.dispersal.blobs@.len() == storage.dispersal.blobs@.len(),
        forall|i: int|
            #![trigger stored.dispersal.blobs@[i]]
            0 <= i < stored.dispersal.blobs@.len() ==> {
                &&& sent[i].suits(DispersePhase::Sending, storage.dispersal.blobs@[i].data@, *da)
                &&& is_life(lives[i])
                &&& lives[i].len() > 0
                &&& lives[i].last() is Accepted
                &&& stored.dispersal.blobs@[i].data == storage.dispersal.blobs@[i].data
                &&& stored.dispersal.blobs@[i].phase == phase_after(lives[i])
                &&& taken(lives[i].last()->Accepted_0@) == sent[i]->Send_0.data@
            },
        // Each blob is waited for, until the disperser says that it is finalized, and where it is.
        call_ensures(Storage::confirm, (stored,), Ok(confirmation)),
        polls.len() == confirmation.blobs@.len(),
        waits.len() == confirmation.blobs@.len(),
        confirmed.blobs@.len() == confirmation.blobs@.len(),
        forall|i: int|
            #![trigger confirmed.blobs@[i]]
            0 <= i < confirmed.blobs@.len() ==> {
                &&& polls[i].suits(
                    ConfirmPhase::Polling,
                    confirmation.blobs@[i].request_id@,
                    *da,
                )
                &&& is_life(waits[i])
                &&& waits[i].len() > 0
                &&& waits[i].last() is Status
                &&& waits[i].last()->Status_0.status == Some(BlobStatus::Finalized)
                &&& confirmed.blobs@[i].phase == phase_after(waits[i])
                &&& held(place_in(waits[i].last()->Status_0)) == taken(
                    polls[i]->Poll_0.request_id@,
                )
            },
        call_ensures(Confirmation::finish, (confirmed,), Ok(replies)),
        // Each blob is asked for, and comes.
        call_ensures(<ZGDA as DAClient>::retrieve_blob, (da, replies), Ok(retrieval)),
        asked.len() == retrieval.blobs@.len(),
        fetches.len() == retrieval.blobs@.len(),
        retrieved.blobs@.len() == retrieval.blobs@.len(),
        forall|i: int|
            #![trigger retrieved.blobs@[i]]
            0 <= i < retrieved.blobs@.len() ==> {
                &&& asked[i].suits(
                    RetrievePhase::Requesting,
                    retrieval.blobs@[i].request@,
                    *da,
                )
                &&& is_life(fetches[i])
                &&& fetches[i].len() > 0
                &&& fetches[i].last() is Data
                &&& retrieved.blobs@[i].phase == phase_after(fetches[i])
                &&& fetches[i].last()->Data_0@ == held(place_asked(asked[i]->Send_0))
            },
        call_ensures(Retrieval::finish, (retrieved,), block),
    ensures
        block is Ok,
        block->Ok_0@ == data@,
{
    let count = storage.dispersal.blobs@.len();
    law_all_of_a_block_is_stored(da, data, storage);
    assert forall|i: int| 0 <= i < count implies (#[trigger] stored.dispersal.blobs@[i]).phase
        is Accepted by {
        law_life_of_a_dispersal(lives[i]);
    }
    law_storage_goes_on_to_wait(stored, Ok(confirmation), 0);
    assert forall|i: int| 0 <= i < count implies (#[trigger] confirmed.blobs@[i]).phase
        == ConfirmPhase::Finalized(waits[i].last()->Status_0) && place_in(
        waits[i].last()->Status_0,
    ) == place_in(confirmed.blobs@[i].phase->Finalized_0)
        && waits[i].last()->Status_0.spec_has_header() by {
        law_life_of_a_confirmation(waits[i]);
        let last = waits[i].len() - 1;
        assert(waits[i][last] == waits[i].last());
    }
    law_confirmation_finishes(confirmed, Ok(replies), 0);
    assert forall|i: int| 0 <= i < replies@.len() implies (#[trigger] replies@[i]).info is Some
        && replies@[i].info->0.blob_header is Some by {
        assert(confirmed.blobs@[i].phase == ConfirmPhase::Finalized(replies@[i]));
    }
    law_every_blob_is_retrieved(da, replies, Ok(retrieval), 0);
    assert forall|i: int| 0 <= i < count implies (#[trigger] retrieved.blobs@[i]).phase
        is Retrieved && retrieved.blobs@[i].phase->Retrieved_0@
        == storage.dispersal.blobs@[i].data@ by {
        law_life_of_a_retrieval(fetches[i]);
        law_life_of_a_dispersal(lives[i]);
        assert(stored.dispersal.blobs@[i].phase is Accepted);
        assert(confirmed.blobs@[i].phase == ConfirmPhase::Finalized(replies@[i]));
        assert(confirmation.blobs@[i].request_id == lives[i].last()->Accepted_0);
        assert(place_asked(retrieval.blobs@[i].request) == place_in(replies@[i]));
        assert(retrieval.blobs@[i].request@ == place_in(replies@[i]));
    }
    law_retrieval_finishes(retrieved, block, 0);
    assert(retrieved.blobs@.map_values(|blob: BlobRetrieval| blob.phase->Retrieved_0@)
        =~= storage.dispersal.blobs@.map_values(|blob: BlobDispersal<'_>| blob.data@));
}

} // verus!
