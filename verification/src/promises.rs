//! What each operation gives for what it is given.
//!
//! Here `call_ensures(f, (a, b), r)` says that `r` is something that `f` can give for `a` and
//! `b`, and `call_requires(f, (a, b))` that `f` can be asked for it.

use crate::blob::{blobs, contents, law_blob_sizes, law_blobs_rebuild_the_block, split};
use crate::config::ZGDAConfig;
use crate::confirm::{
    confirm_outcomes, BlobConfirmation, ConfirmAction, ConfirmEvent, ConfirmPhase, Confirmation,
    Storage,
};
use crate::da::{law_requests_per_second, DAClient, ZGDA};
use crate::disperse::{
    blob_data, disperse_outcomes, BlobDispersal, Dispersal, DisperseAction, DisperseEvent,
    DispersePhase,
};
use crate::disperser::{
    is_rate_limit, BlobHeader, BlobStatus, BlobStatusReply, DAError, DisperseBlobRequest,
    RetrieveBlobRequest,
};
use crate::gather::{first_error_at, gather, gathered_view, gathers, law_one_gathered_result};
use crate::metrics::{int_counter, Counter, DAMetrics};
use crate::retrieve::{
    part_data, put_together, requests_for, retrieve_outcomes, BlobRetrieval, Retrieval,
    RetrieveAction, RetrieveEvent, RetrievePhase,
};
use crate::workload::{
    differs_at, first_difference, law_no_difference, random_block, AfterBlock, RunOptions,
};
use vstd::prelude::*;

verus! {

// ---- Cutting a block ----

/// The parts that a block is cut into are, one after the other, the block. Each is as long as is
/// allowed, but for the last, which holds the rest.
pub proof fn law_split(data: &[u8], size: usize, parts: Vec<&[u8]>)
    requires
        size > 0,
        call_ensures(split, (data, size), parts),
    ensures
        parts@.map_values(|part: &[u8]| part@).flatten() == data@,
        forall|i: int| 0 <= i < parts@.len() ==> 0 < (#[trigger] parts@[i])@.len() <= size,
        forall|i: int| 0 <= i < parts@.len() - 1 ==> (#[trigger] parts@[i])@.len() == size,
{
    assert(parts@.map_values(|part: &[u8]| part@) =~= contents(parts@));
    law_blobs_rebuild_the_block(data@, size as nat);
    assert forall|i: int| 0 <= i < parts@.len() implies 0 < (#[trigger] parts@[i])@.len() <= size
        && (i < parts@.len() - 1 ==> parts@[i]@.len() == size) by {
        law_blob_sizes(data@, size as nat, i);
        assert(contents(parts@)[i] == parts@[i]@);
    }
}

/// Any block can be cut, into parts of any size but none.
pub proof fn law_any_block_can_be_split(data: &[u8], size: usize)
    requires
        size > 0,
    ensures
        call_requires(split, (data, size)),
{
}

// ---- Dispersing ----

/// The dispersal of a list of parts has a blob for each part, in order, that holds that part.
pub proof fn law_dispersal_of_parts(parts: Vec<&[u8]>, dispersal: Dispersal<'_>)
    requires
        call_ensures(Dispersal::new, (parts,), dispersal),
    ensures
        dispersal.blobs@.len() == parts@.len(),
        forall|i: int|
            #![trigger dispersal.blobs@[i]]
            0 <= i < parts@.len() ==> {
                &&& dispersal.blobs@[i].data@ == parts@[i]@
                &&& dispersal.blobs@[i].blob_id == i
                &&& dispersal.blobs@[i].phase == DispersePhase::Idle
            },
{
    assert(blob_data(dispersal.blobs@).len() == contents(parts@).len());
    assert forall|i: int|
        #![trigger dispersal.blobs@[i]]
        0 <= i < parts@.len() implies dispersal.blobs@[i].data@ == parts@[i]@ by {
        assert(blob_data(dispersal.blobs@)[i] == contents(parts@)[i]);
    }
}

/// What is said of a dispersal that is to carry a block: its blobs, one after the other, are the
/// block, none is empty or above the limit, only the last can be below it, and nothing has been
/// done yet.
proof fn lemma_fresh_dispersal(data: Seq<u8>, size: usize, dispersal: Dispersal<'_>)
    requires
        size > 0,
        dispersal.is_fresh(blobs(data, size as nat)),
    ensures
        dispersal.blobs@.map_values(|blob: BlobDispersal<'_>| blob.data@).flatten() == data,
        forall|i: int|
            #![trigger dispersal.blobs@[i]]
            0 <= i < dispersal.blobs@.len() ==> {
                &&& 0 < dispersal.blobs@[i].data@.len() <= size
                &&& i < dispersal.blobs@.len() - 1 ==> dispersal.blobs@[i].data@.len() == size
                &&& dispersal.blobs@[i].blob_id == i
                &&& dispersal.blobs@[i].phase == DispersePhase::Idle
            },
{
    law_blobs_rebuild_the_block(data, size as nat);
    assert(dispersal.blobs@.map_values(|blob: BlobDispersal<'_>| blob.data@) =~= blob_data(
        dispersal.blobs@,
    ));
    assert forall|i: int|
        #![trigger dispersal.blobs@[i]]
        0 <= i < dispersal.blobs@.len() implies 0 < dispersal.blobs@[i].data@.len() <= size && (i
        < dispersal.blobs@.len() - 1 ==> dispersal.blobs@[i].data@.len() == size) by {
        assert(blob_data(dispersal.blobs@)[i] == dispersal.blobs@[i].data@);
        assert(blob_data(dispersal.blobs@).len() == dispersal.blobs@.len());
        law_blob_sizes(data, size as nat, i);
    }
}

/// A client that disperses a block hands over all of it: the blobs, one after the other, are the
/// block. None is empty or above the client's limit, and only the last can be below it.
pub proof fn law_all_of_a_block_is_dispersed(
    da: &ZGDA,
    data: &[u8],
    dispersal: Dispersal<'_>,
)
    requires
        da.config.blob_size > 0,
        call_ensures(<ZGDA as DAClient>::disperse_blob, (da, data), dispersal),
    ensures
        dispersal.blobs@.map_values(|blob: BlobDispersal<'_>| blob.data@).flatten() == data@,
        forall|i: int|
            #![trigger dispersal.blobs@[i]]
            0 <= i < dispersal.blobs@.len() ==> {
                &&& 0 < dispersal.blobs@[i].data@.len() <= da.config.blob_size
                &&& i < dispersal.blobs@.len() - 1 ==> dispersal.blobs@[i].data@.len()
                    == da.config.blob_size
                &&& dispersal.blobs@[i].blob_id == i
                &&& dispersal.blobs@[i].phase == DispersePhase::Idle
            },
{
    lemma_fresh_dispersal(data@, da.config.blob_size, dispersal);
}

/// A client that stores a block disperses all of it.
pub proof fn law_all_of_a_block_is_stored(da: &ZGDA, data: &[u8], storage: Storage<'_>)
    requires
        da.config.blob_size > 0,
        call_ensures(<ZGDA as DAClient>::store_blob, (da, data), storage),
    ensures
        storage.dispersal.blobs@.map_values(|blob: BlobDispersal<'_>| blob.data@).flatten()
            == data@,
        forall|i: int|
            #![trigger storage.dispersal.blobs@[i]]
            0 <= i < storage.dispersal.blobs@.len() ==> {
                &&& 0 < storage.dispersal.blobs@[i].data@.len() <= da.config.blob_size
                &&& i < storage.dispersal.blobs@.len() - 1
                    ==> storage.dispersal.blobs@[i].data@.len() == da.config.blob_size
                &&& storage.dispersal.blobs@[i].blob_id == i
                &&& storage.dispersal.blobs@[i].phase == DispersePhase::Idle
            },
{
    lemma_fresh_dispersal(data@, da.config.blob_size, storage.dispersal);
}

/// Any block can be dispersed and stored, by a client that allows a request to carry something.
pub proof fn law_any_block_can_be_dispersed(da: &ZGDA, data: &[u8])
    requires
        da.config.blob_size > 0,
    ensures
        call_requires(<ZGDA as DAClient>::disperse_blob, (da, data)),
        call_requires(<ZGDA as DAClient>::store_blob, (da, data)),
{
}

/// A request carries what it is made for.
pub proof fn law_request_carries_its_data(
    da: &ZGDA,
    data: &[u8],
    request: DisperseBlobRequest,
)
    requires
        call_ensures(ZGDA::disperse_blob_request, (da, data), request),
    ensures
        request.data@ == data@,
{
}

/// A request goes out exactly when there is a connection, or when the rate limit lets a blob
/// through once more, and it carries the whole blob each time.
pub proof fn law_dispersal_sends_the_whole_blob(
    da: &mut ZGDA,
    blob: &mut BlobDispersal<'_>,
    event: DisperseEvent,
    action: DisperseAction,
)
    requires
        call_ensures(ZGDA::disperse_blob_inner, (da, blob, event), action),
    ensures
        action is Send <==> event is Connected || event is RetryReady,
        action is Send ==> action->Send_0.data@ == old(blob).data@,
        final(blob).data@ == old(blob).data@,
        final(blob).blob_id == old(blob).blob_id,
{
}

/// A blob first gets a place, then passes the rate limit, then gets a connection to the address
/// of the settings. After a refusal, whatever its reason, it waits as long as the settings say,
/// and passes the rate limit again. Only a blob that was taken or has no connection is done with.
pub proof fn law_dispersal_keeps_its_order(
    da: &mut ZGDA,
    blob: &mut BlobDispersal<'_>,
    event: DisperseEvent,
    action: DisperseAction,
)
    requires
        call_ensures(ZGDA::disperse_blob_inner, (da, blob, event), action),
    ensures
        action is AcquirePermit <==> event is Start,
        action is AwaitRate <==> event is PermitGranted,
        action is Connect <==> event is RateReady,
        action is Connect ==> action->Connect_0@ == old(da).config.url@,
        action is Sleep <==> event is Refused,
        action is Sleep ==> action->Sleep_0 == old(da).config.disperser_retry_delay_ms,
        action is AwaitRetryRate <==> event is Slept,
        action is Finish <==> event is Accepted || event is ConnectFailed,
{
}

/// A dispersal comes to what was heard: the request id with which the disperser took the blob, or
/// what the transport said. It comes to nothing before.
pub proof fn law_dispersal_comes_to_what_was_heard(
    da: &mut ZGDA,
    blob: &mut BlobDispersal<'_>,
    event: DisperseEvent,
    action: DisperseAction,
)
    requires
        call_ensures(ZGDA::disperse_blob_inner, (da, blob, event), action),
    ensures
        forall|id: Vec<u8>|
            event == DisperseEvent::Accepted(id) <==> final(blob).phase
                == DispersePhase::Accepted(id),
        forall|text: String|
            event == DisperseEvent::ConnectFailed(text) <==> final(blob).phase
                == DispersePhase::Failed(DAError::Connect(text)),
        final(blob).phase is Failed ==> event is ConnectFailed,
        final(blob).phase != DispersePhase::Idle,
{
}

/// A dispersal counts the length of a blob when the blob is taken, and one when it is refused for
/// an exhausted resource. It counts nothing else, and changes nothing else of the client.
pub proof fn law_dispersal_counts(
    da: &mut ZGDA,
    blob: &mut BlobDispersal<'_>,
    event: DisperseEvent,
    action: DisperseAction,
)
    requires
        call_ensures(ZGDA::disperse_blob_inner, (da, blob, event), action),
    ensures
        final(da).metrics.dispersed_bytes.value == (old(da).metrics.dispersed_bytes.value
            + if event is Accepted {
            old(blob).data@.len() as int
        } else {
            0
        }) % 0x1_0000_0000_0000_0000,
        final(da).metrics.dispersal_rate_limited.value == (old(
            da,
        ).metrics.dispersal_rate_limited.value + if event == DisperseEvent::Refused(8) {
            1int
        } else {
            0
        }) % 0x1_0000_0000_0000_0000,
        final(da).metrics.dispersed_bytes.name == old(da).metrics.dispersed_bytes.name,
        final(da).metrics.dispersed_bytes.help == old(da).metrics.dispersed_bytes.help,
        final(da).metrics.dispersal_rate_limited.name == old(
            da,
        ).metrics.dispersal_rate_limited.name,
        final(da).metrics.dispersal_rate_limited.help == old(
            da,
        ).metrics.dispersal_rate_limited.help,
        final(da).metrics.confirmed_bytes == old(da).metrics.confirmed_bytes,
        final(da).metrics.poll_confirmation_count == old(da).metrics.poll_confirmation_count,
        final(da).config == old(da).config,
        final(da).disperser_rate == old(da).disperser_rate,
        final(da).disperser_permits == old(da).disperser_permits,
{
    assert(old(blob).data.len() == old(blob).data@.len());
}

/// A blob to which nothing has happened can be started.
pub proof fn law_dispersal_can_start(da: &mut ZGDA, blob: &mut BlobDispersal<'_>)
    requires
        old(blob).phase == DispersePhase::Idle,
    ensures
        call_requires(ZGDA::disperse_blob_inner, (da, blob, DisperseEvent::Start)),
{
}

/// Whatever comes of an action can be told to the client next: any request id, any status code
/// of a refusal, and any text of the transport.
pub proof fn law_dispersal_goes_on(
    da: &mut ZGDA,
    blob: &mut BlobDispersal<'_>,
    event: DisperseEvent,
    action: DisperseAction,
    next_da: &mut ZGDA,
    next_blob: &mut BlobDispersal<'_>,
    id: Vec<u8>,
    code: i32,
    text: String,
)
    requires
        call_ensures(ZGDA::disperse_blob_inner, (da, blob, event), action),
        *old(next_blob) == *final(blob),
    ensures
        action is AcquirePermit ==> call_requires(
            ZGDA::disperse_blob_inner,
            (next_da, next_blob, DisperseEvent::PermitGranted),
        ),
        action is AwaitRate ==> call_requires(
            ZGDA::disperse_blob_inner,
            (next_da, next_blob, DisperseEvent::RateReady),
        ),
        action is Connect ==> call_requires(
            ZGDA::disperse_blob_inner,
            (next_da, next_blob, DisperseEvent::Connected),
        ),
        action is Connect ==> call_requires(
            ZGDA::disperse_blob_inner,
            (next_da, next_blob, DisperseEvent::ConnectFailed(text)),
        ),
        action is Send ==> call_requires(
            ZGDA::disperse_blob_inner,
            (next_da, next_blob, DisperseEvent::Accepted(id)),
        ),
        action is Send ==> call_requires(
            ZGDA::disperse_blob_inner,
            (next_da, next_blob, DisperseEvent::Refused(code)),
        ),
        action is Sleep ==> call_requires(
            ZGDA::disperse_blob_inner,
            (next_da, next_blob, DisperseEvent::Slept),
        ),
        action is AwaitRetryRate ==> call_requires(
            ZGDA::disperse_blob_inner,
            (next_da, next_blob, DisperseEvent::RetryReady),
        ),
{
}

/// A dispersal of which every blob was taken gives the request id and the length of each blob,
/// in order. Where a blob has no connection, and all before it were taken, it gives what the
/// transport said of that one.
pub proof fn law_dispersal_finishes(
    dispersal: Dispersal<'_>,
    ids: Result<Vec<(Vec<u8>, usize)>, DAError>,
    k: int,
)
    requires
        call_ensures(Dispersal::finish, (dispersal,), ids),
    ensures
        (forall|i: int|
            0 <= i < dispersal.blobs@.len() ==> (#[trigger] dispersal.blobs@[i]).phase
                is Accepted) ==> {
            &&& ids is Ok
            &&& ids->Ok_0@.len() == dispersal.blobs@.len()
            &&& forall|i: int|
                #![trigger dispersal.blobs@[i]]
                0 <= i < dispersal.blobs@.len() ==> {
                    &&& dispersal.blobs@[i].phase == DispersePhase::Accepted(ids->Ok_0@[i].0)
                    &&& ids->Ok_0@[i].1 == dispersal.blobs@[i].data@.len()
                }
        },
        0 <= k < dispersal.blobs@.len() && dispersal.blobs@[k].phase is Failed && (forall|i: int|
            0 <= i < k ==> (#[trigger] dispersal.blobs@[i]).phase is Accepted) ==> {
            &&& ids is Err
            &&& dispersal.blobs@[k].phase == DispersePhase::Failed(ids->Err_0)
        },
{
    lemma_dispersal_outcomes(dispersal, gathered_view(ids), k);
}

/// What the outcomes of a dispersal come to.
proof fn lemma_dispersal_outcomes(
    dispersal: Dispersal<'_>,
    ids: Result<Seq<(Vec<u8>, usize)>, DAError>,
    k: int,
)
    requires
        gathers(disperse_outcomes(dispersal.blobs@), ids),
    ensures
        (forall|i: int|
            0 <= i < dispersal.blobs@.len() ==> (#[trigger] dispersal.blobs@[i]).phase
                is Accepted) ==> {
            &&& ids is Ok
            &&& ids->Ok_0.len() == dispersal.blobs@.len()
            &&& forall|i: int|
                #![trigger dispersal.blobs@[i]]
                0 <= i < dispersal.blobs@.len() ==> {
                    &&& dispersal.blobs@[i].phase == DispersePhase::Accepted(ids->Ok_0[i].0)
                    &&& ids->Ok_0[i].1 == dispersal.blobs@[i].data@.len()
                }
        },
        0 <= k < dispersal.blobs@.len() && dispersal.blobs@[k].phase is Failed && (forall|i: int|
            0 <= i < k ==> (#[trigger] dispersal.blobs@[i]).phase is Accepted) ==> {
            &&& ids is Err
            &&& dispersal.blobs@[k].phase == DispersePhase::Failed(ids->Err_0)
        },
{
    let outcomes = disperse_outcomes(dispersal.blobs@);
    if forall|i: int|
        0 <= i < dispersal.blobs@.len() ==> (#[trigger] dispersal.blobs@[i]).phase is Accepted {
        if ids is Err {
            let j = choose|j: int| #[trigger]
                first_error_at(outcomes, j) && outcomes[j] == Err::<(Vec<u8>, usize), DAError>(
                    ids->Err_0,
                );
            assert(dispersal.blobs@[j].phase is Accepted);
            assert(outcomes[j] is Ok);
        }
        assert forall|i: int|
            #![trigger dispersal.blobs@[i]]
            0 <= i < dispersal.blobs@.len() implies dispersal.blobs@[i].phase
            == DispersePhase::Accepted(ids->Ok_0[i].0) && ids->Ok_0[i].1
            == dispersal.blobs@[i].data@.len() by {
            assert(outcomes[i] == Ok::<(Vec<u8>, usize), DAError>(ids->Ok_0[i]));
            assert(dispersal.blobs@[i].data.len() == dispersal.blobs@[i].data@.len());
        }
    }
    if 0 <= k < dispersal.blobs@.len() && dispersal.blobs@[k].phase is Failed && (forall|i: int|
        0 <= i < k ==> (#[trigger] dispersal.blobs@[i]).phase is Accepted) {
        assert forall|i: int| 0 <= i < k implies (#[trigger] outcomes[i]) is Ok by {
            assert(dispersal.blobs@[i].phase is Accepted);
        }
        assert(first_error_at(outcomes, k));
        assert(gathers(
            outcomes,
            Err::<Seq<(Vec<u8>, usize)>, DAError>(dispersal.blobs@[k].phase->Failed_0),
        ));
        law_one_gathered_result(
            outcomes,
            ids,
            Err::<Seq<(Vec<u8>, usize)>, DAError>(dispersal.blobs@[k].phase->Failed_0),
        );
    }
}

/// A dispersal can be finished once every blob was taken or has no connection.
pub proof fn law_dispersal_can_finish(dispersal: Dispersal<'_>)
    requires
        forall|i: int|
            0 <= i < dispersal.blobs@.len() ==> (#[trigger] dispersal.blobs@[i]).phase is Accepted
                || dispersal.blobs@[i].phase is Failed,
    ensures
        call_requires(Dispersal::finish, (dispersal,)),
        call_requires(Storage::confirm, (Storage { dispersal },)),
{
}

// ---- Waiting ----

/// The wait for a list of blobs has one wait for each, in order, with its request id and length.
pub proof fn law_confirmation_of_ids(
    ids: Vec<(Vec<u8>, usize)>,
    confirmation: Confirmation,
)
    requires
        call_ensures(Confirmation::new, (ids,), confirmation),
    ensures
        confirmation.blobs@.len() == ids@.len(),
        forall|i: int|
            #![trigger confirmation.blobs@[i]]
            0 <= i < ids@.len() ==> {
                &&& confirmation.blobs@[i].request_id == ids@[i].0
                &&& confirmation.blobs@[i].data_len == ids@[i].1
                &&& confirmation.blobs@[i].blob_id == i
                &&& confirmation.blobs@[i].phase == ConfirmPhase::Idle
            },
{
    assert(confirmation.blobs.len() == confirmation.blobs@.len());
}

/// A storage of which every blob was taken goes on to wait for each blob, with the request id
/// with which the disperser took it and its length. Where a blob has no connection, and all
/// before it were taken, the storage fails with what the transport said of that one.
pub proof fn law_storage_goes_on_to_wait(
    storage: Storage<'_>,
    confirmation: Result<Confirmation, DAError>,
    k: int,
)
    requires
        call_ensures(Storage::confirm, (storage,), confirmation),
    ensures
        (forall|i: int|
            0 <= i < storage.dispersal.blobs@.len() ==> (
            #[trigger] storage.dispersal.blobs@[i]).phase is Accepted) ==> {
            &&& confirmation is Ok
            &&& confirmation->Ok_0.blobs@.len() == storage.dispersal.blobs@.len()
            &&& forall|i: int|
                #![trigger storage.dispersal.blobs@[i]]
                #![trigger confirmation->Ok_0.blobs@[i]]
                0 <= i < storage.dispersal.blobs@.len() ==> {
                    &&& storage.dispersal.blobs@[i].phase == DispersePhase::Accepted(
                        confirmation->Ok_0.blobs@[i].request_id,
                    )
                    &&& confirmation->Ok_0.blobs@[i].data_len
                        == storage.dispersal.blobs@[i].data@.len()
                    &&& confirmation->Ok_0.blobs@[i].blob_id == i
                    &&& confirmation->Ok_0.blobs@[i].phase == ConfirmPhase::Idle
                }
        },
        0 <= k < storage.dispersal.blobs@.len() && storage.dispersal.blobs@[k].phase is Failed && (
        forall|i: int|
            0 <= i < k ==> (#[trigger] storage.dispersal.blobs@[i]).phase is Accepted) ==> {
            &&& confirmation is Err
            &&& storage.dispersal.blobs@[k].phase == DispersePhase::Failed(confirmation->Err_0)
        },
{
    let outcomes = disperse_outcomes(storage.dispersal.blobs@);
    match confirmation {
        Ok(waits) => {
            let ids = choose|ids: Seq<(Vec<u8>, usize)>| #[trigger]
                gathers(outcomes, Ok(ids)) && waits.is_fresh(ids);
            lemma_dispersal_outcomes(storage.dispersal, Ok(ids), k);
            assert(waits.blobs.len() == waits.blobs@.len());
        },
        Err(error) => {
            lemma_dispersal_outcomes(storage.dispersal, Err(error), k);
        },
    }
}

/// The disperser is asked exactly when there is a connection, or when a wait is over, and it is
/// asked about the whole request id each time.
pub proof fn law_poll_names_the_whole_request_id(
    da: &mut ZGDA,
    blob: &mut BlobConfirmation,
    event: ConfirmEvent,
    action: ConfirmAction,
)
    requires
        call_ensures(ZGDA::wait_for_blob_confirmation, (da, blob, event), action),
    ensures
        action is Poll <==> event is Connected || event is Slept,
        action is Poll ==> action->Poll_0.request_id@ == old(blob).request_id@,
        final(blob).request_id == old(blob).request_id,
        final(blob).data_len == old(blob).data_len,
        final(blob).blob_id == old(blob).blob_id,
{
}

/// A wait connects to the address of the settings. After each answer that is not the last, it
/// waits as long as the settings say. It ends when the blob is finalized, and with no other
/// answer.
pub proof fn law_wait_keeps_its_order(
    da: &mut ZGDA,
    blob: &mut BlobConfirmation,
    event: ConfirmEvent,
    action: ConfirmAction,
)
    requires
        call_ensures(ZGDA::wait_for_blob_confirmation, (da, blob, event), action),
    ensures
        action is Connect <==> event is Start,
        action is Connect ==> action->Connect_0@ == old(da).config.url@,
        action is Sleep <==> event is Status && event->Status_0.status != Some(
            BlobStatus::Finalized,
        ),
        action is Sleep ==> action->Sleep_0 == old(da).config.status_retry_delay_ms,
        action is Finish <==> event is ConnectFailed || (event is Status
            && event->Status_0.status == Some(BlobStatus::Finalized)),
{
}

/// A wait comes to what was heard: the reply that the blob is finalized, or what the transport
/// said. It comes to nothing before.
pub proof fn law_wait_comes_to_what_was_heard(
    da: &mut ZGDA,
    blob: &mut BlobConfirmation,
    event: ConfirmEvent,
    action: ConfirmAction,
)
    requires
        call_ensures(ZGDA::wait_for_blob_confirmation, (da, blob, event), action),
    ensures
        forall|reply: BlobStatusReply|
            event == ConfirmEvent::Status(reply) && reply.status == Some(BlobStatus::Finalized)
                <==> final(blob).phase == ConfirmPhase::Finalized(reply) && reply.status == Some(
                BlobStatus::Finalized,
            ),
        final(blob).phase is Finalized ==> final(blob).phase->Finalized_0.status == Some(
            BlobStatus::Finalized,
        ),
        forall|text: String|
            event == ConfirmEvent::ConnectFailed(text) <==> final(blob).phase
                == ConfirmPhase::Failed(DAError::Connect(text)),
        final(blob).phase is Failed ==> event is ConnectFailed,
        final(blob).phase != ConfirmPhase::Idle,
{
}

/// A wait counts one for each answer, and the length of a blob when the blob is finalized. It
/// counts nothing else, and changes nothing else of the client.
pub proof fn law_wait_counts(
    da: &mut ZGDA,
    blob: &mut BlobConfirmation,
    event: ConfirmEvent,
    action: ConfirmAction,
)
    requires
        call_ensures(ZGDA::wait_for_blob_confirmation, (da, blob, event), action),
    ensures
        final(da).metrics.poll_confirmation_count.value == (old(
            da,
        ).metrics.poll_confirmation_count.value + if event is Status {
            1int
        } else {
            0
        }) % 0x1_0000_0000_0000_0000,
        final(da).metrics.confirmed_bytes.value == (old(da).metrics.confirmed_bytes.value
            + if event is Status && event->Status_0.status == Some(BlobStatus::Finalized) {
            old(blob).data_len as int
        } else {
            0
        }) % 0x1_0000_0000_0000_0000,
        final(da).metrics.poll_confirmation_count.name == old(
            da,
        ).metrics.poll_confirmation_count.name,
        final(da).metrics.poll_confirmation_count.help == old(
            da,
        ).metrics.poll_confirmation_count.help,
        final(da).metrics.confirmed_bytes.name == old(da).metrics.confirmed_bytes.name,
        final(da).metrics.confirmed_bytes.help == old(da).metrics.confirmed_bytes.help,
        final(da).metrics.dispersed_bytes == old(da).metrics.dispersed_bytes,
        final(da).metrics.dispersal_rate_limited == old(da).metrics.dispersal_rate_limited,
        final(da).config == old(da).config,
        final(da).disperser_rate == old(da).disperser_rate,
        final(da).disperser_permits == old(da).disperser_permits,
{
}

/// A wait in which nothing has happened can be started.
pub proof fn law_wait_can_start(da: &mut ZGDA, blob: &mut BlobConfirmation)
    requires
        old(blob).phase == ConfirmPhase::Idle,
    ensures
        call_requires(ZGDA::wait_for_blob_confirmation, (da, blob, ConfirmEvent::Start)),
{
}

/// Whatever comes of an action can be told to the client next: any text of the transport, and any
/// reply, as long as one that the blob is finalized says where the blob is.
pub proof fn law_wait_goes_on(
    da: &mut ZGDA,
    blob: &mut BlobConfirmation,
    event: ConfirmEvent,
    action: ConfirmAction,
    next_da: &mut ZGDA,
    next_blob: &mut BlobConfirmation,
    reply: BlobStatusReply,
    text: String,
)
    requires
        call_ensures(ZGDA::wait_for_blob_confirmation, (da, blob, event), action),
        *old(next_blob) == *final(blob),
        reply.status == Some(BlobStatus::Finalized) ==> reply.info is Some
            && reply.info->0.blob_header is Some,
    ensures
        action is Connect ==> call_requires(
            ZGDA::wait_for_blob_confirmation,
            (next_da, next_blob, ConfirmEvent::Connected),
        ),
        action is Connect ==> call_requires(
            ZGDA::wait_for_blob_confirmation,
            (next_da, next_blob, ConfirmEvent::ConnectFailed(text)),
        ),
        action is Poll ==> call_requires(
            ZGDA::wait_for_blob_confirmation,
            (next_da, next_blob, ConfirmEvent::Status(reply)),
        ),
        action is Sleep ==> call_requires(
            ZGDA::wait_for_blob_confirmation,
            (next_da, next_blob, ConfirmEvent::Slept),
        ),
{
}

/// A wait at the end of which every blob is finalized gives the last reply for each, in order.
/// Where a blob has no connection, and all before it are finalized, it gives what the transport
/// said of that one.
pub proof fn law_confirmation_finishes(
    confirmation: Confirmation,
    replies: Result<Vec<BlobStatusReply>, DAError>,
    k: int,
)
    requires
        call_ensures(Confirmation::finish, (confirmation,), replies),
    ensures
        (forall|i: int|
            0 <= i < confirmation.blobs@.len() ==> (#[trigger] confirmation.blobs@[i]).phase
                is Finalized) ==> {
            &&& replies is Ok
            &&& replies->Ok_0@.len() == confirmation.blobs@.len()
            &&& forall|i: int|
                #![trigger confirmation.blobs@[i]]
                #![trigger replies->Ok_0@[i]]
                0 <= i < confirmation.blobs@.len() ==> confirmation.blobs@[i].phase
                    == ConfirmPhase::Finalized(replies->Ok_0@[i])
        },
        0 <= k < confirmation.blobs@.len() && confirmation.blobs@[k].phase is Failed && (
        forall|i: int|
            0 <= i < k ==> (#[trigger] confirmation.blobs@[i]).phase is Finalized) ==> {
            &&& replies is Err
            &&& confirmation.blobs@[k].phase == ConfirmPhase::Failed(replies->Err_0)
        },
{
    let outcomes = confirm_outcomes(confirmation.blobs@);
    if forall|i: int|
        0 <= i < confirmation.blobs@.len() ==> (#[trigger] confirmation.blobs@[i]).phase
            is Finalized {
        if replies is Err {
            let j = choose|j: int| #[trigger]
                first_error_at(outcomes, j) && outcomes[j] == Err::<BlobStatusReply, DAError>(
                    replies->Err_0,
                );
            assert(confirmation.blobs@[j].phase is Finalized);
            assert(outcomes[j] is Ok);
        }
        assert forall|i: int|
            #![trigger confirmation.blobs@[i]]
            #![trigger replies->Ok_0@[i]]
            0 <= i < confirmation.blobs@.len() implies confirmation.blobs@[i].phase
            == ConfirmPhase::Finalized(replies->Ok_0@[i]) by {
            assert(confirmation.blobs@[i].phase is Finalized);
            assert(outcomes[i] == Ok::<BlobStatusReply, DAError>(replies->Ok_0@[i]));
        }
    }
    if 0 <= k < confirmation.blobs@.len() && confirmation.blobs@[k].phase is Failed && (
    forall|i: int| 0 <= i < k ==> (#[trigger] confirmation.blobs@[i]).phase is Finalized) {
        assert forall|i: int| 0 <= i < k implies (#[trigger] outcomes[i]) is Ok by {
            assert(confirmation.blobs@[i].phase is Finalized);
        }
        assert(first_error_at(outcomes, k));
        let failed = Err::<Seq<BlobStatusReply>, DAError>(confirmation.blobs@[k].phase->Failed_0);
        assert(gathers(outcomes, failed));
        law_one_gathered_result(outcomes, gathered_view(replies), failed);
    }
}

/// A wait can be finished once every blob is finalized or has no connection.
pub proof fn law_confirmation_can_finish(confirmation: Confirmation)
    requires
        forall|i: int|
            0 <= i < confirmation.blobs@.len() ==> (#[trigger] confirmation.blobs@[i]).phase
                is Finalized || confirmation.blobs@[i].phase is Failed,
    ensures
        call_requires(Confirmation::finish, (confirmation,)),
{
}

// ---- Getting a block back ----

/// A reply that says where its blob is gives a request for exactly that place. One that does not
/// gives an error that tells what it lacks.
pub proof fn law_request_names_the_place_of_the_reply(
    reply: BlobStatusReply,
    request: Result<RetrieveBlobRequest, DAError>,
)
    requires
        call_ensures(BlobStatusReply::retrieve_request, (reply,), request),
    ensures
        reply.info is None ==> request == Err::<RetrieveBlobRequest, DAError>(
            DAError::NoBlobInfo,
        ),
        reply.info is Some && reply.info->0.blob_header is None ==> request == Err::<
            RetrieveBlobRequest,
            DAError,
        >(DAError::NoBlobHeader),
        reply.info is Some && reply.info->0.blob_header is Some ==> {
            &&& request is Ok
            &&& request->Ok_0.storage_root == reply.info->0.blob_header->0.storage_root
            &&& request->Ok_0.epoch == reply.info->0.blob_header->0.epoch
            &&& request->Ok_0.quorum_id == reply.info->0.blob_header->0.quorum_id
        },
{
}

/// A request that is made again names the same place.
pub proof fn law_request_again(request: &RetrieveBlobRequest, again: RetrieveBlobRequest)
    requires
        call_ensures(RetrieveBlobRequest::again, (request,), again),
    ensures
        again.storage_root@ == request.storage_root@,
        again.epoch == request.epoch,
        again.quorum_id == request.quorum_id,
{
}

/// What is said of a retrieval that is to bring the blobs of these replies.
spec fn brings_the_blobs_of(
    retrieval: Retrieval,
    replies: Seq<BlobStatusReply>,
) -> bool {
    &&& retrieval.blobs@.len() == replies.len()
    &&& forall|i: int|
        #![trigger retrieval.blobs@[i]]
        #![trigger replies[i]]
        0 <= i < replies.len() ==> {
            &&& replies[i].info->0.blob_header == Some(
                BlobHeader {
                    storage_root: retrieval.blobs@[i].request.storage_root,
                    epoch: retrieval.blobs@[i].request.epoch,
                    quorum_id: retrieval.blobs@[i].request.quorum_id,
                },
            )
            &&& retrieval.blobs@[i].phase == RetrievePhase::Idle
        }
}

/// What the requests for the blobs of replies come to.
proof fn lemma_retrieval_of_replies(
    replies: Seq<BlobStatusReply>,
    retrieval: Result<Retrieval, DAError>,
    k: int,
)
    requires
        match retrieval {
            Ok(retrieval) => exists|requests: Seq<RetrieveBlobRequest>| #[trigger]
                gathers(requests_for(replies), Ok(requests)) && retrieval.is_fresh(requests),
            Err(error) => gathers(
                requests_for(replies),
                Err::<Seq<RetrieveBlobRequest>, DAError>(error),
            ),
        },
    ensures
        (forall|i: int|
            0 <= i < replies.len() ==> (#[trigger] replies[i]).info is Some
                && replies[i].info->0.blob_header is Some) ==> retrieval is Ok
            && brings_the_blobs_of(retrieval->Ok_0, replies),
        0 <= k < replies.len() && (forall|i: int|
            0 <= i < k ==> (#[trigger] replies[i]).info is Some
                && replies[i].info->0.blob_header is Some) ==> {
            &&& replies[k].info is None ==> retrieval == Err::<Retrieval, DAError>(
                DAError::NoBlobInfo,
            )
            &&& replies[k].info is Some && replies[k].info->0.blob_header is None ==> retrieval
                == Err::<Retrieval, DAError>(DAError::NoBlobHeader)
        },
{
    let wanted = requests_for(replies);
    let gathered: Result<Seq<RetrieveBlobRequest>, DAError> = match retrieval {
        Ok(retrieval) => Ok(
            choose|requests: Seq<RetrieveBlobRequest>| #[trigger]
                gathers(wanted, Ok(requests)) && retrieval.is_fresh(requests),
        ),
        Err(error) => Err(error),
    };
    assert(gathers(wanted, gathered));
    if forall|i: int|
        0 <= i < replies.len() ==> (#[trigger] replies[i]).info is Some
            && replies[i].info->0.blob_header is Some {
        if gathered is Err {
            let j = choose|j: int| #[trigger]
                first_error_at(wanted, j) && wanted[j] == Err::<RetrieveBlobRequest, DAError>(
                    gathered->Err_0,
                );
            assert(replies[j].info is Some);
            assert(wanted[j] is Ok);
        }
        assert forall|i: int|
            #![trigger retrieval->Ok_0.blobs@[i]]
            #![trigger replies[i]]
            0 <= i < replies.len() implies replies[i].info->0.blob_header == Some(
            BlobHeader {
                storage_root: retrieval->Ok_0.blobs@[i].request.storage_root,
                epoch: retrieval->Ok_0.blobs@[i].request.epoch,
                quorum_id: retrieval->Ok_0.blobs@[i].request.quorum_id,
            },
        ) && retrieval->Ok_0.blobs@[i].phase == RetrievePhase::Idle by {
            assert(replies[i].info is Some);
            assert(wanted[i] == Ok::<RetrieveBlobRequest, DAError>(gathered->Ok_0[i]));
            assert(retrieval->Ok_0.blobs@[i].request == gathered->Ok_0[i]);
        }
    }
    if 0 <= k < replies.len() && (forall|i: int|
        0 <= i < k ==> (#[trigger] replies[i]).info is Some
            && replies[i].info->0.blob_header is Some) && (replies[k].info is None
        || replies[k].info->0.blob_header is None) {
        assert forall|i: int| 0 <= i < k implies (#[trigger] wanted[i]) is Ok by {
            assert(replies[i].info is Some);
        }
        assert(first_error_at(wanted, k));
        let failed = Err::<Seq<RetrieveBlobRequest>, DAError>(wanted[k]->Err_0);
        assert(gathers(wanted, failed));
        law_one_gathered_result(wanted, gathered, failed);
    }
}

/// A retrieval by replies that all say where their blob is asks for each blob, in order, at the
/// place that its reply names. Where a reply lacks the place, and none before it does, there is
/// no retrieval, and the error tells what that reply lacks.
pub proof fn law_every_blob_is_retrieved(
    da: &ZGDA,
    replies: Vec<BlobStatusReply>,
    retrieval: Result<Retrieval, DAError>,
    k: int,
)
    requires
        call_ensures(<ZGDA as DAClient>::retrieve_blob, (da, replies), retrieval)
            || call_ensures(Retrieval::new, (replies,), retrieval),
    ensures
        (forall|i: int|
            0 <= i < replies@.len() ==> (#[trigger] replies@[i]).info is Some
                && replies@[i].info->0.blob_header is Some) ==> {
            &&& retrieval is Ok
            &&& retrieval->Ok_0.blobs@.len() == replies@.len()
            &&& forall|i: int|
                #![trigger retrieval->Ok_0.blobs@[i]]
                0 <= i < replies@.len() ==> {
                    &&& retrieval->Ok_0.blobs@[i].request.storage_root
                        == replies@[i].info->0.blob_header->0.storage_root
                    &&& retrieval->Ok_0.blobs@[i].request.epoch
                        == replies@[i].info->0.blob_header->0.epoch
                    &&& retrieval->Ok_0.blobs@[i].request.quorum_id
                        == replies@[i].info->0.blob_header->0.quorum_id
                    &&& retrieval->Ok_0.blobs@[i].phase == RetrievePhase::Idle
                }
        },
        0 <= k < replies@.len() && (forall|i: int|
            0 <= i < k ==> (#[trigger] replies@[i]).info is Some
                && replies@[i].info->0.blob_header is Some) ==> {
            &&& replies@[k].info is None ==> retrieval == Err::<Retrieval, DAError>(
                DAError::NoBlobInfo,
            )
            &&& replies@[k].info is Some && replies@[k].info->0.blob_header is None ==> retrieval
                == Err::<Retrieval, DAError>(DAError::NoBlobHeader)
        },
{
    lemma_retrieval_of_replies(replies@, retrieval, k);
}

/// The disperser is asked for a blob exactly when there is a connection, and it is asked for the
/// place of the blob, which stays as it is.
pub proof fn law_retrieval_asks_for_the_place(
    da: &ZGDA,
    blob: &mut BlobRetrieval,
    event: RetrieveEvent,
    action: RetrieveAction,
)
    requires
        call_ensures(ZGDA::retrieve_blob_inner, (da, blob, event), action),
    ensures
        action is Send <==> event is Connected,
        action is Send ==> {
            &&& action->Send_0.storage_root@ == old(blob).request.storage_root@
            &&& action->Send_0.epoch == old(blob).request.epoch
            &&& action->Send_0.quorum_id == old(blob).request.quorum_id
        },
        final(blob).request == old(blob).request,
        action is Connect <==> event is Start,
        action is Connect ==> action->Connect_0@ == da.config.url@,
        action is Finish <==> event is Data || event is Refused || event is ConnectFailed,
{
}

/// A retrieval comes to what was heard: the data that came, whatever it is, or what the transport
/// or the disperser said. It comes to nothing before.
pub proof fn law_retrieval_comes_to_what_was_heard(
    da: &ZGDA,
    blob: &mut BlobRetrieval,
    event: RetrieveEvent,
    action: RetrieveAction,
)
    requires
        call_ensures(ZGDA::retrieve_blob_inner, (da, blob, event), action),
    ensures
        forall|data: Vec<u8>|
            event == RetrieveEvent::Data(data) <==> final(blob).phase
                == RetrievePhase::Retrieved(data),
        forall|text: String|
            event == RetrieveEvent::ConnectFailed(text) <==> final(blob).phase
                == RetrievePhase::Failed(DAError::Connect(text)),
        forall|text: String|
            event == RetrieveEvent::Refused(text) <==> final(blob).phase
                == RetrievePhase::Failed(DAError::Retrieve(text)),
        final(blob).phase is Failed ==> event is ConnectFailed || event is Refused,
        final(blob).phase != RetrievePhase::Idle,
{
}

/// A retrieval in which nothing has happened can be started.
pub proof fn law_retrieval_can_start(da: &ZGDA, blob: &mut BlobRetrieval)
    requires
        old(blob).phase == RetrievePhase::Idle,
    ensures
        call_requires(ZGDA::retrieve_blob_inner, (da, blob, RetrieveEvent::Start)),
{
}

/// Whatever comes of an action can be told to the client next: any data, and any text of the
/// transport or the disperser.
pub proof fn law_retrieval_goes_on(
    da: &ZGDA,
    blob: &mut BlobRetrieval,
    event: RetrieveEvent,
    action: RetrieveAction,
    next_blob: &mut BlobRetrieval,
    data: Vec<u8>,
    text: String,
)
    requires
        call_ensures(ZGDA::retrieve_blob_inner, (da, blob, event), action),
        *old(next_blob) == *final(blob),
    ensures
        action is Connect ==> call_requires(
            ZGDA::retrieve_blob_inner,
            (da, next_blob, RetrieveEvent::Connected),
        ),
        action is Connect ==> call_requires(
            ZGDA::retrieve_blob_inner,
            (da, next_blob, RetrieveEvent::ConnectFailed(text)),
        ),
        action is Send ==> call_requires(
            ZGDA::retrieve_blob_inner,
            (da, next_blob, RetrieveEvent::Data(data)),
        ),
        action is Send ==> call_requires(
            ZGDA::retrieve_blob_inner,
            (da, next_blob, RetrieveEvent::Refused(text)),
        ),
{
}

/// Parts that are put together are the parts, one after the other.
pub proof fn law_put_together(parts: Vec<Vec<u8>>, data: Vec<u8>)
    requires
        call_ensures(put_together, (parts,), data),
    ensures
        data@ == parts@.map_values(|part: Vec<u8>| part@).flatten(),
{
    assert(parts@.map_values(|part: Vec<u8>| part@) =~= part_data(parts@));
}

/// A retrieval in which every blob came gives the blobs, one after the other, in order. Where a
/// blob did not come, and all before it did, it gives why that one did not.
pub proof fn law_retrieval_finishes(
    retrieval: Retrieval,
    block: Result<Vec<u8>, DAError>,
    k: int,
)
    requires
        call_ensures(Retrieval::finish, (retrieval,), block),
    ensures
        (forall|i: int|
            0 <= i < retrieval.blobs@.len() ==> (#[trigger] retrieval.blobs@[i]).phase
                is Retrieved) ==> block is Ok && block->Ok_0@ == retrieval.blobs@.map_values(
            |blob: BlobRetrieval| blob.phase->Retrieved_0@,
        ).flatten(),
        0 <= k < retrieval.blobs@.len() && retrieval.blobs@[k].phase is Failed && (forall|i: int|
            0 <= i < k ==> (#[trigger] retrieval.blobs@[i]).phase is Retrieved) ==> {
            &&& block is Err
            &&& retrieval.blobs@[k].phase == RetrievePhase::Failed(block->Err_0)
        },
{
    let outcomes = retrieve_outcomes(retrieval.blobs@);
    let gathered: Result<Seq<Vec<u8>>, DAError> = match block {
        Ok(data) => Ok(
            choose|parts: Seq<Vec<u8>>| #[trigger]
                gathers(outcomes, Ok(parts)) && data@ == part_data(parts).flatten(),
        ),
        Err(error) => Err(error),
    };
    assert(gathers(outcomes, gathered));
    if forall|i: int|
        0 <= i < retrieval.blobs@.len() ==> (#[trigger] retrieval.blobs@[i]).phase
            is Retrieved {
        if gathered is Err {
            let j = choose|j: int| #[trigger]
                first_error_at(outcomes, j) && outcomes[j] == Err::<Vec<u8>, DAError>(
                    gathered->Err_0,
                );
            assert(retrieval.blobs@[j].phase is Retrieved);
            assert(outcomes[j] is Ok);
        }
        let came = retrieval.blobs@.map_values(|blob: BlobRetrieval| blob.phase->Retrieved_0@);
        assert forall|i: int| 0 <= i < came.len() implies came[i] == part_data(
            gathered->Ok_0,
        )[i] by {
            assert(retrieval.blobs@[i].phase is Retrieved);
            assert(outcomes[i] == Ok::<Vec<u8>, DAError>(gathered->Ok_0[i]));
        }
        assert(came =~= part_data(gathered->Ok_0));
    }
    if 0 <= k < retrieval.blobs@.len() && retrieval.blobs@[k].phase is Failed && (forall|i: int|
        0 <= i < k ==> (#[trigger] retrieval.blobs@[i]).phase is Retrieved) {
        assert forall|i: int| 0 <= i < k implies (#[trigger] outcomes[i]) is Ok by {
            assert(retrieval.blobs@[i].phase is Retrieved);
        }
        assert(first_error_at(outcomes, k));
        let failed = Err::<Seq<Vec<u8>>, DAError>(retrieval.blobs@[k].phase->Failed_0);
        assert(gathers(outcomes, failed));
        law_one_gathered_result(outcomes, gathered, failed);
    }
}

/// A retrieval can be finished once every blob came or did not come.
pub proof fn law_retrieval_can_finish(retrieval: Retrieval)
    requires
        forall|i: int|
            0 <= i < retrieval.blobs@.len() ==> (#[trigger] retrieval.blobs@[i]).phase is Retrieved
                || retrieval.blobs@[i].phase is Failed,
    ensures
        call_requires(Retrieval::finish, (retrieval,)),
{
}

// ---- Outcomes ----

/// Outcomes without an error give all values, in order. Where one is an error, and none before
/// it is, they give that error.
pub proof fn law_gather<T, E>(
    outcomes: Vec<Result<T, E>>,
    gathered: Result<Vec<T>, E>,
    k: int,
)
    requires
        call_ensures(gather::<T, E>, (outcomes,), gathered),
    ensures
        (forall|i: int| 0 <= i < outcomes@.len() ==> (#[trigger] outcomes@[i]) is Ok) ==> {
            &&& gathered is Ok
            &&& gathered->Ok_0@.len() == outcomes@.len()
            &&& forall|i: int|
                #![trigger outcomes@[i]]
                0 <= i < outcomes@.len() ==> outcomes@[i] == Ok::<T, E>(gathered->Ok_0@[i])
        },
        0 <= k < outcomes@.len() && outcomes@[k] is Err && (forall|i: int|
            0 <= i < k ==> (#[trigger] outcomes@[i]) is Ok) ==> gathered is Err && outcomes@[k]
            == Err::<T, E>(gathered->Err_0),
{
    if 0 <= k < outcomes@.len() && outcomes@[k] is Err && (forall|i: int|
        0 <= i < k ==> (#[trigger] outcomes@[i]) is Ok) {
        assert(first_error_at(outcomes@, k));
        let failed = Err::<Seq<T>, E>(outcomes@[k]->Err_0);
        assert(gathers(outcomes@, failed));
        law_one_gathered_result(outcomes@, gathered_view(gathered), failed);
    }
}

// ---- Replies and errors ----

/// The value of a lower-case hexadecimal digit; -1 for any other character.
pub open spec fn digit_value(c: char) -> int {
    if '0' <= c && c <= '9' {
        c as int - '0' as int
    } else if 'a' <= c && c <= 'f' {
        c as int - 'a' as int + 10
    } else {
        -1
    }
}

/// The text of a storage root has two digits for each byte, lower-case hexadecimal ones, which
/// say what the byte is.
pub proof fn law_storage_root_can_be_read_back(
    reply: &BlobStatusReply,
    text: String,
    root: Seq<u8>,
    i: int,
)
    requires
        reply.info is Some,
        reply.info->0.blob_header is Some,
        root == reply.info->0.blob_header->0.storage_root@,
        call_ensures(BlobStatusReply::storage_root_hex, (reply,), text),
        0 <= i < root.len(),
    ensures
        text@.len() == 2 * root.len(),
        0 <= digit_value(text@[2 * i]) < 16,
        0 <= digit_value(text@[2 * i + 1]) < 16,
        16 * digit_value(text@[2 * i]) + digit_value(text@[2 * i + 1]) == root[i],
{
    let byte = root[i];
    assert((2 * i) / 2 == i && (2 * i) % 2 == 0);
    assert((2 * i + 1) / 2 == i && (2 * i + 1) % 2 == 1);
    assert(byte / 16 < 16 && byte % 16 < 16 && 16 * (byte / 16) + byte % 16 == byte);
}

/// The text of any storage root that fits can be had.
pub proof fn law_storage_root_can_be_shown(reply: &BlobStatusReply)
    requires
        reply.info is Some,
        reply.info->0.blob_header is Some,
        2 * reply.info->0.blob_header->0.storage_root@.len() <= isize::MAX,
    ensures
        call_requires(BlobStatusReply::storage_root_hex, (reply,)),
{
}

/// A blob is finalized when its status says so, and then only; a reply has a header when it says
/// something of the blob, and in that where the blob is.
pub proof fn law_what_a_reply_says(reply: &BlobStatusReply, finalized: bool, has: bool)
    requires
        call_ensures(BlobStatusReply::is_finalized, (reply,), finalized),
        call_ensures(BlobStatusReply::has_header, (reply,), has),
    ensures
        finalized <==> reply.status == Some(BlobStatus::Finalized),
        has <==> reply.info is Some && reply.info->0.blob_header is Some,
{
}

/// A refusal is a rate limit exactly when the code is the one for an exhausted resource.
pub proof fn law_rate_limit(code: i32, rate_limit: bool)
    requires
        call_ensures(is_rate_limit, (code,), rate_limit),
    ensures
        rate_limit <==> code == 8,
{
}

/// An error from outside is told in the words in which it came; of the other two, each has its
/// own words.
pub proof fn law_error_message(error: &DAError, text: String)
    requires
        call_ensures(DAError::message, (error,), text),
    ensures
        *error is Connect ==> text@ == error->Connect_0@,
        *error is Retrieve ==> text@ == error->Retrieve_0@,
        *error is NoBlobInfo ==> text@ == "None() for BlobInfo"@,
        *error is NoBlobHeader ==> text@ == "None() for Verification Proof"@,
{
}

// ---- The client ----

/// A counter to which something is added goes up by that much, and starts again from zero past
/// the largest number; what it is called stays.
pub proof fn law_counter_goes_up(counter: &mut Counter, amount: u64)
    requires
        call_ensures(Counter::inc_by, (counter, amount), ()) || (amount == 1 && call_ensures(
            Counter::inc,
            (counter,),
            (),
        )),
    ensures
        final(counter).value == (old(counter).value + amount) % 0x1_0000_0000_0000_0000,
        final(counter).name == old(counter).name,
        final(counter).help == old(counter).help,
{
}

/// A counter starts at zero, with the name and the help text that it is given.
pub proof fn law_counter_starts_at_zero(
    name: &'static str,
    help: &'static str,
    counter: Counter,
)
    requires
        call_ensures(int_counter, (name, help), counter),
    ensures
        counter.value == 0,
        counter.name@ == name@,
        counter.help@ == help@,
{
}

/// The counters of a client start at zero, each under its own name and help text.
pub proof fn law_metrics_start_at_zero(metrics: DAMetrics)
    requires
        call_ensures(DAMetrics::new, (), metrics),
    ensures
        metrics.dispersed_bytes.value == 0,
        metrics.dispersed_bytes.name@ == "da_dispersed_bytes"@,
        metrics.dispersed_bytes.help@ == "Number of bytes dispersed by the DA layer"@,
        metrics.dispersal_rate_limited.value == 0,
        metrics.dispersal_rate_limited.name@ == "da_dispersal_rate_limited"@,
        metrics.dispersal_rate_limited.help@ == "Times the dispersal was rate limited"@,
        metrics.confirmed_bytes.value == 0,
        metrics.confirmed_bytes.name@ == "da_confirmed_bytes"@,
        metrics.confirmed_bytes.help@ == "Number of bytes confirmed by the DA layer"@,
        metrics.poll_confirmation_count.value == 0,
        metrics.poll_confirmation_count.name@ == "da_poll_confirmation_count"@,
        metrics.poll_confirmation_count.help@
            == "Number of times we polled the DA for confirmation"@,
{
}

/// A new client has the settings that it was given, as many places as these allow, and a rate of
/// exactly the requests per second that they ask for. It has counted nothing.
pub proof fn law_new_client(config: ZGDAConfig, da: ZGDA)
    requires
        config.rps > 0,
        call_ensures(ZGDA::new, (config,), da),
    ensures
        da.config == config,
        da.disperser_permits == config.max_out_standing,
        da.disperser_rate.max_burst == config.rps,
        config.rps * da.disperser_rate.replenish_nanos <= 1_000_000_000,
        1_000_000_000 - config.rps < config.rps * da.disperser_rate.replenish_nanos,
        da.metrics.dispersed_bytes.value == 0,
        da.metrics.dispersal_rate_limited.value == 0,
        da.metrics.confirmed_bytes.value == 0,
        da.metrics.poll_confirmation_count.value == 0,
        da.metrics.dispersed_bytes.name@ == "da_dispersed_bytes"@,
        da.metrics.dispersal_rate_limited.name@ == "da_dispersal_rate_limited"@,
        da.metrics.confirmed_bytes.name@ == "da_confirmed_bytes"@,
        da.metrics.poll_confirmation_count.name@ == "da_poll_confirmation_count"@,
{
    law_requests_per_second(da);
    vstd::arithmetic::div_mod::lemma_fundamental_div_mod(1_000_000_000, config.rps as int);
}

/// Any settings that ask for some requests per second make a client.
pub proof fn law_any_rate_makes_a_client(config: ZGDAConfig)
    requires
        config.rps > 0,
    ensures
        call_requires(ZGDA::new, (config,)),
{
}

/// Under a command line that sets nothing, six requests of 512 KiB carry a block, six go out per
/// second, and six are under way.
pub proof fn law_quick_test(
    config: ZGDAConfig,
    da: &ZGDA,
    data: &[u8],
    dispersal: Dispersal<'_>,
)
    requires
        call_ensures(ZGDAConfig::command_line, (), config),
        call_ensures(ZGDA::new, (config,), *da),
        data@.len() == config.block_size,
        call_ensures(<ZGDA as DAClient>::disperse_blob, (da, data), dispersal),
    ensures
        config.block_size == 3 * 1024 * 1024,
        da.disperser_rate.max_burst == 6,
        da.disperser_permits == 6,
        dispersal.blobs@.len() == 6,
        forall|i: int|
            0 <= i < 6 ==> (#[trigger] dispersal.blobs@[i]).data@.len() == 512 * 1024,
{
    crate::blob::law_whole_blobs(data@, 524_288, 6);
    assert(blob_data(dispersal.blobs@).len() == dispersal.blobs@.len());
    assert forall|i: int| 0 <= i < 6 implies (#[trigger] dispersal.blobs@[i]).data@.len() == 512
        * 1024 by {
        assert(blob_data(dispersal.blobs@)[i] == dispersal.blobs@[i].data@);
        assert(blobs(data@, 524_288)[i].len() == 524_288);
    }
}

// ---- The workload ----

/// A run that was to end after one block ends, whatever the time. Any other ends exactly when more
/// time has passed than it was given; until then the next block follows, after a pause that
/// brings the block to the length that was asked for, or at once where it took that long.
pub proof fn law_after_block(
    options: &RunOptions,
    run_nanos: u128,
    block_secs: u64,
    after: AfterBlock,
)
    requires
        call_ensures(RunOptions::after_block, (options, run_nanos, block_secs), after),
    ensures
        after is Stop <==> options.stop,
        after is TimeOver <==> !options.stop && run_nanos > options.run_for_secs * 1_000_000_000,
        after is Next <==> !options.stop && run_nanos <= options.run_for_secs * 1_000_000_000,
        after is Next ==> after->pause_secs + block_secs == if options.sleep_for_secs
            > block_secs {
            options.sleep_for_secs as int
        } else {
            block_secs as int
        },
{
}

/// A longer run does not turn an end into a further block, and a longer block is not followed by
/// a longer pause.
pub proof fn law_more_time_does_not_prolong_a_run(
    options: &RunOptions,
    run_nanos: u128,
    block_secs: u64,
    after: AfterBlock,
    more_nanos: u128,
    more_secs: u64,
    later: AfterBlock,
)
    requires
        call_ensures(RunOptions::after_block, (options, run_nanos, block_secs), after),
        call_ensures(RunOptions::after_block, (options, more_nanos, more_secs), later),
        run_nanos <= more_nanos,
        block_secs <= more_secs,
    ensures
        !(after is Next) ==> !(later is Next),
        later is Next ==> later->pause_secs <= after->pause_secs,
{
}

/// A block of random bytes has the size that was asked for.
pub proof fn law_random_block(size: usize, data: Vec<u8>)
    requires
        call_ensures(random_block, (size,), data),
    ensures
        data@.len() == size,
{
}

/// No difference is found exactly when what came back begins with the block. One that is found is
/// the first: what comes before it in the block came back, and the byte at it did not.
pub proof fn law_first_difference(data: &[u8], retrieved: &[u8], at: Option<usize>)
    requires
        call_ensures(first_difference, (data, retrieved), at),
    ensures
        at is None <==> data@.is_prefix_of(retrieved@),
        at is Some ==> {
            &&& at->0 < data@.len()
            &&& data@.take(at->0 as int).is_prefix_of(retrieved@)
            &&& !data@.take(at->0 + 1).is_prefix_of(retrieved@)
        },
{
    law_no_difference(data@, retrieved@);
    match at {
        None => {},
        Some(at) => {
            let i = at as int;
            let before = data@.take(i);
            let up_to = data@.take(i + 1);
            assert(differs_at(data@, retrieved@, i));
            assert forall|j: int| 0 <= j < before.len() implies !differs_at(
                before,
                retrieved@,
                j,
            ) by {
                assert(!differs_at(data@, retrieved@, j));
            }
            law_no_difference(before, retrieved@);
            law_no_difference(up_to, retrieved@);
            assert(differs_at(up_to, retrieved@, i));
        },
    }
}

} // verus!
