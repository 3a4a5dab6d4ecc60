use std::collections::HashMap;
use zgdatestharness::config::ZGDAConfig;
use zgdatestharness::confirm::{
    BlobConfirmation, ConfirmAction, ConfirmEvent, ConfirmPhase, Confirmation,
};
use zgdatestharness::da::{DAClient, ZGDA};
use zgdatestharness::disperse::{
    BlobDispersal, Dispersal, DisperseAction, DisperseEvent, DispersePhase,
};
use zgdatestharness::disperser::{
    is_rate_limit, BlobHeader, BlobInfo, BlobStatus, BlobStatusReply, BlobStatusRequest, DAError,
    DisperseBlobRequest, RetrieveBlobRequest, RESOURCE_EXHAUSTED,
};
use zgdatestharness::gather::gather;
use zgdatestharness::retrieve::{
    put_together, BlobRetrieval, Retrieval, RetrieveAction, RetrieveEvent, RetrievePhase,
};

fn client(blob_size: usize) -> ZGDA {
    ZGDA::new(ZGDAConfig {
        url: "http://da:1".to_string(),
        blob_size,
        ..ZGDAConfig::command_line()
    })
}

fn blob(data: &[u8]) -> BlobDispersal<'_> {
    BlobDispersal {
        blob_id: 0,
        data,
        phase: DispersePhase::Idle,
    }
}

fn reply(status: Option<BlobStatus>, root: &[u8]) -> BlobStatusReply {
    BlobStatusReply {
        status,
        info: Some(BlobInfo {
            blob_header: Some(BlobHeader {
                storage_root: root.to_vec(),
                epoch: 3,
                quorum_id: 4,
            }),
        }),
    }
}

fn waiting(request_id: &[u8], data_len: usize) -> BlobConfirmation {
    BlobConfirmation {
        blob_id: 0,
        request_id: request_id.to_vec(),
        data_len,
        phase: ConfirmPhase::Idle,
    }
}

fn send(da: &mut ZGDA, blob: &mut BlobDispersal<'_>) -> DisperseAction {
    assert_eq!(
        da.disperse_blob_inner(blob, DisperseEvent::Start),
        DisperseAction::AcquirePermit
    );
    assert_eq!(
        da.disperse_blob_inner(blob, DisperseEvent::PermitGranted),
        DisperseAction::AwaitRate
    );
    assert_eq!(
        da.disperse_blob_inner(blob, DisperseEvent::RateReady),
        DisperseAction::Connect("http://da:1".to_string())
    );
    da.disperse_blob_inner(blob, DisperseEvent::Connected)
}

#[test]
fn a_refused_blob_is_sent_again_until_it_is_taken() {
    let mut da = client(8);
    let data = [1, 2, 3];
    let mut blob = blob(&data);
    let request = DisperseAction::Send(DisperseBlobRequest {
        data: data.to_vec(),
    });
    assert_eq!(send(&mut da, &mut blob), request);
    for refusals in 1..=5 {
        assert_eq!(
            da.disperse_blob_inner(&mut blob, DisperseEvent::Refused(RESOURCE_EXHAUSTED)),
            DisperseAction::Sleep(2000)
        );
        assert_eq!(blob.phase, DispersePhase::BackingOff);
        assert_eq!(da.metrics.dispersal_rate_limited.value, refusals);
        assert_eq!(
            da.disperse_blob_inner(&mut blob, DisperseEvent::Slept),
            DisperseAction::AwaitRetryRate
        );
        assert_eq!(blob.phase, DispersePhase::AwaitingRetryRate);
        assert_eq!(
            da.disperse_blob_inner(&mut blob, DisperseEvent::RetryReady),
            request
        );
    }
    assert_eq!(da.metrics.dispersed_bytes.value, 0);
    assert_eq!(
        da.disperse_blob_inner(&mut blob, DisperseEvent::Accepted(vec![9])),
        DisperseAction::Finish
    );
    assert_eq!(blob.phase, DispersePhase::Accepted(vec![9]));
    assert_eq!(da.metrics.dispersed_bytes.value, 3);
    assert_eq!(da.metrics.dispersal_rate_limited.value, 5);
    assert_eq!(da.metrics.confirmed_bytes.value, 0);
    assert_eq!(da.metrics.poll_confirmation_count.value, 0);
}

#[test]
fn only_an_exhausted_resource_is_a_rate_limit() {
    assert_eq!(RESOURCE_EXHAUSTED, tonic::Code::ResourceExhausted as i32);
    for code in -1..=20 {
        assert_eq!(is_rate_limit(code), code == 8);
    }
}

#[test]
fn a_refusal_for_another_reason_is_retried_and_not_counted() {
    let mut da = client(8);
    let data = [1];
    let mut blob = blob(&data);
    send(&mut da, &mut blob);
    let internal = tonic::Status::internal("x").code() as i32;
    assert_eq!(
        da.disperse_blob_inner(&mut blob, DisperseEvent::Refused(internal)),
        DisperseAction::Sleep(2000)
    );
    assert_eq!(da.metrics.dispersal_rate_limited.value, 0);
    da.disperse_blob_inner(&mut blob, DisperseEvent::Slept);
    da.disperse_blob_inner(&mut blob, DisperseEvent::RetryReady);
    da.disperse_blob_inner(&mut blob, DisperseEvent::Accepted(vec![9]));
    assert_eq!(blob.phase, DispersePhase::Accepted(vec![9]));
    assert_eq!(da.metrics.dispersal_rate_limited.value, 0);
    assert_eq!(da.metrics.dispersed_bytes.value, 1);
}

#[test]
fn every_request_passes_the_rate_limit_on_its_own() {
    let mut da = client(8);
    let data = [1, 2];
    let mut blob = blob(&data);
    let mut passes = 0;
    let mut sent = 0;
    let mut refusals = 0;
    let mut event = DisperseEvent::Start;
    loop {
        event = match da.disperse_blob_inner(&mut blob, event) {
            DisperseAction::AcquirePermit => DisperseEvent::PermitGranted,
            DisperseAction::AwaitRate => {
                passes += 1;
                DisperseEvent::RateReady
            }
            DisperseAction::AwaitRetryRate => {
                passes += 1;
                DisperseEvent::RetryReady
            }
            DisperseAction::Connect(_) => DisperseEvent::Connected,
            DisperseAction::Send(_) => {
                sent += 1;
                assert_eq!(passes, sent);
                if refusals < 4 {
                    refusals += 1;
                    DisperseEvent::Refused(14)
                } else {
                    DisperseEvent::Accepted(vec![1])
                }
            }
            DisperseAction::Sleep(_) => DisperseEvent::Slept,
            DisperseAction::Finish => break,
        };
    }
    assert_eq!((passes, sent), (5, 5));
}

#[test]
fn blobs_may_take_turns_and_stay_within_the_limit() {
    let mut da = ZGDA::new(ZGDAConfig {
        url: "http://da:1".to_string(),
        blob_size: 2,
        max_out_standing: 2,
        ..ZGDAConfig::command_line()
    });
    let data = [1, 2, 3, 4, 5];
    let mut blobs = da.disperse_blob(&data).blobs;
    let mut places = da.disperser_permits;
    let mut refused = vec![false; blobs.len()];
    for blob in blobs.iter_mut() {
        da.disperse_blob_inner(blob, DisperseEvent::Start);
    }
    let mut most = 0;
    while blobs
        .iter()
        .any(|blob| !matches!(blob.phase, DispersePhase::Accepted(_)))
    {
        for i in 0..blobs.len() {
            let event = match &blobs[i].phase {
                DispersePhase::AwaitingPermit if places == 0 => continue,
                DispersePhase::AwaitingPermit => {
                    places -= 1;
                    DisperseEvent::PermitGranted
                }
                DispersePhase::AwaitingRate => DisperseEvent::RateReady,
                DispersePhase::Connecting => DisperseEvent::Connected,
                DispersePhase::Sending if !refused[i] => {
                    refused[i] = true;
                    DisperseEvent::Refused(RESOURCE_EXHAUSTED)
                }
                DispersePhase::Sending => {
                    places += 1;
                    DisperseEvent::Accepted(vec![i as u8])
                }
                DispersePhase::BackingOff => DisperseEvent::Slept,
                DispersePhase::AwaitingRetryRate => DisperseEvent::RetryReady,
                _ => continue,
            };
            da.disperse_blob_inner(&mut blobs[i], event);
            let taken = blobs
                .iter()
                .filter(|blob| {
                    matches!(
                        blob.phase,
                        DispersePhase::AwaitingRate
                            | DispersePhase::Connecting
                            | DispersePhase::Sending
                            | DispersePhase::BackingOff
                            | DispersePhase::AwaitingRetryRate
                    )
                })
                .count();
            most = most.max(taken);
        }
    }
    assert_eq!(most, 2);
    assert_eq!(places, 2);
    assert_eq!(da.metrics.dispersed_bytes.value, 5);
    assert_eq!(da.metrics.dispersal_rate_limited.value, 3);
    assert_eq!(
        Dispersal { blobs }.finish(),
        Ok(vec![(vec![0], 2), (vec![1], 2), (vec![2], 1)])
    );
}

#[test]
fn a_blob_without_a_connection_fails() {
    let mut da = client(8);
    let data = [1];
    let mut blob = blob(&data);
    da.disperse_blob_inner(&mut blob, DisperseEvent::Start);
    da.disperse_blob_inner(&mut blob, DisperseEvent::PermitGranted);
    da.disperse_blob_inner(&mut blob, DisperseEvent::RateReady);
    assert_eq!(
        da.disperse_blob_inner(&mut blob, DisperseEvent::ConnectFailed("no".to_string())),
        DisperseAction::Finish
    );
    assert_eq!(
        blob.phase,
        DispersePhase::Failed(DAError::Connect("no".to_string()))
    );
    assert_eq!(da.metrics.dispersed_bytes.value, 0);
}

#[test]
fn a_dispersal_gives_ids_and_lengths_in_order() {
    let da = client(2);
    let data = [1, 2, 3, 4, 5];
    let mut dispersal = da.disperse_blob(&data);
    for (i, blob) in dispersal.blobs.iter_mut().enumerate() {
        blob.phase = DispersePhase::Accepted(vec![i as u8]);
    }
    assert_eq!(
        dispersal.finish(),
        Ok(vec![(vec![0], 2), (vec![1], 2), (vec![2], 1)])
    );
}

#[test]
fn an_empty_block_is_dispersed_at_once() {
    let da = client(2);
    assert_eq!(da.disperse_blob(&[]).finish(), Ok(vec![]));
    let confirmation = da.store_blob(&[]).confirm().unwrap();
    assert_eq!(confirmation.finish(), Ok(vec![]));
    assert_eq!(da.retrieve_blob(vec![]).unwrap().finish(), Ok(vec![]));
}

#[test]
fn a_dispersal_fails_with_its_first_error() {
    let data = [1];
    let failed = |text: &str| BlobDispersal {
        phase: DispersePhase::Failed(DAError::Connect(text.to_string())),
        ..blob(&data)
    };
    let accepted = || BlobDispersal {
        phase: DispersePhase::Accepted(vec![1]),
        ..blob(&data)
    };
    let dispersal = Dispersal {
        blobs: vec![accepted(), failed("first"), accepted(), failed("second")],
    };
    assert_eq!(
        dispersal.finish(),
        Err(DAError::Connect("first".to_string()))
    );
}

#[test]
fn a_storage_fails_as_its_dispersal_does() {
    let da = client(2);
    let data = [1, 2, 3];
    let mut storage = da.store_blob(&data);
    storage.dispersal.blobs[0].phase = DispersePhase::Accepted(vec![1]);
    storage.dispersal.blobs[1].phase =
        DispersePhase::Failed(DAError::Connect("gone".to_string()));
    assert_eq!(
        storage.confirm().err(),
        Some(DAError::Connect("gone".to_string()))
    );
}

#[test]
fn a_blob_is_polled_until_it_is_finalized() {
    let mut da = client(8);
    let mut blob = waiting(&[5, 6], 7);
    let poll = ConfirmAction::Poll(BlobStatusRequest {
        request_id: vec![5, 6],
    });
    assert_eq!(
        da.wait_for_blob_confirmation(&mut blob, ConfirmEvent::Start),
        ConfirmAction::Connect("http://da:1".to_string())
    );
    assert_eq!(
        da.wait_for_blob_confirmation(&mut blob, ConfirmEvent::Connected),
        poll
    );
    let open = [
        None,
        Some(BlobStatus::Unknown),
        Some(BlobStatus::Processing),
        Some(BlobStatus::Confirmed),
        Some(BlobStatus::Failed),
        Some(BlobStatus::InsufficientSignatures),
    ];
    for (i, status) in open.into_iter().enumerate() {
        assert_eq!(
            da.wait_for_blob_confirmation(&mut blob, ConfirmEvent::Status(reply(status, &[1]))),
            ConfirmAction::Sleep(1000)
        );
        assert_eq!(da.metrics.poll_confirmation_count.value, i as u64 + 1);
        assert_eq!(
            da.wait_for_blob_confirmation(&mut blob, ConfirmEvent::Slept),
            poll
        );
    }
    assert_eq!(da.metrics.confirmed_bytes.value, 0);
    let last = reply(Some(BlobStatus::Finalized), &[1]);
    assert_eq!(
        da.wait_for_blob_confirmation(&mut blob, ConfirmEvent::Status(last)),
        ConfirmAction::Finish
    );
    assert_eq!(da.metrics.poll_confirmation_count.value, 7);
    assert_eq!(da.metrics.confirmed_bytes.value, 7);
    assert_eq!(da.metrics.dispersed_bytes.value, 0);
    let confirmation = Confirmation { blobs: vec![blob] };
    assert_eq!(
        confirmation.finish(),
        Ok(vec![reply(Some(BlobStatus::Finalized), &[1])])
    );
}

#[test]
fn a_reply_may_say_nothing_until_the_blob_is_finalized() {
    let mut da = client(8);
    let mut blob = waiting(&[5], 7);
    da.wait_for_blob_confirmation(&mut blob, ConfirmEvent::Start);
    da.wait_for_blob_confirmation(&mut blob, ConfirmEvent::Connected);
    let empty = BlobStatusReply {
        status: Some(BlobStatus::Processing),
        info: None,
    };
    assert_eq!(
        da.wait_for_blob_confirmation(&mut blob, ConfirmEvent::Status(empty)),
        ConfirmAction::Sleep(1000)
    );
}

#[test]
fn a_wait_without_a_connection_fails() {
    let mut da = client(8);
    let mut blob = waiting(&[5], 7);
    da.wait_for_blob_confirmation(&mut blob, ConfirmEvent::Start);
    assert_eq!(
        da.wait_for_blob_confirmation(&mut blob, ConfirmEvent::ConnectFailed("no".to_string())),
        ConfirmAction::Finish
    );
    let confirmation = Confirmation { blobs: vec![blob] };
    assert_eq!(
        confirmation.finish(),
        Err(DAError::Connect("no".to_string()))
    );
    assert_eq!(da.metrics.poll_confirmation_count.value, 0);
}

#[test]
fn a_storage_root_is_shown_in_hexadecimal_digits() {
    let all: Vec<u8> = (0..=255).collect();
    assert_eq!(
        reply(None, &[0x00, 0x9a, 0xf0, 0x0f, 0xff]).storage_root_hex(),
        "009af00fff"
    );
    let expected: String = all.iter().map(|byte| format!("{byte:02x}")).collect();
    assert_eq!(reply(None, &all).storage_root_hex(), expected);
    assert_eq!(reply(None, &[]).storage_root_hex(), "");
}

#[test]
fn a_reply_tells_whether_it_has_a_header() {
    assert!(reply(None, &[]).has_header());
    let no_info = BlobStatusReply {
        status: None,
        info: None,
    };
    assert!(!no_info.has_header());
    let no_header = BlobStatusReply {
        status: Some(BlobStatus::Finalized),
        info: Some(BlobInfo { blob_header: None }),
    };
    assert!(!no_header.has_header());
    assert!(no_header.is_finalized());
}

#[test]
fn a_reply_without_a_place_cannot_be_retrieved() {
    let da = client(8);
    let no_info = || BlobStatusReply {
        status: Some(BlobStatus::Finalized),
        info: None,
    };
    let no_header = || BlobStatusReply {
        status: Some(BlobStatus::Finalized),
        info: Some(BlobInfo { blob_header: None }),
    };
    let full = || reply(Some(BlobStatus::Finalized), &[1]);
    let error = da.retrieve_blob(vec![full(), no_info(), no_header()]).err();
    assert_eq!(error, Some(DAError::NoBlobInfo));
    assert_eq!(error.unwrap().message(), "None() for BlobInfo");
    let error = da.retrieve_blob(vec![full(), no_header(), no_info()]).err();
    assert_eq!(error, Some(DAError::NoBlobHeader));
    assert_eq!(error.unwrap().message(), "None() for Verification Proof");
}

#[test]
fn errors_from_outside_keep_their_words() {
    assert_eq!(DAError::Connect("a".to_string()).message(), "a");
    assert_eq!(DAError::Retrieve("b".to_string()).message(), "b");
}

#[test]
fn a_blob_is_asked_for_once() {
    let da = client(8);
    let mut retrieval = da.retrieve_blob(vec![reply(None, &[8, 9])]).unwrap();
    let blob = &mut retrieval.blobs[0];
    assert_eq!(
        da.retrieve_blob_inner(blob, RetrieveEvent::Start),
        RetrieveAction::Connect("http://da:1".to_string())
    );
    assert_eq!(
        da.retrieve_blob_inner(blob, RetrieveEvent::Connected),
        RetrieveAction::Send(RetrieveBlobRequest {
            storage_root: vec![8, 9],
            epoch: 3,
            quorum_id: 4,
        })
    );
    assert_eq!(
        da.retrieve_blob_inner(blob, RetrieveEvent::Data(vec![1, 2])),
        RetrieveAction::Finish
    );
    assert_eq!(retrieval.finish(), Ok(vec![1, 2]));
}

#[test]
fn a_retrieval_fails_with_its_first_error() {
    let da = client(8);
    let replies = vec![reply(None, &[1]), reply(None, &[2]), reply(None, &[3])];
    let mut retrieval = da.retrieve_blob(replies).unwrap();
    for blob in retrieval.blobs.iter_mut() {
        da.retrieve_blob_inner(blob, RetrieveEvent::Start);
    }
    let [first, second, third] = &mut retrieval.blobs[..] else {
        panic!("three blobs");
    };
    da.retrieve_blob_inner(first, RetrieveEvent::Connected);
    da.retrieve_blob_inner(first, RetrieveEvent::Data(vec![1]));
    da.retrieve_blob_inner(second, RetrieveEvent::Connected);
    da.retrieve_blob_inner(third, RetrieveEvent::ConnectFailed("down".to_string()));
    da.retrieve_blob_inner(second, RetrieveEvent::Refused("lost".to_string()));
    assert_eq!(
        second.phase,
        RetrievePhase::Failed(DAError::Retrieve("lost".to_string()))
    );
    assert_eq!(
        third.phase,
        RetrievePhase::Failed(DAError::Connect("down".to_string()))
    );
    assert_eq!(
        retrieval.finish(),
        Err(DAError::Retrieve("lost".to_string()))
    );
}

#[test]
fn outcomes_are_gathered() {
    let good: Vec<Result<u8, char>> = vec![Ok(1), Ok(2)];
    assert_eq!(gather(good), Ok(vec![1, 2]));
    let bad: Vec<Result<u8, char>> = vec![Ok(1), Err('a'), Err('b')];
    assert_eq!(gather(bad), Err('a'));
}

#[test]
fn parts_are_put_together() {
    assert_eq!(put_together(vec![vec![1], vec![], vec![2, 3]]), vec![1, 2, 3]);
}

/// Stores `data` with a service that numbers the blobs as they come, in any order, and gets it
/// back.
fn round_trip(da: &mut ZGDA, data: &[u8], backwards: bool) -> Vec<u8> {
    let mut service: HashMap<Vec<u8>, Vec<u8>> = HashMap::new();
    let mut storage = da.store_blob(data);
    let count = storage.dispersal.blobs.len();
    let mut order: Vec<usize> = (0..count).collect();
    if backwards {
        order.reverse();
    }
    for i in order.iter() {
        let blob = &mut storage.dispersal.blobs[*i];
        let DisperseAction::Send(request) = send(da, blob) else {
            panic!("a request");
        };
        da.disperse_blob_inner(blob, DisperseEvent::Refused(RESOURCE_EXHAUSTED));
        da.disperse_blob_inner(blob, DisperseEvent::Slept);
        da.disperse_blob_inner(blob, DisperseEvent::RetryReady);
        let id = vec![service.len() as u8];
        service.insert(id.clone(), request.data);
        da.disperse_blob_inner(blob, DisperseEvent::Accepted(id));
    }
    let mut confirmation = storage.confirm().unwrap();
    for i in order.iter() {
        let blob = &mut confirmation.blobs[*i];
        assert_eq!(blob.blob_id, *i);
        da.wait_for_blob_confirmation(blob, ConfirmEvent::Start);
        let action = da.wait_for_blob_confirmation(blob, ConfirmEvent::Connected);
        let ConfirmAction::Poll(request) = action else {
            panic!("a poll");
        };
        let last = reply(Some(BlobStatus::Finalized), &request.request_id);
        da.wait_for_blob_confirmation(blob, ConfirmEvent::Status(last));
    }
    let replies = confirmation.finish().unwrap();
    let mut retrieval = da.retrieve_blob(replies).unwrap();
    for i in order {
        let blob: &mut BlobRetrieval = &mut retrieval.blobs[i];
        da.retrieve_blob_inner(blob, RetrieveEvent::Start);
        let action = da.retrieve_blob_inner(blob, RetrieveEvent::Connected);
        let RetrieveAction::Send(request) = action else {
            panic!("a request");
        };
        let held = service[&request.storage_root].clone();
        da.retrieve_blob_inner(blob, RetrieveEvent::Data(held));
    }
    Retrieval {
        blobs: retrieval.blobs,
    }
    .finish()
    .unwrap()
}

#[test]
fn what_was_stored_comes_back_and_is_counted_once() {
    let data: Vec<u8> = (0..=200).collect();
    for backwards in [false, true] {
        let mut da = client(16);
        assert_eq!(round_trip(&mut da, &data, backwards), data);
        assert_eq!(da.metrics.dispersed_bytes.value, 201);
        assert_eq!(da.metrics.confirmed_bytes.value, 201);
        assert_eq!(da.metrics.dispersal_rate_limited.value, 13);
        assert_eq!(da.metrics.poll_confirmation_count.value, 13);
    }
}
