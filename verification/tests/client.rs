use zgdatestharness::config::{
    ZGDAConfig, CLI_BLOB_SIZE, CLI_BLOCK_SIZE, DEFAULT_MAX_OUT_STANDING, DEFAULT_RPS,
};
use zgdatestharness::da::{DAClient, RateQuota, ZGDA};
use zgdatestharness::disperse::DispersePhase;

fn client(rps: u8) -> ZGDA {
    ZGDA::new(ZGDAConfig {
        rps,
        ..ZGDAConfig::default()
    })
}

#[test]
fn default_settings() {
    let config = ZGDAConfig::default();
    assert_eq!(config.url, "http://0.0.0.0:51001");
    assert_eq!(config.disperser_retry_delay_ms, 1000);
    assert_eq!(config.status_retry_delay_ms, 2000);
    assert_eq!(config.block_size, 12_582_912);
    assert_eq!(config.blob_size, 256);
    assert_eq!(config.rps, 6);
    assert_eq!(config.max_out_standing, 6);
}

#[test]
fn command_line_settings() {
    let config = ZGDAConfig::command_line();
    assert_eq!(config.url, "http://0.0.0.0:51001");
    assert_eq!(config.disperser_retry_delay_ms, 2000);
    assert_eq!(config.status_retry_delay_ms, 1000);
    assert_eq!(config.block_size, 3 * 1024 * 1024);
    assert_eq!(config.blob_size, 512 * 1024);
    assert_eq!(config.rps, DEFAULT_RPS);
    assert_eq!(config.max_out_standing, DEFAULT_MAX_OUT_STANDING);
}

#[test]
fn a_quick_test_sends_six_requests_of_512_k() {
    let da = ZGDA::new(ZGDAConfig::command_line());
    let block = vec![7; CLI_BLOCK_SIZE];
    let dispersal = da.disperse_blob(&block);
    assert_eq!(dispersal.blobs.len(), 6);
    for (i, blob) in dispersal.blobs.iter().enumerate() {
        assert_eq!(blob.blob_id, i);
        assert_eq!(blob.phase, DispersePhase::Idle);
        assert_eq!(blob.data.len(), CLI_BLOB_SIZE);
        assert_eq!(da.disperse_blob_request(blob.data).data, blob.data);
    }
}

#[test]
fn six_requests_go_out_per_second_and_six_are_under_way() {
    let da = ZGDA::new(ZGDAConfig::command_line());
    assert_eq!(
        da.disperser_rate,
        RateQuota {
            max_burst: 6,
            replenish_nanos: 166_666_666
        }
    );
    assert_eq!(da.disperser_permits, 6);
}

#[test]
fn the_rate_is_that_of_the_rate_limiter() {
    for rps in 1..=255u8 {
        let rate = client(rps).disperser_rate;
        let quota =
            governor::Quota::per_second(std::num::NonZeroU32::new(u32::from(rps)).unwrap());
        assert_eq!(rate.max_burst, quota.burst_size().get());
        assert_eq!(
            u128::from(rate.replenish_nanos),
            quota.replenish_interval().as_nanos()
        );
    }
}

#[test]
fn a_second_gives_back_as_many_requests_as_were_asked_for() {
    for rps in 1..=255u8 {
        let rate = client(rps).disperser_rate;
        assert_eq!(1_000_000_000 / rate.replenish_nanos, u64::from(rps));
    }
}

#[test]
fn a_new_client_keeps_its_settings_and_has_counted_nothing() {
    let da = ZGDA::new(ZGDAConfig {
        url: "http://example:1".to_string(),
        max_out_standing: 9,
        ..ZGDAConfig::default()
    });
    assert_eq!(da.config.url, "http://example:1");
    assert_eq!(da.disperser_permits, 9);
    assert_eq!(da.metrics.dispersed_bytes.value, 0);
    assert_eq!(da.metrics.dispersal_rate_limited.value, 0);
    assert_eq!(da.metrics.confirmed_bytes.value, 0);
    assert_eq!(da.metrics.poll_confirmation_count.value, 0);
}
