use zgdatestharness::workload::{first_difference, random_block, AfterBlock, RunOptions};

fn options(stop: bool, run_for_secs: u32, sleep_for_secs: u32) -> RunOptions {
    RunOptions {
        stop,
        run_for_secs,
        sleep_for_secs,
    }
}

#[test]
fn a_run_of_one_block_stops() {
    assert_eq!(options(true, 0, 5).after_block(1, 0), AfterBlock::Stop);
}

#[test]
fn a_run_ends_once_its_time_is_past() {
    let options = options(false, 3, 0);
    assert_eq!(
        options.after_block(3_000_000_000, 1),
        AfterBlock::Next { pause_secs: 0 }
    );
    assert_eq!(options.after_block(3_000_000_001, 1), AfterBlock::TimeOver);
    assert_eq!(options.after_block(u128::MAX, 1), AfterBlock::TimeOver);
}

#[test]
fn a_short_block_is_followed_by_a_pause() {
    let options = options(false, u32::MAX, 10);
    assert_eq!(
        options.after_block(1, 4),
        AfterBlock::Next { pause_secs: 6 }
    );
    assert_eq!(
        options.after_block(1, 10),
        AfterBlock::Next { pause_secs: 0 }
    );
    assert_eq!(
        options.after_block(1, u64::MAX),
        AfterBlock::Next { pause_secs: 0 }
    );
}

#[test]
fn random_blocks_have_their_size_and_differ() {
    assert_eq!(random_block(0).len(), 0);
    let a = random_block(4096);
    let b = random_block(4096);
    assert_eq!(a.len(), 4096);
    assert_ne!(a, b);
    assert!(a.iter().any(|byte| *byte != a[0]));
}

#[test]
fn the_first_difference_is_found() {
    assert_eq!(first_difference(&[1, 2, 3], &[1, 2, 3]), None);
    assert_eq!(first_difference(&[1, 2, 3], &[1, 9, 8]), Some(1));
    assert_eq!(first_difference(&[1, 2, 3], &[1, 2]), Some(2));
    assert_eq!(first_difference(&[], &[]), None);
}

#[test]
fn bytes_past_the_block_do_not_count() {
    assert_eq!(first_difference(&[1, 2], &[1, 2, 3]), None);
    assert_eq!(first_difference(&[], &[3]), None);
}
