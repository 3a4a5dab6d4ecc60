use zgdatestharness::blob::split;

#[test]
fn a_block_is_cut_in_order_with_the_rest_last() {
    let parts = split(&[1, 2, 3, 4, 5], 2);
    let expected: Vec<&[u8]> = vec![&[1, 2], &[3, 4], &[5]];
    assert_eq!(parts, expected);
}

#[test]
fn an_empty_block_has_no_blobs() {
    assert_eq!(split(&[], 4).len(), 0);
}

#[test]
fn a_block_below_the_limit_is_one_blob() {
    let expected: Vec<&[u8]> = vec![&[9, 8, 7]];
    assert_eq!(split(&[9, 8, 7], 3), expected);
    assert_eq!(split(&[9, 8, 7], usize::MAX), expected);
}

#[test]
fn blobs_put_together_are_the_block() {
    let data: Vec<u8> = (0..=250).collect();
    for size in 1..=252 {
        let parts = split(&data, size);
        assert_eq!(parts.concat(), data);
        assert_eq!(parts.len(), data.len().div_ceil(size));
        for (i, part) in parts.iter().enumerate() {
            assert!(!part.is_empty() && part.len() <= size);
            if i + 1 < parts.len() {
                assert_eq!(part.len(), size);
            }
        }
    }
}

#[test]
fn cutting_agrees_with_the_chunks_of_a_slice() {
    let data: Vec<u8> = (0..100).collect();
    for size in [1, 3, 10, 33, 99, 100, 101] {
        let expected: Vec<&[u8]> = data.chunks(size).collect();
        assert_eq!(split(&data, size), expected);
    }
}
