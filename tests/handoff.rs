use handoff::{
    check_capacity, check_observed, checksum, expected_checksum, HandoffError, PublishedBuffer,
    SynchronisedSumFixed,
};

#[test]
fn expected_checksum_of_512_values() {
    assert_eq!(expected_checksum(512), 130816);
}

#[test]
fn expected_checksum_exact_values() {
    assert_eq!(expected_checksum(0), 0);
    assert_eq!(expected_checksum(1), 0);
    assert_eq!(expected_checksum(2), 1);
    assert_eq!(expected_checksum(100_000), 4_999_950_000);
    assert_eq!(expected_checksum(u32::MAX - 1), 9_223_372_026_117_357_571);
}

#[test]
fn checksum_sums_in_64_bits() {
    assert_eq!(checksum(&[]), 0);
    assert_eq!(checksum(&[7]), 7);
    assert_eq!(checksum(&[u32::MAX, u32::MAX, 1]), 2 * u32::MAX as u64 + 1);
}

#[test]
fn buffer_holds_each_index() {
    let b = PublishedBuffer::new(10);
    assert_eq!(b.len(), 10);
    assert_eq!(b.as_slice(), &[0, 1, 2, 3, 4, 5, 6, 7, 8, 9]);
    assert_eq!(b.checksum(), 45);
}

#[test]
fn empty_buffer_at_capacity_zero() {
    let b = PublishedBuffer::new(0);
    assert_eq!(b.len(), 0);
    assert!(b.as_slice().is_empty());
    assert_eq!(b.checksum(), 0);
    assert_eq!(expected_checksum(0), 0);
}

#[test]
fn capacity_below_max_accepted() {
    assert_eq!(check_capacity(0), Ok(()));
    assert_eq!(check_capacity(512), Ok(()));
    assert_eq!(check_capacity(u32::MAX as usize - 1), Ok(()));
}

#[test]
fn capacity_at_max_is_misuse() {
    let samples = u32::MAX as usize;
    assert_eq!(check_capacity(samples), Err(HandoffError::Misuse { samples }));
    assert_eq!(check_capacity(samples + 1), Err(HandoffError::Misuse { samples: samples + 1 }));
    assert!(matches!(
        SynchronisedSumFixed::new(samples),
        Err(HandoffError::Misuse { samples: s }) if s == samples
    ));
}

#[test]
fn new_slot_keeps_capacity_and_is_empty() {
    let slot = SynchronisedSumFixed::new(512).unwrap();
    assert_eq!(slot.samples(), 512);
    assert!(slot.observe().is_none());
    assert_eq!(slot.try_calculate(130816), None);
}

#[test]
fn consumer_first_then_producer() {
    let slot = SynchronisedSumFixed::new(512).unwrap();
    for _ in 0..100 {
        assert_eq!(slot.try_calculate(130816), None);
    }
    assert_eq!(slot.generate(), Ok(()));
    assert_eq!(slot.try_calculate(130816), Some(Ok(())));
}

#[test]
fn producer_first_then_consumer() {
    let slot = SynchronisedSumFixed::new(512).unwrap();
    assert_eq!(slot.generate(), Ok(()));
    assert_eq!(slot.try_calculate(expected_checksum(512)), Some(Ok(())));
}

#[test]
fn observed_buffer_matches_generated_one() {
    for capacity in [1u32, 2, 3, 17, 512, 4096, 100_000] {
        let slot = SynchronisedSumFixed::new(capacity as usize).unwrap();
        assert_eq!(slot.generate(), Ok(()));
        let observed = slot.observe().unwrap();
        assert_eq!(observed.len(), capacity as usize);
        for (i, v) in observed.as_slice().iter().enumerate() {
            assert_eq!(*v as usize, i);
        }
        assert_eq!(observed.checksum(), expected_checksum(capacity));
        assert_eq!(slot.try_calculate(expected_checksum(capacity)), Some(Ok(())));
    }
}

#[test]
fn zero_capacity_slot_round_trip() {
    let slot = SynchronisedSumFixed::new(0).unwrap();
    assert_eq!(slot.generate(), Ok(()));
    assert_eq!(slot.observe().unwrap().len(), 0);
    assert_eq!(slot.try_calculate(0), Some(Ok(())));
}

#[test]
fn second_publish_is_refused_and_buffer_kept() {
    let slot = SynchronisedSumFixed::new(8).unwrap();
    assert!(slot.observe().is_none());
    assert_eq!(slot.generate(), Ok(()));
    let first = slot.observe().unwrap().as_slice().to_vec();
    assert_eq!(slot.generate(), Err(HandoffError::AlreadyPublished));
    assert_eq!(slot.generate(), Err(HandoffError::AlreadyPublished));
    assert_eq!(slot.observe().unwrap().as_slice(), first.as_slice());
    assert_eq!(slot.try_calculate(28), Some(Ok(())));
}

#[test]
fn wrong_expected_checksum_is_mismatch() {
    let slot = SynchronisedSumFixed::new(512).unwrap();
    assert_eq!(slot.generate(), Ok(()));
    assert_eq!(
        slot.try_calculate(130815),
        Some(Err(HandoffError::ChecksumMismatch { expected: 130815, observed: 130816 }))
    );
}

#[test]
fn check_observed_accepts_matching_buffer() {
    assert_eq!(check_observed(4, &[0, 1, 2, 3], 6), Ok(()));
    assert_eq!(check_observed(0, &[], 0), Ok(()));
}

#[test]
fn check_observed_reports_short_buffer() {
    assert_eq!(
        check_observed(4, &[0, 1, 2], 6),
        Err(HandoffError::LengthMismatch { expected_len: 4, observed_len: 3 })
    );
}

#[test]
fn check_observed_reports_torn_buffer() {
    assert_eq!(
        check_observed(4, &[0, 1, 0, 3], 6),
        Err(HandoffError::ChecksumMismatch { expected: 6, observed: 4 })
    );
}
