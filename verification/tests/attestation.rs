use ceseal::attestation::{backoff_secs, create_attestation_report_on, ReportStep};

fn fails(tried: u32, max_retries: u32) -> ReportStep {
    create_attestation_report_on(
        tried,
        max_retries,
        "null".to_string(),
        Err("Timeout".to_string()),
        100,
    )
}

#[test]
fn pauses_double_up_to_eight_seconds() {
    let pauses: Vec<u64> = (0..7).map(backoff_secs).collect();
    assert_eq!(pauses, vec![1, 2, 4, 8, 8, 8, 8]);
    assert_eq!(backoff_secs(63), 8);
}

#[test]
fn a_created_report_becomes_an_attestation() {
    let step = create_attestation_report_on(
        2,
        5,
        "\"ias\"".to_string(),
        Ok(vec![1, 2, 3]),
        1234,
    );
    match step {
        ReportStep::Created(a) => {
            assert_eq!(a.version, 1);
            assert_eq!(a.provider, "\"ias\"");
            assert_eq!(a.payload, None);
            assert_eq!(a.encoded_report, vec![1, 2, 3]);
            assert_eq!(a.timestamp, 1234);
        }
        other => panic!("unexpected {:?}", other),
    }
}

#[test]
fn a_failed_try_is_repeated() {
    match fails(3, 4) {
        ReportStep::Retry { tried, after_secs } => {
            assert_eq!(tried, 4);
            assert_eq!(after_secs, 8);
        }
        other => panic!("unexpected {:?}", other),
    }
}

#[test]
fn the_last_failed_try_ends_it() {
    match fails(4, 4) {
        ReportStep::Failed(e) => {
            assert_eq!(e.message(), "Failed to create attestation report: Timeout");
        }
        other => panic!("unexpected {:?}", other),
    }
    assert!(matches!(fails(0, 0), ReportStep::Failed(_)));
}

#[test]
fn three_retries_wait_seven_seconds() {
    let mut tried: u32 = 0;
    let mut waited: u64 = 0;
    loop {
        match fails(tried, 3) {
            ReportStep::Retry { tried: next, after_secs } => {
                tried = next;
                waited += after_secs;
            }
            ReportStep::Failed(_) => break,
            ReportStep::Created(_) => unreachable!(),
        }
    }
    assert_eq!(tried, 3);
    assert_eq!(waited, 7);
}

#[test]
fn the_first_success_decides() {
    let outcomes: Vec<Result<Vec<u8>, String>> = vec![
        Err("first".to_string()),
        Err("second".to_string()),
        Ok(vec![3]),
    ];
    let mut tried: u32 = 0;
    let mut now: u64 = 10;
    for outcome in outcomes {
        now += 1;
        match create_attestation_report_on(tried, 2, "null".to_string(), outcome, now) {
            ReportStep::Retry { tried: next, .. } => tried = next,
            ReportStep::Created(a) => {
                assert_eq!(a.encoded_report, vec![3]);
                assert_eq!(a.timestamp, 13);
            }
            ReportStep::Failed(e) => panic!("unexpected {:?}", e),
        }
    }
    assert_eq!(tried, 2);
}
