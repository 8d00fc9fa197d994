use workshop_dl::batch::{parse_batch, BatchError};
use workshop_dl::invoke::DownloadError;
use workshop_dl::run::{BatchRun, Summary};

#[test]
fn batch_reads_ids_in_file_order() {
    assert_eq!(parse_batch(b"123\n456\n789\n"), Ok(vec![123, 456, 789]));
}

#[test]
fn batch_without_final_newline() {
    assert_eq!(parse_batch(b"5\n6"), Ok(vec![5, 6]));
}

#[test]
fn batch_skips_blank_lines_and_trailing_whitespace() {
    assert_eq!(parse_batch(b"10\r\n\n   \n20 \t\n\r\n"), Ok(vec![10, 20]));
}

#[test]
fn empty_batch_file_has_no_items() {
    assert_eq!(parse_batch(b""), Ok(vec![]));
    assert_eq!(parse_batch(b"\n\n"), Ok(vec![]));
}

#[test]
fn batch_stops_at_non_numeric_line() {
    assert_eq!(
        parse_batch(b"1\n2\nabc\n4\nxyz\n"),
        Err(BatchError::InvalidEntry { line: 3, content: b"abc".to_vec() })
    );
}

#[test]
fn batch_line_numbers_count_blank_lines() {
    assert_eq!(
        parse_batch(b"\n\n7\nabc"),
        Err(BatchError::InvalidEntry { line: 4, content: b"abc".to_vec() })
    );
}

#[test]
fn batch_rejects_zero_negative_and_leading_space() {
    assert_eq!(
        parse_batch(b"0\n"),
        Err(BatchError::InvalidEntry { line: 1, content: b"0".to_vec() })
    );
    assert_eq!(
        parse_batch(b"3\n-5\n"),
        Err(BatchError::InvalidEntry { line: 2, content: b"-5".to_vec() })
    );
    assert_eq!(
        parse_batch(b" 9\n"),
        Err(BatchError::InvalidEntry { line: 1, content: b" 9".to_vec() })
    );
}

#[test]
fn batch_ids_up_to_u64_max() {
    assert_eq!(parse_batch(b"18446744073709551615\n"), Ok(vec![u64::MAX]));
    assert_eq!(
        parse_batch(b"18446744073709551616\n"),
        Err(BatchError::InvalidEntry { line: 1, content: b"18446744073709551616".to_vec() })
    );
}

#[test]
fn batch_run_hands_out_items_in_order() {
    let mut run = BatchRun::from_contents(b"5\n\n6\n7\n").unwrap();
    assert_eq!(run.total(), 3);
    assert_eq!(run.progress(), 0);
    assert_eq!(run.next_item(), Some(5));
    assert_eq!(run.progress(), 1);
    run.record(Ok(()));
    assert_eq!(run.next_item(), Some(6));
    run.record(Ok(()));
    assert_eq!(run.next_item(), Some(7));
    run.record(Ok(()));
    assert_eq!(run.progress(), 3);
    assert!(run.is_finished());
    assert_eq!(run.next_item(), None);
    assert_eq!(run.progress(), 3);
}

#[test]
fn batch_run_refuses_invalid_file() {
    let r = BatchRun::from_contents(b"11\nabc\n12\n");
    match r {
        Err(e) => assert_eq!(e, BatchError::InvalidEntry { line: 2, content: b"abc".to_vec() }),
        Ok(_) => panic!("a file with an invalid line gave a batch"),
    }
}

#[test]
fn batch_run_tallies_outcomes() {
    let mut run = BatchRun::new(vec![1, 2, 3]);
    assert_eq!(run.next_item(), Some(1));
    run.record(Ok(()));
    assert_eq!(run.next_item(), Some(2));
    run.record(Err(DownloadError::ResolutionFailed { item_id: 2 }));
    assert_eq!(run.next_item(), Some(3));
    run.record(Err(DownloadError::ToolFailed { item_id: 3, code: Some(8) }));
    assert_eq!(run.summary(), Summary { downloaded: 1, unresolved: 1, failed: 1 });
    assert_eq!(
        run.failures(),
        &vec![
            DownloadError::ResolutionFailed { item_id: 2 },
            DownloadError::ToolFailed { item_id: 3, code: Some(8) },
        ]
    );
}

#[test]
fn batch_of_n_lines_invokes_n_times() {
    let mut run = BatchRun::from_contents(b"100\n200\n300\n400\n").unwrap();
    let mut invoked: Vec<u64> = Vec::new();
    while let Some(id) = run.next_item() {
        invoked.push(id);
        let outcome = if id == 200 {
            Err(DownloadError::ToolFailed { item_id: id, code: Some(3) })
        } else {
            Ok(())
        };
        run.record(outcome);
    }
    assert_eq!(invoked, vec![100, 200, 300, 400]);
    assert_eq!(run.progress(), 4);
    assert_eq!(run.summary(), Summary { downloaded: 3, unresolved: 0, failed: 1 });
    assert_eq!(run.failures(), &vec![DownloadError::ToolFailed { item_id: 200, code: Some(3) }]);
}
