//! Scenario tests for the preview generation worker, driven against an
//! in-memory catalog and a simulated previewer.

use media_artifacts::media::{MediaId, MediaRecord, ScannedRecord};
use media_artifacts::worker::{
    unprocessed_records, BeginOutcome, GeneratePreviews, GeneratePreviewsInput,
    GeneratePreviewsOutput, StoreError,
};

fn id(value: u64) -> MediaId {
    MediaId { value }
}

fn record(value: u64, preview: Option<&str>) -> MediaRecord {
    MediaRecord {
        id: id(value),
        source_path: format!("/pics/{}.jpg", value),
        preview_path: preview.map(|p| p.to_string()),
        proxy_path: None,
    }
}

/// What the scan phase hands the worker: each catalog record paired with
/// whether its recorded preview file is among the paths in `disk`.
fn scan(catalog: &[MediaRecord], disk: &[&str]) -> Vec<ScannedRecord> {
    catalog
        .iter()
        .map(|r| ScannedRecord {
            record: r.clone(),
            preview_on_disk: r
                .preview_path
                .as_ref()
                .is_some_and(|p| disk.contains(&p.as_str())),
        })
        .collect()
}

#[test]
fn filter_decides_what_needs_work() {
    let catalog = vec![
        record(1, None),
        record(2, Some("/previews/2.png")),
        record(3, Some("/previews/3.png")),
    ];
    // Only record 2's preview file actually exists on disk.
    let work = unprocessed_records(scan(&catalog, &["/previews/2.png"]));
    let ids: Vec<u64> = work.iter().map(|r| r.id.value).collect();
    assert_eq!(ids, vec![1, 3]);
}

#[test]
fn zero_work_cycle_emits_started_zero_then_completed() {
    let catalog = vec![record(1, Some("/previews/1.png")), record(2, Some("/previews/2.png"))];
    let disk = ["/previews/1.png", "/previews/2.png"];

    let mut worker = GeneratePreviews::new();
    let mut signals: Vec<GeneratePreviewsOutput> = Vec::new();

    match worker.update(GeneratePreviewsInput::Start, Ok(scan(&catalog, &disk))) {
        BeginOutcome::Begun(work, sig) => {
            assert!(work.is_empty());
            signals.push(sig);
        }
        other => panic!("expected the cycle to begin, got {:?}", other),
    }
    assert!(worker.is_complete());
    signals.push(worker.finish_cycle());

    assert_eq!(
        signals,
        vec![GeneratePreviewsOutput::Started(0), GeneratePreviewsOutput::Completed]
    );
}

#[test]
fn end_to_end_one_success_one_failure() {
    // Three records, two lacking previews; the previewer succeeds for one and
    // fails for the other.
    let mut catalog =
        vec![record(1, Some("/previews/1.png")), record(2, None), record(3, None)];
    let disk = ["/previews/1.png"];

    let mut worker = GeneratePreviews::new();
    let mut signals: Vec<GeneratePreviewsOutput> = Vec::new();

    let work = match worker.begin_cycle(Ok(scan(&catalog, &disk))) {
        BeginOutcome::Begun(work, sig) => {
            signals.push(sig);
            work
        }
        other => panic!("expected the cycle to begin, got {:?}", other),
    };
    assert_eq!(work.len(), 2);

    for (index, item) in work.iter().enumerate() {
        // The previewer succeeds only for record 2.
        if item.id.value == 2 {
            let path = format!("/previews/{}.png", item.id.value);
            // Compute -> write the record back -> only then the signal.
            let entry = catalog.iter_mut().find(|r| r.id == item.id).unwrap();
            entry.preview_path = Some(path.clone());
            signals.push(worker.item_succeeded(index, Some(path)));
        } else {
            worker.item_failed(index);
        }
    }
    assert!(worker.is_complete());
    signals.push(worker.finish_cycle());

    assert_eq!(
        signals,
        vec![
            GeneratePreviewsOutput::Started(2),
            GeneratePreviewsOutput::Generated(id(2), Some("/previews/2.png".to_string())),
            GeneratePreviewsOutput::Completed,
        ]
    );
    // Exactly one record gained a preview path; the failed one stays
    // unprocessed and will be retried next cycle.
    assert_eq!(catalog[1].preview_path, Some("/previews/2.png".to_string()));
    assert_eq!(catalog[2].preview_path, None);
}

#[test]
fn progress_accounting_started_equals_signals_plus_failures() {
    let catalog =
        vec![record(10, None), record(11, None), record(12, None), record(13, None)];

    let mut worker = GeneratePreviews::new();
    let started: usize;
    let work = match worker.begin_cycle(Ok(scan(&catalog, &[]))) {
        BeginOutcome::Begun(work, GeneratePreviewsOutput::Started(n)) => {
            started = n;
            work
        }
        other => panic!("expected the cycle to begin, got {:?}", other),
    };
    assert_eq!(started, 4);
    assert_eq!(work.len(), 4);

    // Results arrive in an order unrelated to submission order.
    let mut generated: usize = 0;
    let mut failures: usize = 0;
    for &(index, ok) in &[(2usize, true), (0usize, false), (3usize, true), (1usize, false)] {
        assert!(!worker.is_complete());
        if ok {
            let sig = worker.item_succeeded(index, None);
            assert_eq!(sig, GeneratePreviewsOutput::Generated(work[index].id, None));
            generated += 1;
        } else {
            worker.item_failed(index);
            failures += 1;
        }
    }
    assert!(worker.is_complete());
    assert_eq!(worker.finish_cycle(), GeneratePreviewsOutput::Completed);
    assert_eq!(started, generated + failures);
}

#[test]
fn store_failure_aborts_cycle_before_any_signal() {
    let mut worker = GeneratePreviews::new();
    match worker.begin_cycle(Err(StoreError::Unavailable)) {
        BeginOutcome::StoreUnavailable(e) => assert_eq!(e, StoreError::Unavailable),
        other => panic!("expected the cycle to abort, got {:?}", other),
    }
    // The worker is still idle: a later start runs normally.
    match worker.begin_cycle(Ok(scan(&[record(1, None)], &[]))) {
        BeginOutcome::Begun(work, sig) => {
            assert_eq!(work.len(), 1);
            assert_eq!(sig, GeneratePreviewsOutput::Started(1));
        }
        other => panic!("expected the cycle to begin, got {:?}", other),
    }
}

#[test]
fn reentrant_start_is_ignored_while_a_cycle_runs() {
    let mut worker = GeneratePreviews::new();
    match worker.begin_cycle(Ok(scan(&[record(1, None)], &[]))) {
        BeginOutcome::Begun(work, _) => assert_eq!(work.len(), 1),
        other => panic!("expected the cycle to begin, got {:?}", other),
    }
    // A second start while the first cycle is in flight must not begin a
    // second cycle against the same catalog.
    match worker.begin_cycle(Ok(scan(&[record(1, None)], &[]))) {
        BeginOutcome::AlreadyRunning => {}
        other => panic!("expected the start to be ignored, got {:?}", other),
    }
    // The original cycle is unaffected and completes normally.
    let sig = worker.item_succeeded(0, None);
    assert_eq!(sig, GeneratePreviewsOutput::Generated(id(1), None));
    assert!(worker.is_complete());
    assert_eq!(worker.finish_cycle(), GeneratePreviewsOutput::Completed);
}

#[derive(Debug, PartialEq)]
enum Event {
    Lock,
    Unlock,
    FetchAll,
    WriteOne,
    ComputeStart,
    ComputeEnd,
}

#[test]
fn no_catalog_lock_is_held_across_a_preview_computation() {
    // Instrumented run of one full cycle, logging every lock transition,
    // catalog operation and previewer computation window.
    let catalog = vec![record(1, None), record(2, None)];
    let mut log: Vec<Event> = Vec::new();
    let mut worker = GeneratePreviews::new();

    // Scanning: one brief lock around the snapshot, released before filtering.
    log.push(Event::Lock);
    log.push(Event::FetchAll);
    let snapshot = scan(&catalog, &[]);
    log.push(Event::Unlock);

    let work = match worker.begin_cycle(Ok(snapshot)) {
        BeginOutcome::Begun(work, _) => work,
        other => panic!("expected the cycle to begin, got {:?}", other),
    };

    // Fan-out: compute every preview with no catalog lock in sight.
    for _item in work.iter() {
        log.push(Event::ComputeStart);
        log.push(Event::ComputeEnd);
    }

    // Draining: one brief lock per item, around exactly one record write.
    for (index, _item) in work.iter().enumerate() {
        log.push(Event::Lock);
        log.push(Event::WriteOne);
        log.push(Event::Unlock);
        worker.item_succeeded(index, None);
    }
    worker.finish_cycle();

    // No lock acquisition overlaps a computation window, and every critical
    // section covers exactly one catalog operation.
    let mut lock_depth: usize = 0;
    let mut ops_in_section: usize = 0;
    for event in &log {
        match event {
            Event::Lock => {
                lock_depth += 1;
                ops_in_section = 0;
            }
            Event::Unlock => {
                assert_eq!(lock_depth, 1);
                assert_eq!(ops_in_section, 1);
                lock_depth -= 1;
            }
            Event::FetchAll | Event::WriteOne => {
                assert_eq!(lock_depth, 1);
                ops_in_section += 1;
            }
            Event::ComputeStart | Event::ComputeEnd => {
                assert_eq!(lock_depth, 0);
            }
        }
    }
    assert_eq!(lock_depth, 0);
}
