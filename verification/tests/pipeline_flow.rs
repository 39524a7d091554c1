use rapportage_downloader::backoff::Backoff;
use rapportage_downloader::ean::Ean;
use rapportage_downloader::id::Id;
use rapportage_downloader::pipeline::{
    receive_id, Discovery, Downloader, Pair, RecvPoll, ResolveEvent,
};
use rapportage_downloader::roster::{eans_from_rows, Error as RosterError};

fn ean(s: &str) -> Ean {
    Ean::new(s.to_string())
}

#[test]
fn backoff_doubles_on_failure_and_quarters_on_success() {
    let mut b = Backoff::new(1, 1_000_000);
    assert_eq!(b.current(), 1);
    let mut seen = Vec::new();
    for _ in 0..5 {
        b.on_failure();
        seen.push(b.current());
    }
    assert_eq!(seen, vec![2, 4, 8, 16, 32]);
    let mut seen = Vec::new();
    for _ in 0..3 {
        b.on_success();
        seen.push(b.current());
    }
    // 32 -> 8 -> 2 -> 2/4 = 0, clamped to the floor
    assert_eq!(seen, vec![8, 2, 1]);
}

#[test]
fn backoff_is_capped_at_the_ceiling() {
    let mut b = Backoff::new(3, 10);
    b.on_failure();
    assert_eq!(b.current(), 6);
    b.on_failure();
    assert_eq!(b.current(), 10);
    b.on_failure();
    assert_eq!(b.current(), 10);
    b.on_success();
    assert_eq!(b.current(), 3);
}

#[test]
fn discovery_emits_in_order_with_retries_in_between() {
    let seeds = vec![ean("e1"), ean("e2"), ean("e3")];
    let mut discovery = Discovery::new(seeds, Backoff::new(1, 1024));
    let mut emitted: Vec<Pair> = Vec::new();

    // first seed resolves at once
    assert_eq!(discovery.current_ean().value(), "e1");
    let p = discovery
        .step(ResolveEvent::Resolved { id: Id(11), reverse_ean: ean("e1") })
        .expect("matching pair is emitted");
    emitted.push(p);

    // second seed fails twice, so its emission waits behind two doubled
    // backoff intervals, then succeeds
    assert_eq!(discovery.current_ean().value(), "e2");
    assert!(discovery.step(ResolveEvent::Failed).is_none());
    assert_eq!(discovery.backoff.current, 2);
    assert!(discovery.step(ResolveEvent::Failed).is_none());
    assert_eq!(discovery.backoff.current, 4);
    let p = discovery
        .step(ResolveEvent::Resolved { id: Id(22), reverse_ean: ean("e2") })
        .expect("matching pair is emitted after retries");
    emitted.push(p);

    // third seed resolves at once
    let p = discovery
        .step(ResolveEvent::Resolved { id: Id(33), reverse_ean: ean("e3") })
        .expect("matching pair is emitted");
    emitted.push(p);
    assert!(discovery.is_done());

    let order: Vec<(String, u32)> = emitted
        .iter()
        .map(|p| (p.ean.value().to_string(), p.id.value()))
        .collect();
    assert_eq!(
        order,
        vec![
            ("e1".to_string(), 11),
            ("e2".to_string(), 22),
            ("e3".to_string(), 33)
        ]
    );
}

#[test]
fn mismatched_reverse_ean_is_rejected_not_emitted() {
    let seeds = vec![ean("e1")];
    let mut discovery = Discovery::new(seeds, Backoff::new(1, 1024));
    // the reverse lookup hands back a different EAN: the pair must be
    // rejected and the seed retried
    let r = discovery.step(ResolveEvent::Resolved { id: Id(99), reverse_ean: ean("other") });
    assert!(r.is_none());
    assert!(!discovery.is_done());
    assert_eq!(discovery.backoff.current, 2);
    // once the round trip agrees, the pair goes through
    let p = discovery
        .step(ResolveEvent::Resolved { id: Id(12), reverse_ean: ean("e1") })
        .unwrap();
    assert_eq!(p.ean.value(), "e1");
    assert_eq!(p.id, Id(12));
    assert!(discovery.is_done());
}

#[test]
fn receive_id_tracks_the_sender() {
    let mut closed = false;
    assert_eq!(receive_id(RecvPoll::Item(7u32), &mut closed), Some(7));
    assert!(!closed);
    assert_eq!(receive_id(RecvPoll::<u32>::Empty, &mut closed), None);
    assert!(!closed);
    assert_eq!(receive_id(RecvPoll::<u32>::Disconnected, &mut closed), None);
    assert!(closed);
    assert_eq!(receive_id(RecvPoll::Item(9u32), &mut closed), None);
    assert!(closed);
}

#[test]
fn download_stage_visits_all_pairs_round_robin() {
    let mut downloader = Downloader::new(Backoff::new(1, 1024));

    // nothing to do while the queue is empty and the producer lives
    assert!(downloader.begin_cycle(Vec::new(), false).is_none());

    // three pairs arrive, then the producer closes
    let arrivals = vec![
        Pair { ean: ean("e1"), id: Id(11) },
        Pair { ean: ean("e2"), id: Id(22) },
        Pair { ean: ean("e3"), id: Id(33) },
    ];
    let mut visited: Vec<u32> = Vec::new();
    let p = downloader.begin_cycle(arrivals, true).expect("a target exists");
    visited.push(p.id.value());
    downloader.finish_cycle(true);
    for _ in 0..6 {
        let p = downloader
            .begin_cycle(Vec::new(), true)
            .expect("the stage never runs dry once pairs exist");
        visited.push(p.id.value());
        downloader.finish_cycle(true);
    }
    // round-robin order, wrapping indefinitely
    assert_eq!(visited, vec![11, 22, 33, 11, 22, 33, 11]);
}

#[test]
fn failed_download_repeats_the_same_pair() {
    let mut downloader = Downloader::new(Backoff::new(1, 1024));
    let arrivals = vec![
        Pair { ean: ean("e1"), id: Id(11) },
        Pair { ean: ean("e2"), id: Id(22) },
    ];
    let p = downloader.begin_cycle(arrivals, true).unwrap();
    assert_eq!(p.id, Id(11));
    // the download failed: the cursor stays put
    downloader.finish_cycle(false);
    let p = downloader.begin_cycle(Vec::new(), true).unwrap();
    assert_eq!(p.id, Id(11));
    downloader.finish_cycle(true);
    let p = downloader.begin_cycle(Vec::new(), true).unwrap();
    assert_eq!(p.id, Id(22));
}

#[test]
fn backoff_grows_while_the_download_stage_idles() {
    let mut downloader = Downloader::new(Backoff::new(1, 8));
    assert!(downloader.begin_cycle(Vec::new(), false).is_none());
    assert_eq!(downloader.backoff.current, 2);
    assert!(downloader.begin_cycle(Vec::new(), false).is_none());
    assert_eq!(downloader.backoff.current, 4);
    assert!(downloader.begin_cycle(Vec::new(), false).is_none());
    assert!(downloader.begin_cycle(Vec::new(), false).is_none());
    // capped at the ceiling
    assert_eq!(downloader.backoff.current, 8);
}

fn row(cells: &[&str]) -> Vec<String> {
    cells.iter().map(|c| c.to_string()).collect()
}

#[test]
fn roster_keeps_active_rows_with_nonblank_eans() {
    let rows = vec![
        row(&["EAN code", "Status", "Name"]),
        row(&[" 111 ", "Actief", "a"]),
        row(&["222", "Inactief", "b"]),
        row(&["   ", "Actief", "c"]),
        row(&["333", " Actief ", "d"]),
    ];
    let eans = eans_from_rows(&rows).unwrap();
    let values: Vec<&str> = eans.iter().map(|e| e.value()).collect();
    // kept EANs stay exactly as the sheet rendered them
    assert_eq!(values, vec![" 111 ", "333"]);
}

#[test]
fn roster_last_ean_column_wins_and_every_status_column_counts() {
    let rows = vec![
        row(&["EAN code", "Status", "EAN code", "Status"]),
        row(&["first", "Actief", "second", "Actief"]),
        row(&["third", "Actief", "fourth", "Inactief"]),
    ];
    let eans = eans_from_rows(&rows).unwrap();
    let values: Vec<&str> = eans.iter().map(|e| e.value()).collect();
    // the rightmost EAN column supplies the value; one inactive status
    // column drops the row
    assert_eq!(values, vec!["second"]);
}

#[test]
fn roster_without_ean_column_keeps_nothing() {
    let rows = vec![row(&["Other", "Status"]), row(&["x", "Actief"])];
    let eans = eans_from_rows(&rows).unwrap();
    assert!(eans.is_empty());
}

#[test]
fn empty_worksheet_is_an_error() {
    let rows: Vec<Vec<String>> = Vec::new();
    assert_eq!(eans_from_rows(&rows).unwrap_err(), RosterError::ValueMissing);
}
