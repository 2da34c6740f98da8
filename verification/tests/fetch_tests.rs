use rbk_db::catalog::{catalog_order, file_name, table_name, TableId};
use rbk_db::fetch::{
    current_timestamp, decide_output, download_url, u64_text, FetchState, OutputDecision,
};

#[test]
fn concurrency_never_exceeds_four() {
    // Drive the admission machine greedily: hand out every task as soon as
    // a permit is free, and watch the in-flight count.
    let mut s = FetchState::new();
    let mut max_in_flight: usize = 0;
    let mut handed_out: Vec<usize> = Vec::new();
    while !s.done() {
        while s.can_start() {
            handed_out.push(s.start());
            if s.in_flight > max_in_flight {
                max_in_flight = s.in_flight;
            }
        }
        s.complete(true);
    }
    assert_eq!(max_in_flight, 4);
    assert_eq!(handed_out, (0..12).collect::<Vec<usize>>());
    assert!(s.succeeded());
    assert_eq!(s.completed, 12);
}

#[test]
fn one_failure_fails_the_whole_fetch() {
    let mut s = FetchState::new();
    for _ in 0..4 {
        s.start();
    }
    s.complete(true);
    s.complete(false);
    // The first failure ends the run: nothing more is handed out, the
    // coordinator stops waiting, and the run never reports success.
    assert!(!s.can_start());
    assert!(s.done());
    assert!(!s.succeeded());
    // Stragglers that still finish cannot redeem the run.
    s.complete(true);
    s.complete(true);
    assert!(!s.succeeded());
}

#[test]
fn download_urls_carry_resource_and_timestamp() {
    assert_eq!(
        download_url(TableId::Colors, 123),
        "https://cdn.rebrickable.com/media/downloads/colors.csv.gz?123"
    );
    assert_eq!(
        download_url(TableId::InventoryParts, 1700000000),
        "https://cdn.rebrickable.com/media/downloads/inventory_parts.csv.gz?1700000000"
    );
}

#[test]
fn resource_names_follow_table_names() {
    assert_eq!(table_name(TableId::PartCategories), "part_categories");
    assert_eq!(file_name(TableId::PartCategories), "part_categories.csv.gz");
    assert_eq!(file_name(TableId::Themes), "themes.csv.gz");
    let order = catalog_order();
    assert_eq!(order.len(), 12);
    assert_eq!(order[0], TableId::Inventories);
    assert_eq!(order[11], TableId::Themes);
}

#[test]
fn decimal_text_is_canonical() {
    assert_eq!(u64_text(0), "0");
    assert_eq!(u64_text(7), "7");
    assert_eq!(u64_text(1234567890), "1234567890");
    assert_eq!(u64_text(u64::MAX), "18446744073709551615");
}

#[test]
fn timestamp_is_available() {
    let t = current_timestamp().unwrap();
    assert!(t > 0);
}

#[test]
fn output_decision_follows_overwrite_flag() {
    assert_eq!(decide_output(false, false), OutputDecision::Proceed);
    assert_eq!(decide_output(false, true), OutputDecision::Proceed);
    assert_eq!(decide_output(true, true), OutputDecision::RemoveThenProceed);
    assert_eq!(decide_output(true, false), OutputDecision::Refuse);
}
