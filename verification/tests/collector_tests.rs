use std::sync::Arc;

use tantivy_search::search::collector::merge::merge_ranked;
use tantivy_search::search::collector::row_filter::RowFilter;
use tantivy_search::search::collector::row_id_bitmap_collector::RowIdRoaringCollector;
use tantivy_search::search::collector::row_id_sets::bitmap_from_ids;
use tantivy_search::search::collector::row_id_sets::treemap_from_ids;
use tantivy_search::search::collector::segment_collect::keep_all;
use tantivy_search::search::collector::segment_collect::keep_best;
use tantivy_search::search::collector::stored_text::first_texts;
use tantivy_search::search::collector::stored_text::texts_of_read;
use tantivy_search::search::collector::top_docs_with_bitmap_collector::TopDocsWithFilter;
use tantivy_search::search::collector::top_docs_with_treemap_collector::TopDocsWithFilter64;
use tantivy_search::search::collector::unlimited_docs_with_treemap_collector::UnlimitedDocsWithFilter64;
use tantivy_search::search::collector::unlimited_docs_with_treemap_collector::UnlimitedDocsWithFilter64SegmentCollector;
use tantivy_search::search::index_access::Candidate;
use tantivy_search::search::index_access::StoredValue;
use tantivy_search::RowIdWithScore;

fn candidate(doc_id: u32, score: f32, row_id: u64) -> Candidate {
    Candidate { doc_id, score_bits: score.to_bits(), row_id, deleted: false }
}

fn deleted(doc_id: u32, score: f32, row_id: u64) -> Candidate {
    Candidate { doc_id, score_bits: score.to_bits(), row_id, deleted: true }
}

fn entry(row_id: u64, score: f32, seg_id: u32, doc_id: u32) -> RowIdWithScore {
    RowIdWithScore { row_id, score_bits: score.to_bits(), seg_id, doc_id, docs: Vec::new() }
}

fn rows(entries: &[RowIdWithScore]) -> Vec<u64> {
    entries.iter().map(|e| e.row_id).collect()
}

fn sorted_rows(entries: &[RowIdWithScore]) -> Vec<u64> {
    let mut rows = rows(entries);
    rows.sort();
    rows
}

fn scores(entries: &[RowIdWithScore]) -> Vec<f32> {
    entries.iter().map(|e| f32::from_bits(e.score_bits)).collect()
}

#[test]
fn unbounded_collector_keeps_every_survivor_in_scan_order() {
    let collector = UnlimitedDocsWithFilter64::with_default()
        .with_alive(Arc::new(treemap_from_ids(&vec![1, 2, 3, 4, 5, 6])))
        .with_range((2, 6));
    let candidates = vec![
        candidate(0, 1.0, 1),
        candidate(1, 0.5, 2),
        candidate(2, 9.0, 7),
        deleted(3, 8.0, 3),
        candidate(4, 2.0, 5),
        candidate(5, 3.0, 6),
        candidate(6, 0.25, 4),
    ];
    let fruit = collector.collect_candidates(&candidates, 3);
    assert_eq!(rows(&fruit), vec![2, 5, 4]);
    assert_eq!(scores(&fruit), vec![0.5, 2.0, 0.25]);
    assert!(fruit.iter().all(|e| e.seg_id == 3));
    assert_eq!(fruit.iter().map(|e| e.doc_id).collect::<Vec<u32>>(), vec![1, 4, 6]);
    assert!(fruit.iter().all(|e| e.docs.is_empty()));
}

#[test]
fn unbounded_collector_has_no_cap() {
    let collector = UnlimitedDocsWithFilter64::with_default();
    let candidates: Vec<Candidate> = (0..10_000u32).map(|i| candidate(i, 1.0, i as u64)).collect();
    let fruit = collector.collect_candidates(&candidates, 0);
    assert_eq!(fruit.len(), 10_000);
    assert_eq!(rows(&fruit), (0..10_000u64).collect::<Vec<u64>>());
}

#[test]
fn unbounded_collector_of_nothing_is_empty() {
    let collector = UnlimitedDocsWithFilter64::with_default();
    assert!(collector.collect_candidates(&Vec::new(), 0).is_empty());
    assert!(keep_all(&RowFilter::unfiltered(), &Vec::new(), 0).is_empty());
}

#[test]
fn bounded_collector_keeps_the_best_of_a_segment() {
    let collector = TopDocsWithFilter64::with_limit(3);
    let candidates = vec![
        candidate(0, 1.0, 10),
        candidate(1, 5.0, 11),
        candidate(2, 3.0, 12),
        candidate(3, 4.0, 13),
        candidate(4, 2.0, 14),
        candidate(5, 6.0, 15),
    ];
    let fruit = collector.collect_candidates(&candidates, 0);
    assert_eq!(fruit.len(), 3);
    assert_eq!(sorted_rows(&fruit), vec![11, 13, 15]);
}

#[test]
fn bounded_collector_never_returns_more_than_its_limit() {
    for limit in 0..8usize {
        let collector = TopDocsWithFilter64::with_limit(limit);
        let candidates: Vec<Candidate> =
            (0..5u32).map(|i| candidate(i, (i % 3) as f32, i as u64)).collect();
        let fruit = collector.collect_candidates(&candidates, 0);
        assert_eq!(fruit.len(), limit.min(5));
    }
}

#[test]
fn bounded_collector_with_limit_zero_keeps_nothing() {
    let collector = TopDocsWithFilter64::with_limit(0);
    let fruit = collector.collect_candidates(&vec![candidate(0, 1.0, 1)], 0);
    assert!(fruit.is_empty());
}

#[test]
fn bounded_collector_filters_before_it_ranks() {
    let collector = TopDocsWithFilter64::with_limit(2)
        .with_alive(Arc::new(treemap_from_ids(&vec![1, 2, 3])))
        .with_range((1, 3));
    let candidates = vec![
        candidate(0, 9.0, 3),
        candidate(1, 8.0, 7),
        candidate(2, 1.0, 1),
        deleted(3, 7.0, 2),
        candidate(4, 0.5, 2),
    ];
    let fruit = collector.collect_candidates(&candidates, 0);
    assert_eq!(sorted_rows(&fruit), vec![1, 2]);
}

#[test]
fn bounded_collector_breaks_ties_by_row_id() {
    let collector = TopDocsWithFilter64::with_limit(2);
    let candidates = vec![
        candidate(0, 1.0, 30),
        candidate(1, 1.0, 10),
        candidate(2, 1.0, 40),
        candidate(3, 1.0, 20),
    ];
    let fruit = collector.collect_candidates(&candidates, 0);
    assert_eq!(sorted_rows(&fruit), vec![10, 20]);
}

#[test]
fn bounded_collector_with_room_for_all_keeps_what_the_unbounded_keeps() {
    let filter_ids = vec![0u64, 2, 4, 6, 8, 10, 12];
    let candidates: Vec<Candidate> =
        (0..13u32).map(|i| candidate(i, (i * 7 % 5) as f32, i as u64)).collect();
    let unbounded = UnlimitedDocsWithFilter64::with_default()
        .with_alive(Arc::new(treemap_from_ids(&filter_ids)))
        .collect_candidates(&candidates, 1);
    for limit in [7usize, 8, 100] {
        let bounded = TopDocsWithFilter64::with_limit(limit)
            .with_alive(Arc::new(treemap_from_ids(&filter_ids)))
            .collect_candidates(&candidates, 1);
        assert_eq!(sorted_rows(&bounded), sorted_rows(&unbounded));
    }
}

#[test]
fn bounded_collector_agrees_with_sorting_all_survivors() {
    let mut state: u64 = 99;
    let mut candidates = Vec::new();
    for i in 0..400u32 {
        state = state.wrapping_mul(6364136223846793005).wrapping_add(1442695040888963407);
        let score = ((state >> 33) % 1000) as f32 / 8.0;
        let row_id = (state >> 12) % 100_000;
        candidates.push(Candidate {
            doc_id: i,
            score_bits: score.to_bits(),
            row_id,
            deleted: state % 7 == 0,
        });
    }
    let filter = RowFilter { alive: None, range: Some((1_000, 90_000)) };
    let mut all = keep_all(&filter, &candidates, 2);
    all.sort_by(|a, b| {
        f32::from_bits(b.score_bits)
            .total_cmp(&f32::from_bits(a.score_bits))
            .then(a.row_id.cmp(&b.row_id))
            .then(a.doc_id.cmp(&b.doc_id))
    });
    for limit in [1usize, 2, 17, 64, 399, 1000] {
        let mut best = keep_best(&filter, limit, &candidates, 2);
        best.sort_by(|a, b| {
            f32::from_bits(b.score_bits)
                .total_cmp(&f32::from_bits(a.score_bits))
                .then(a.row_id.cmp(&b.row_id))
                .then(a.doc_id.cmp(&b.doc_id))
        });
        let expected: Vec<(u64, u32)> =
            all.iter().take(limit).map(|e| (e.row_id, e.doc_id)).collect();
        let got: Vec<(u64, u32)> = best.iter().map(|e| (e.row_id, e.doc_id)).collect();
        assert_eq!(got, expected, "limit {}", limit);
    }
}

#[test]
fn bounded_collector_for_32_bit_ids_filters_by_bitmap() {
    let collector =
        TopDocsWithFilter::with_limit(5).with_alive(Arc::new(bitmap_from_ids(&vec![1, 3])));
    let candidates = vec![
        candidate(0, 1.0, 1),
        candidate(1, 2.0, 2),
        candidate(2, 3.0, 3),
        candidate(3, 4.0, (1u64 << 32) + 1),
    ];
    let fruit = collector.collect_candidates(&candidates, 0);
    assert_eq!(sorted_rows(&fruit), vec![1, 3]);
    assert!(collector.is_alive(3));
    assert!(!collector.is_alive(2));
}

#[test]
fn merging_ranks_all_entries_of_all_segments() {
    let collector = TopDocsWithFilter64::with_limit(2);
    let children = vec![
        vec![entry(1, 1.0, 0, 0), entry(2, 4.0, 0, 1)],
        Vec::new(),
        vec![entry(3, 3.0, 2, 0), entry(4, 5.0, 2, 1)],
        vec![entry(5, 2.0, 3, 0)],
    ];
    let merged = collector.merge_fruits(children).unwrap();
    assert_eq!(rows(&merged), vec![4, 2, 3, 5, 1]);
    assert_eq!(scores(&merged), vec![5.0, 4.0, 3.0, 2.0, 1.0]);
}

#[test]
fn merging_breaks_ties_by_row_id() {
    let children = vec![
        vec![entry(8, 1.0, 0, 0), entry(3, 1.0, 0, 1)],
        vec![entry(5, 1.0, 1, 0), entry(1, 2.0, 1, 1), entry(3, 1.0, 1, 2)],
    ];
    let merged = merge_ranked(children);
    assert_eq!(rows(&merged), vec![1, 3, 3, 5, 8]);
    assert_eq!(merged[1].seg_id, 0);
    assert_eq!(merged[2].seg_id, 1);
}

#[test]
fn merging_nothing_gives_nothing() {
    assert!(merge_ranked(Vec::new()).is_empty());
    assert!(merge_ranked(vec![Vec::new(), Vec::new()]).is_empty());
    let unbounded = UnlimitedDocsWithFilter64::with_default();
    assert!(unbounded.merge_fruits(Vec::new()).unwrap().is_empty());
}

#[test]
fn merging_keeps_stored_text_with_its_entry() {
    let mut with_text = entry(1, 1.0, 0, 0);
    with_text.docs = vec!["one".to_string()];
    let mut other = entry(2, 2.0, 1, 0);
    other.docs = vec!["two".to_string(), "".to_string()];
    let merged = merge_ranked(vec![vec![with_text], vec![other]]);
    assert_eq!(merged[0].row_id, 2);
    assert_eq!(merged[0].docs, vec!["two".to_string(), "".to_string()]);
    assert_eq!(merged[1].docs, vec!["one".to_string()]);
}

#[test]
fn merging_is_the_same_as_sorting_the_concatenation() {
    let mut state: u64 = 7;
    let mut children = Vec::new();
    let mut all = Vec::new();
    for seg in 0..6u32 {
        let mut child = Vec::new();
        for doc in 0..(seg * 13 % 40) {
            state = state.wrapping_mul(6364136223846793005).wrapping_add(1442695040888963407);
            let e = entry((state >> 30) % 50, ((state >> 20) % 9) as f32, seg, doc);
            all.push((e.row_id, e.score_bits, e.seg_id, e.doc_id));
            child.push(e);
        }
        children.push(child);
    }
    all.sort_by(|a, b| {
        f32::from_bits(b.1).total_cmp(&f32::from_bits(a.1)).then(a.0.cmp(&b.0)).then(a.2.cmp(&b.2)).then(a.3.cmp(&b.3))
    });
    let merged = merge_ranked(children);
    let got: Vec<(u64, u32, u32, u32)> =
        merged.iter().map(|e| (e.row_id, e.score_bits, e.seg_id, e.doc_id)).collect();
    assert_eq!(got, all);
}

#[test]
fn builders_configure_the_collector() {
    let collector = UnlimitedDocsWithFilter64::with_default();
    assert!(collector.filter.alive.is_none());
    assert!(collector.filter.range.is_none());
    assert!(collector.text.searcher.is_none());
    assert!(collector.text.text_fields.is_none());
    assert!(!collector.text.need_text);
    assert!(collector.requires_scoring());
    let collector = collector.with_range((3, 9)).with_stored_text(true).with_text_fields(Vec::new());
    assert_eq!(collector.filter.range, Some((3, 9)));
    assert!(collector.text.need_text);
    assert!(collector.text.text_fields.is_some());
    assert!(collector.is_alive(3));
    assert!(!collector.is_alive(9));
    assert!(collector.extract_doc_text(0, 0).is_empty());
    let bounded = TopDocsWithFilter64::with_limit(4).with_range((0, 1));
    assert_eq!(bounded.limit, 4);
    assert!(bounded.is_alive(0));
    assert!(!bounded.is_alive(1));
    let default = UnlimitedDocsWithFilter64::default();
    assert!(default.filter.alive.is_none() && default.filter.range.is_none());
}

#[test]
fn segment_collector_collects_nothing() {
    let mut child = UnlimitedDocsWithFilter64SegmentCollector();
    child.collect(3, 1.0f32.to_bits());
    assert!(child.harvest().is_empty());
}

#[test]
fn row_id_collector_gathers_the_ids_of_documents_that_are_not_deleted() {
    let collector = RowIdRoaringCollector::with_field("row_id".to_string());
    assert!(!collector.requires_scoring());
    let ids = collector.collect_candidates(&vec![
        candidate(0, 1.0, 4),
        deleted(1, 1.0, 5),
        candidate(2, 1.0, 4),
        candidate(3, 1.0, 9),
        candidate(4, 1.0, (1u64 << 32) + 6),
        candidate(5, 1.0, u32::MAX as u64),
    ]);
    assert_eq!(ids.iter().collect::<Vec<u32>>(), vec![4, 9, u32::MAX]);
}

#[test]
fn row_id_collector_merges_by_union() {
    let collector = RowIdRoaringCollector::with_field("row_id".to_string());
    let merged = collector
        .merge_fruits(vec![bitmap_from_ids(&vec![1, 2]), bitmap_from_ids(&vec![]), bitmap_from_ids(&vec![2, 7])])
        .unwrap();
    assert_eq!(merged.iter().collect::<Vec<u32>>(), vec![1, 2, 7]);
    assert!(collector.merge_fruits(Vec::new()).unwrap().is_empty());
}

#[test]
fn stored_text_is_taken_per_column() {
    let texts = first_texts(&vec![
        StoredValue::Text("red fox".to_string()),
        StoredValue::Absent,
        StoredValue::NotText,
        StoredValue::Text("".to_string()),
    ]);
    assert_eq!(texts, vec!["red fox".to_string(), "".to_string(), "".to_string()]);
    assert!(first_texts(&Vec::new()).is_empty());
    assert!(first_texts(&vec![StoredValue::Absent]).is_empty());
}

#[test]
fn texts_of_a_document_that_could_not_be_read_are_none() {
    assert!(texts_of_read(None).is_empty());
}

#[test]
fn texts_of_a_document_that_was_read_are_those_of_its_values() {
    let texts = texts_of_read(Some(vec![
        StoredValue::NotText,
        StoredValue::Text("red fox".to_string()),
        StoredValue::Absent,
    ]));
    assert_eq!(texts, vec!["".to_string(), "red fox".to_string()]);
    assert!(texts_of_read(Some(Vec::new())).is_empty());
}

#[test]
fn failed_scan_is_handed_on_by_every_collector() {
    let failure = || tantivy::TantivyError::InvalidArgument("scan failed".to_string());
    let said = failure().to_string();
    let unbounded = UnlimitedDocsWithFilter64::with_default();
    assert_eq!(unbounded.collect_scanned(Err(failure()), 0).unwrap_err().to_string(), said);
    let bounded = TopDocsWithFilter64::with_limit(3);
    assert_eq!(bounded.collect_scanned(Err(failure()), 0).unwrap_err().to_string(), said);
    let bounded_32 = TopDocsWithFilter::with_limit(3);
    assert_eq!(bounded_32.collect_scanned(Err(failure()), 0).unwrap_err().to_string(), said);
    let row_ids = RowIdRoaringCollector::with_field("row_id".to_string());
    assert_eq!(row_ids.collect_scanned(Err(failure())).unwrap_err().to_string(), said);
}

#[test]
fn scan_that_succeeded_gives_what_the_collector_keeps() {
    let scanned = || {
        Ok(vec![candidate(0, 1.0, 5), deleted(1, 9.0, 6), candidate(2, 3.0, 7), candidate(3, 2.0, 8)])
    };
    let unbounded = UnlimitedDocsWithFilter64::with_default().with_range((5, 8));
    assert_eq!(rows(&unbounded.collect_scanned(scanned(), 4).unwrap()), vec![5, 7]);
    let bounded = TopDocsWithFilter64::with_limit(2);
    let best = bounded.collect_scanned(scanned(), 4).unwrap();
    assert_eq!(sorted_rows(&best), vec![7, 8]);
    assert!(best.iter().all(|e| e.seg_id == 4));
    let bounded_32 = TopDocsWithFilter::with_limit(1);
    assert_eq!(rows(&bounded_32.collect_scanned(scanned(), 0).unwrap()), vec![7]);
    let row_ids = RowIdRoaringCollector::with_field("row_id".to_string());
    assert_eq!(
        row_ids.collect_scanned(scanned()).unwrap().iter().collect::<Vec<u32>>(),
        vec![5, 7, 8]
    );
    assert!(unbounded.collect_scanned(Ok(Vec::new()), 0).unwrap().is_empty());
}

#[test]
fn merging_does_not_depend_on_how_the_entries_are_split_over_segments() {
    let entries = || {
        vec![
            entry(7, 1.5, 0, 0),
            entry(3, 4.0, 0, 1),
            entry(9, 0.25, 1, 0),
            entry(1, 2.0, 2, 0),
            entry(5, 3.0, 2, 1),
            entry(2, 9.0, 2, 2),
        ]
    };
    let key = |merged: Vec<RowIdWithScore>| {
        merged
            .iter()
            .map(|e| (e.row_id, e.score_bits, e.seg_id, e.doc_id))
            .collect::<Vec<(u64, u32, u32, u32)>>()
    };
    let as_one = key(merge_ranked(vec![entries()]));
    assert_eq!(as_one.iter().map(|k| k.0).collect::<Vec<u64>>(), vec![2, 3, 5, 1, 7, 9]);
    let mut one_each = Vec::new();
    for e in entries() {
        one_each.push(vec![e]);
    }
    assert_eq!(key(merge_ranked(one_each)), as_one);
    let mut all = entries();
    let back = all.split_off(2);
    assert_eq!(key(merge_ranked(vec![back, Vec::new(), all])), as_one);
    let mut reversed = entries();
    reversed.reverse();
    let tail = reversed.split_off(4);
    assert_eq!(key(merge_ranked(vec![reversed, tail])), as_one);
}

#[test]
fn bounded_collector_keeps_the_first_of_what_the_unbounded_keeps_ranked() {
    let candidates: Vec<Candidate> = (0..40u32)
        .map(|i| Candidate {
            doc_id: i,
            score_bits: (((i * 37) % 11) as f32).to_bits(),
            row_id: ((i * 13) % 40) as u64,
            deleted: i % 9 == 0,
        })
        .collect();
    let filter = || RowFilter { alive: None, range: Some((3, 35)) };
    let all = merge_ranked(vec![keep_all(&filter(), &candidates, 0)]);
    for limit in [0usize, 1, 5, 20, 39, 40, 100] {
        let best = merge_ranked(vec![keep_best(&filter(), limit, &candidates, 0)]);
        assert_eq!(best.len(), limit.min(all.len()));
        assert_eq!(rows(&best), rows(&all[..best.len()]));
    }
}
