use tantivy_search::search::collector::heap::sort_entries;
use tantivy_search::search::collector::ranking::comes_before;
use tantivy_search::search::collector::ranking::rank_of_score;
use tantivy_search::RowIdWithScore;

fn entry(row_id: u64, score: f32, seg_id: u32, doc_id: u32) -> RowIdWithScore {
    RowIdWithScore { row_id, score_bits: score.to_bits(), seg_id, doc_id, docs: Vec::new() }
}

#[test]
fn rank_of_score_has_the_stated_values() {
    assert_eq!(rank_of_score(0), 0x8000_0000);
    assert_eq!(rank_of_score(1.0f32.to_bits()), 0xBF80_0000);
    assert_eq!(rank_of_score(0x7FFF_FFFF), 0xFFFF_FFFF);
    assert_eq!(rank_of_score(0x8000_0000), 0x7FFF_FFFF);
    assert_eq!(rank_of_score((-1.0f32).to_bits()), 0x407F_FFFF);
    assert_eq!(rank_of_score(0xFFFF_FFFF), 0);
}

#[test]
fn rank_of_score_orders_as_the_scores_do() {
    let scores = [
        f32::NEG_INFINITY,
        -1.0e30,
        -2.5,
        -1.0,
        -1.0e-30,
        -0.0,
        0.0,
        1.0e-30,
        0.5,
        1.0,
        1.0000001,
        2.5,
        7.25,
        1.0e30,
        f32::INFINITY,
    ];
    for a in scores {
        for b in scores {
            let by_rank = rank_of_score(a.to_bits()).cmp(&rank_of_score(b.to_bits()));
            assert_eq!(by_rank, a.total_cmp(&b), "{} against {}", a, b);
        }
    }
}

#[test]
fn higher_score_comes_first() {
    assert!(comes_before(&entry(9, 2.0, 0, 0), &entry(1, 1.0, 0, 0)));
    assert!(!comes_before(&entry(1, 1.0, 0, 0), &entry(9, 2.0, 0, 0)));
}

#[test]
fn equal_scores_are_ordered_by_row_then_segment_then_document() {
    assert!(comes_before(&entry(1, 1.0, 5, 5), &entry(2, 1.0, 0, 0)));
    assert!(!comes_before(&entry(2, 1.0, 0, 0), &entry(1, 1.0, 5, 5)));
    assert!(comes_before(&entry(1, 1.0, 0, 9), &entry(1, 1.0, 1, 0)));
    assert!(!comes_before(&entry(1, 1.0, 1, 0), &entry(1, 1.0, 0, 9)));
    assert!(comes_before(&entry(1, 1.0, 1, 3), &entry(1, 1.0, 1, 4)));
    assert!(!comes_before(&entry(1, 1.0, 1, 4), &entry(1, 1.0, 1, 3)));
    assert!(comes_before(&entry(1, 1.0, 1, 3), &entry(1, 1.0, 1, 3)));
}

#[test]
fn sort_entries_ranks_best_first() {
    let mut entries = vec![
        entry(4, 0.5, 0, 0),
        entry(2, 3.0, 0, 1),
        entry(7, 1.5, 1, 0),
        entry(1, 3.0, 1, 1),
        entry(9, 0.0, 1, 2),
        entry(3, 9.0, 2, 0),
    ];
    sort_entries(&mut entries);
    let rows: Vec<u64> = entries.iter().map(|e| e.row_id).collect();
    assert_eq!(rows, vec![3, 1, 2, 7, 4, 9]);
}

#[test]
fn sort_entries_keeps_every_entry() {
    let mut state: u64 = 12345;
    let mut entries = Vec::new();
    for i in 0..500u32 {
        state = state.wrapping_mul(6364136223846793005).wrapping_add(1442695040888963407);
        let score = ((state >> 40) % 50) as f32 / 4.0;
        entries.push(entry((state >> 20) % 100, score, i % 3, i));
    }
    let mut expected: Vec<(u32, u64, u32, u32)> =
        entries.iter().map(|e| (u32::MAX - rank_of_score(e.score_bits), e.row_id, e.seg_id, e.doc_id)).collect();
    expected.sort();
    sort_entries(&mut entries);
    let sorted: Vec<(u32, u64, u32, u32)> =
        entries.iter().map(|e| (u32::MAX - rank_of_score(e.score_bits), e.row_id, e.seg_id, e.doc_id)).collect();
    assert_eq!(sorted, expected);
}

#[test]
fn sort_entries_takes_empty_and_single() {
    let mut none: Vec<RowIdWithScore> = Vec::new();
    sort_entries(&mut none);
    assert!(none.is_empty());
    let mut one = vec![entry(1, 1.0, 0, 0)];
    sort_entries(&mut one);
    assert_eq!(one.len(), 1);
    assert_eq!(one[0].row_id, 1);
}
