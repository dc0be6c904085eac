use core_api::feed::page::default_limit;
use core_api::feed::rank::{page_limit, rank_page, RankedItem};
use core_api::feed::rank::score_order_key;
use core_api::feed::cursor::{decode, FeedCursor};
use core_api::feed::page::select_page;

fn items() -> Vec<RankedItem> {
    vec![
        RankedItem { key: 5, id: 1 },
        RankedItem { key: 9, id: 2 },
        RankedItem { key: 5, id: 3 },
        RankedItem { key: 1, id: 4 },
        RankedItem { key: 9, id: 5 },
    ]
}

#[test]
fn feed_page_size_defaults_and_clamps() {
    assert_eq!(default_limit(), 50);
    assert_eq!(page_limit(0), 1);
    assert_eq!(page_limit(50), 50);
    assert_eq!(page_limit(101), 100);
}

#[test]
fn highest_key_first_then_newest_id() {
    let p = rank_page(&items(), None, 10);
    assert_eq!(p.indices, vec![4, 1, 2, 0, 3]);
    assert!(!p.has_more);
}

#[test]
fn pages_chain_without_gaps_or_duplicates() {
    let all = items();
    let first = rank_page(&all, None, 2);
    assert_eq!(first.indices, vec![4, 1]);
    assert!(first.has_more);
    let last = all[*first.indices.last().unwrap()];
    let second = rank_page(&all, Some((last.key, last.id)), 2);
    assert_eq!(second.indices, vec![2, 0]);
    assert!(second.has_more);
    let last = all[*second.indices.last().unwrap()];
    let third = rank_page(&all, Some((last.key, last.id)), 2);
    assert_eq!(third.indices, vec![3]);
    assert!(!third.has_more);
}

#[test]
fn order_keys_follow_the_scores() {
    let scores = [-3.5f64, -1.0, -0.0, 0.0, 0.25, 1.0, 2.0, 1e300];
    for w in scores.windows(2) {
        assert!(
            score_order_key(w[0].to_bits()) < score_order_key(w[1].to_bits()),
            "{} must rank below {}",
            w[0],
            w[1]
        );
    }
    assert_eq!(score_order_key(0.0f64.to_bits()), 1 << 63);
}

#[test]
fn a_full_page_carries_the_cursor_of_its_last_item() {
    let all = items();
    let bits: Vec<u64> = vec![10, 20, 30, 40, 50];
    let (page, cursor) = select_page(&all, &bits, None, 2, 1_700_000_000);
    assert_eq!(page.indices, vec![4, 1]);
    let c = decode(&cursor.unwrap()).unwrap();
    assert_eq!(c, FeedCursor { ranked_at: 1_700_000_000, score_bits: 20, last_id: 2 });
    let (last_page, none) = select_page(&all, &bits, None, 10, 1_700_000_000);
    assert!(!last_page.has_more);
    assert_eq!(none, None);
}
