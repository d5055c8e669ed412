use hyprwindows::config::Config;
use hyprwindows::plugin::{get_matches, rank, score_windows};
use hyprwindows::ranking::{rank_scores, ScoredWindow, WindowInfo};
use hyprwindows::scoring::score;

fn windows(classes: &[&str]) -> Vec<WindowInfo> {
    classes.iter().map(|c| WindowInfo { class: c.to_string() }).collect()
}

fn sample() -> Vec<WindowInfo> {
    windows(&["Firefox", "firefox-esr", "kitty"])
}

fn sw(index: usize, score: i64) -> ScoredWindow {
    ScoredWindow { index, score }
}

#[test]
fn fire_matches_both_firefox_windows() {
    let r = rank("fire", &sample(), 5);
    assert_eq!(r.len(), 2);
    let mut idx: Vec<usize> = r.iter().map(|s| s.index).collect();
    idx.sort();
    assert_eq!(idx, vec![0, 1]);
    assert!(r[0].score >= r[1].score);
    assert!(r.iter().all(|s| s.score > 0));
}

#[test]
fn cap_of_one_keeps_the_best_firefox() {
    let all = rank("fire", &sample(), 5);
    let one = rank("fire", &sample(), 1);
    assert_eq!(one.len(), 1);
    assert_eq!(one[0], all[0]);
    assert!(one[0].index == 0 || one[0].index == 1);
}

#[test]
fn unmatched_query_ranks_nothing() {
    assert!(rank("zzz", &sample(), 5).is_empty());
}

#[test]
fn empty_query_ranks_nothing() {
    assert!(rank("", &sample(), 5).is_empty());
    assert_eq!(score("", "kitty"), Some(0));
}

#[test]
fn cap_of_zero_ranks_nothing() {
    assert!(rank("fire", &sample(), 0).is_empty());
}

#[test]
fn scores_follow_the_matcher() {
    let s = score_windows("fire", &sample());
    assert_eq!(s.len(), 3);
    assert!(s[0].unwrap() > 0);
    assert!(s[1].unwrap() > 0);
    assert_eq!(s[2], None);
    assert_eq!(s[0], score("fire", "Firefox"));
}

#[test]
fn smart_case_respects_an_uppercase_query() {
    assert!(score("Fire", "Firefox").is_some());
    assert_eq!(score("Fire", "firefox-esr"), None);
    let r = rank("Fire", &sample(), 5);
    assert_eq!(r.len(), 1);
    assert_eq!(r[0].index, 0);
}

#[test]
fn subsequence_with_gaps_matches() {
    assert!(score("ktt", "kitty").unwrap() > 0);
    assert_eq!(score("ttk", "kitty"), None);
}

#[test]
fn rank_scores_orders_by_score_then_position() {
    let scores = vec![Some(3), None, Some(0), Some(7), Some(3), Some(-1), Some(7)];
    assert_eq!(rank_scores(&scores, 10), vec![sw(3, 7), sw(6, 7), sw(0, 3), sw(4, 3)]);
    assert_eq!(rank_scores(&scores, 3), vec![sw(3, 7), sw(6, 7), sw(0, 3)]);
    assert_eq!(rank_scores(&scores, 0), vec![]);
}

#[test]
fn rank_scores_on_no_windows() {
    assert_eq!(rank_scores(&vec![], 5), vec![]);
    assert_eq!(rank_scores(&vec![None, Some(0)], 5), vec![]);
}

#[test]
fn get_matches_uses_the_configured_cap() {
    let r = get_matches("fire", &sample(), &Config { max_entries: 1 });
    assert_eq!(r, rank("fire", &sample(), 1));
    assert!(get_matches("", &sample(), &Config { max_entries: 5 }).is_empty());
}
