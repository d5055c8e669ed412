//! What the launcher sees: plugin info, candidates, and the outcome of a selection.

use crate::config::Config;
use crate::ranking::{is_ranking, rank_scores, window_scores, ScoredWindow, WindowInfo};
use crate::scoring::score;
use vstd::prelude::*;

verus! {

/// The name and icon under which the launcher lists the plugin.
pub struct PluginInfo {
    pub name: String,
    pub icon: String,
}

/// One candidate shown to the user.
pub struct Match {
    pub title: String,
    pub icon: Option<String>,
    pub description: Option<String>,
    pub id: Option<u64>,
    pub use_pango: bool,
}

/// How a window is picked out when a candidate is chosen.
pub enum WindowSelector {
    /// Every window whose class matches the pattern.
    ClassRegularExpression(String),
}

/// What the launcher does after a selection.
pub enum HandleResult {
    Close,
    Refresh(bool),
}

/// The plugin's name and icon.
pub fn info() -> (r: PluginInfo)
    ensures
        r.name@ == "Windows"@,
        r.icon@ == "window-symbolic"@,
{
    PluginInfo { name: String::from_str("Windows"), icon: String::from_str("window-symbolic") }
}

/// The score of each window's class against `query`.
pub fn score_windows(query: &str, windows: &Vec<WindowInfo>) -> (r: Vec<Option<i64>>)
    ensures
        r@ == window_scores(query@, windows@),
        query@.len() == 0 ==> forall|i: int| 0 <= i < r@.len() ==> r@[i] == Some(0i64),
{
    let mut r: Vec<Option<i64>> = Vec::new();
    let mut i: usize = 0;
    while i < windows.len()
        invariant
            i <= windows@.len(),
            r@ =~= window_scores(query@, windows@).take(i as int),
            query@.len() == 0 ==> forall|t: int| 0 <= t < r@.len() ==> r@[t] == Some(0i64),
        decreases windows@.len() - i,
    {
        let s = score(query, windows[i].class.as_str());
        r.push(s);
        i += 1;
    }
    assert(window_scores(query@, windows@).take(i as int) =~= window_scores(query@, windows@));
    r
}

/// Ranks `windows` against `query`, keeping at most `max_entries`. An empty
/// query scores 0 everywhere and so ranks nothing.
pub fn rank(query: &str, windows: &Vec<WindowInfo>, max_entries: usize) -> (r: Vec<ScoredWindow>)
    ensures
        is_ranking(window_scores(query@, windows@), max_entries as nat, r@),
        query@.len() == 0 ==> r@.len() == 0,
        max_entries == 0 ==> r@.len() == 0,
{
    let scores = score_windows(query, windows);
    let r = rank_scores(&scores, max_entries);
    proof {
        if query@.len() == 0 && r@.len() > 0 {
            assert(scores@[r@[0].index as int] == Some(0i64));
        }
    }
    r
}

/// The ranked windows for the user's `input` under `config`.
pub fn get_matches(input: &str, windows: &Vec<WindowInfo>, config: &Config) -> (r: Vec<ScoredWindow>)
    ensures
        is_ranking(window_scores(input@, windows@), config.max_entries as nat, r@),
        input@.len() == 0 ==> r@.len() == 0,
        config.max_entries == 0 ==> r@.len() == 0,
{
    rank(input, windows, config.max_entries)
}

/// The candidate for a window of class `class` with the icon found for it, if any.
pub fn to_match(class: &String, icon: Option<String>) -> (r: Match)
    ensures
        r.title@ == class@,
        r.icon == icon,
        r.description is None,
        r.id is None,
        !r.use_pango,
{
    Match { title: class.clone(), icon, description: None, id: None, use_pango: false }
}

/// The candidates for the ranked windows, in ranking order; `icons[i]` is the
/// icon found for the window of `ranked[i]`. A window without an icon is
/// listed all the same.
pub fn candidates(windows: &Vec<WindowInfo>, ranked: &Vec<ScoredWindow>, icons: Vec<Option<String>>) -> (r: Vec<Match>)
    requires
        icons@.len() == ranked@.len(),
        forall|i: int| 0 <= i < ranked@.len() ==> (#[trigger] ranked@[i]).index < windows@.len(),
    ensures
        r@.len() == ranked@.len(),
        forall|i: int|
            0 <= i < r@.len() ==> {
                &&& (#[trigger] r@[i]).title@ == windows@[ranked@[i].index as int].class@
                &&& r@[i].icon == icons@[i]
                &&& r@[i].description is None
                &&& r@[i].id is None
                &&& !r@[i].use_pango
            },
{
    let mut r: Vec<Match> = Vec::new();
    let mut icons = icons;
    let ghost all_icons = icons@;
    let mut i: usize = 0;
    while i < ranked.len()
        invariant
            i <= ranked@.len(),
            all_icons.len() == ranked@.len(),
            icons@ == all_icons.subrange(i as int, all_icons.len() as int),
            forall|t: int| 0 <= t < ranked@.len() ==> (#[trigger] ranked@[t]).index < windows@.len(),
            r@.len() == i,
            forall|t: int|
                0 <= t < i ==> {
                    &&& (#[trigger] r@[t]).title@ == windows@[ranked@[t].index as int].class@
                    &&& r@[t].icon == all_icons[t]
                    &&& r@[t].description is None
                    &&& r@[t].id is None
                    &&& !r@[t].use_pango
                },
        decreases ranked@.len() - i,
    {
        let icon = icons.remove(0);
        let m = to_match(&windows[ranked[i].index].class, icon);
        r.push(m);
        i += 1;
    }
    r
}

/// The selector for a chosen candidate: its title, read as a pattern over
/// window classes.
pub fn selector(selection: &Match) -> (r: WindowSelector)
    ensures
        r matches WindowSelector::ClassRegularExpression(p) && p@ == selection.title@,
{
    WindowSelector::ClassRegularExpression(selection.title.clone())
}

/// The outcome of a selection: the launcher closes whether or not the window
/// could be focused.
pub fn handler(focused: bool) -> (r: HandleResult)
    ensures
        r is Close,
{
    HandleResult::Close
}

} // verus!
