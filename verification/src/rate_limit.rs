//! Latest rate-limit state reported by a coding agent.
//!
//! The agent emits a `rate_limit_event` on its stream. The payload is
//! account-wide rather than per-session, and it only arrives while an agent is
//! running, so it does not belong in a session transcript and cannot be polled
//! for. This keeps the most recent report per limit window.
//!
//! A payload looks like:
//!
//! ```json
//! {"status":"allowed","resetsAt":1788050400,"rateLimitType":"five_hour",
//!  "overageStatus":"rejected","isUsingOverage":false}
//! ```
//!
//! There is no utilisation percentage. The agent reports which window is in force,
//! whether requests are currently allowed, and when the window resets.
use vstd::prelude::*;

use crate::json;
use crate::json::{Json, JsonTree};
use crate::order;
use crate::order::Ranked;
use crate::text;
use crate::timestamp;

verus! {

/// What was last reported of one limit window.
#[derive(Debug, PartialEq, Eq)]
pub struct RateLimitSnapshot {
    /// Window this describes, e.g. `five_hour` or `weekly`. Also the store key,
    /// so windows do not overwrite each other.
    pub rate_limit_type: String,
    /// Agent-reported status, e.g. `allowed`. Anything else means requests are
    /// being refused.
    pub status: String,
    /// Unix epoch seconds at which this window resets.
    pub resets_at: Option<i64>,
    pub is_using_overage: Option<bool>,
    pub overage_status: Option<String>,
    /// When this was observed, so a consumer can tell stale reports from fresh
    /// ones.
    pub observed_at: String,
}

/// What a snapshot says.
pub struct SnapshotView {
    pub rate_limit_type: Seq<char>,
    pub status: Seq<char>,
    pub resets_at: Option<i64>,
    pub is_using_overage: Option<bool>,
    pub overage_status: Option<Seq<char>>,
    pub observed_at: Seq<char>,
}

impl View for RateLimitSnapshot {
    type V = SnapshotView;

    open spec fn view(&self) -> SnapshotView {
        SnapshotView {
            rate_limit_type: self.rate_limit_type@,
            status: self.status@,
            resets_at: self.resets_at,
            is_using_overage: self.is_using_overage,
            overage_status: text::view_opt(self.overage_status),
            observed_at: self.observed_at@,
        }
    }
}

impl Clone for RateLimitSnapshot {
    fn clone(&self) -> (copy: Self)
        ensures
            copy == *self,
    {
        RateLimitSnapshot {
            rate_limit_type: self.rate_limit_type.clone(),
            status: self.status.clone(),
            resets_at: self.resets_at,
            is_using_overage: self.is_using_overage,
            overage_status: match &self.overage_status {
                Some(s) => Some(s.clone()),
                None => None,
            },
            observed_at: self.observed_at.clone(),
        }
    }
}

/// Whether a window that resets at `a` stands no later in a list than one that
/// resets at `b`: the one that was reset most recently stands first, and one that
/// does not say when stands last.
pub open spec fn reset_no_earlier(a: Option<i64>, b: Option<i64>) -> bool {
    match (a, b) {
        (Some(a), Some(b)) => a >= b,
        (None, Some(_)) => false,
        _ => true,
    }
}

impl Ranked for RateLimitSnapshot {
    open spec fn rank(&self) -> int {
        match self.resets_at {
            Some(at) => -at,
            None => 0x1_0000_0000_0000_0000,
        }
    }

    fn compute_rank(&self) -> (rank: i128) {
        match self.resets_at {
            Some(at) => -(at as i128),
            None => 0x1_0000_0000_0000_0000,
        }
    }
}

/// The window that a payload is about; none where the payload names none.
pub open spec fn window_of(info: JsonTree) -> Option<Seq<char>> {
    match info.str_member("rateLimitType"@) {
        Some(window) => if window.len() > 0 {
            Some(window)
        } else {
            None
        },
        None => None,
    }
}

/// What a payload that was observed at `observed_at` says of the window `window`.
pub open spec fn reported(
    window: Seq<char>,
    info: JsonTree,
    observed_at: Seq<char>,
) -> SnapshotView {
    SnapshotView {
        rate_limit_type: window,
        status: match info.str_member("status"@) {
            Some(status) => status,
            None => "unknown"@,
        },
        resets_at: match info.get("resetsAt"@) {
            Some(value) => value.as_i64(),
            None => None,
        },
        is_using_overage: match info.get("isUsingOverage"@) {
            Some(value) => value.as_bool(),
            None => None,
        },
        overage_status: info.str_member("overageStatus"@),
        observed_at,
    }
}

/// The reports per window, after a payload that was observed at `observed_at`.
pub open spec fn recorded(
    windows: Map<Seq<char>, SnapshotView>,
    info: JsonTree,
    observed_at: Seq<char>,
) -> Map<Seq<char>, SnapshotView> {
    match window_of(info) {
        Some(window) => windows.insert(window, reported(window, info, observed_at)),
        None => windows,
    }
}

/// The latest report per window, from first to last seen.
pub struct RateLimitStore {
    windows: Vec<RateLimitSnapshot>,
}

/// The reports of `windows` by the window that they are about.
spec fn by_window(windows: Seq<RateLimitSnapshot>) -> Map<Seq<char>, SnapshotView>
    decreases windows.len(),
{
    if windows.len() == 0 {
        Map::empty()
    } else {
        by_window(windows.drop_last()).insert(windows.last().rate_limit_type@, windows.last()@)
    }
}

/// No two of `windows` are about one window.
pub open spec fn distinct_windows(windows: Seq<RateLimitSnapshot>) -> bool {
    forall|i: int, j: int|
        0 <= i < j < windows.len() ==> windows[i].rate_limit_type@ != windows[j].rate_limit_type@
}

impl View for RateLimitStore {
    type V = Map<Seq<char>, SnapshotView>;

    closed spec fn view(&self) -> Map<Seq<char>, SnapshotView> {
        by_window(self.windows@)
    }
}

impl RateLimitStore {
    /// There is one report per window.
    pub closed spec fn wf(&self) -> bool {
        distinct_windows(self.windows@)
    }
}

proof fn lemma_by_window_finds(windows: Seq<RateLimitSnapshot>, i: int)
    requires
        distinct_windows(windows),
        0 <= i < windows.len(),
    ensures
        by_window(windows).dom().contains(windows[i].rate_limit_type@),
        by_window(windows)[windows[i].rate_limit_type@] == windows[i]@,
    decreases windows.len(),
{
    if i < windows.len() - 1 {
        lemma_by_window_finds(windows.drop_last(), i);
    }
}

proof fn lemma_by_window_holds(windows: Seq<RateLimitSnapshot>, window: Seq<char>) -> (i: int)
    requires
        by_window(windows).dom().contains(window),
    ensures
        0 <= i < windows.len(),
        windows[i].rate_limit_type@ == window,
    decreases windows.len(),
{
    if windows.last().rate_limit_type@ == window {
        windows.len() - 1
    } else {
        lemma_by_window_holds(windows.drop_last(), window)
    }
}

proof fn lemma_by_window_update(windows: Seq<RateLimitSnapshot>, i: int, s: RateLimitSnapshot)
    requires
        distinct_windows(windows),
        0 <= i < windows.len(),
        windows[i].rate_limit_type@ == s.rate_limit_type@,
    ensures
        distinct_windows(windows.update(i, s)),
        by_window(windows.update(i, s)) == by_window(windows).insert(s.rate_limit_type@, s@),
    decreases windows.len(),
{
    let after = windows.update(i, s);
    if i < windows.len() - 1 {
        lemma_by_window_update(windows.drop_last(), i, s);
        assert(after.drop_last() =~= windows.drop_last().update(i, s));
    } else {
        assert(after.drop_last() =~= windows.drop_last());
    }
}

/// A store that has seen no report.
pub fn store() -> (store: RateLimitStore)
    ensures
        store.wf(),
        store@ == Map::<Seq<char>, SnapshotView>::empty(),
{
    RateLimitStore { windows: Vec::new() }
}

/// What a payload that was observed at `observed_at` reports; nothing where it
/// names no window.
pub fn snapshot_of(info: &Json, observed_at: String) -> (snapshot: Option<RateLimitSnapshot>)
    ensures
        match window_of(info@) {
            Some(window) => snapshot matches Some(s) && s@ == reported(
                window,
                info@,
                observed_at@,
            ),
            None => snapshot is None,
        },
{
    match info.str_member("rateLimitType") {
        Some(window) => {
            if window.is_empty() {
                return None;
            }
            let status = match info.str_member("status") {
                Some(status) => status.to_owned(),
                None => "unknown".to_owned(),
            };
            let resets_at = match info.get("resetsAt") {
                Some(value) => value.as_i64(),
                None => None,
            };
            let is_using_overage = match info.get("isUsingOverage") {
                Some(value) => value.as_bool(),
                None => None,
            };
            let overage_status = match info.str_member("overageStatus") {
                Some(status) => Some(status.to_owned()),
                None => None,
            };
            Some(
                RateLimitSnapshot {
                    rate_limit_type: window.to_owned(),
                    status,
                    resets_at,
                    is_using_overage,
                    overage_status,
                    observed_at,
                },
            )
        },
        None => None,
    }
}

/// Records a payload that was observed at `observed_at`. A payload that names no
/// window is ignored: this is telemetry for display, never worth failing a run
/// over.
pub fn record_at(store: &mut RateLimitStore, info: &Json, observed_at: String)
    requires
        old(store).wf(),
    ensures
        final(store).wf(),
        final(store)@ == recorded(old(store)@, info@, observed_at@),
{
    let snapshot = match snapshot_of(info, observed_at) {
        Some(snapshot) => snapshot,
        None => {
            return;
        },
    };
    let count: usize = store.windows.len();
    for i in 0..count
        invariant
            *store == *old(store),
            count == store.windows@.len(),
            forall|j: int|
                0 <= j < i ==> (#[trigger] store.windows@[j]).rate_limit_type@
                    != snapshot.rate_limit_type@,
            store.wf(),
            window_of(info@) == Some(snapshot.rate_limit_type@),
            snapshot@ == reported(snapshot.rate_limit_type@, info@, observed_at@),
    {
        if text::same(
            store.windows[i].rate_limit_type.as_str(),
            snapshot.rate_limit_type.as_str(),
        ) {
            proof {
                lemma_by_window_update(store.windows@, i as int, snapshot);
            }
            store.windows[i] = snapshot;
            return;
        }
    }
    store.windows.push(snapshot);
    assert(store.windows@.drop_last() =~= old(store).windows@);
}

/// Records a payload as observed now.
pub fn record(store: &mut RateLimitStore, info: &Json)
    requires
        old(store).wf(),
    ensures
        final(store).wf(),
        exists|observed_at: Seq<char>|
            timestamp::is_utc_time(observed_at) && final(store)@ == #[trigger] recorded(
                old(store)@,
                info@,
                observed_at,
            ),
{
    let now = timestamp::now_rfc3339();
    record_at(store, info, now);
}

/// The latest report of every window seen so far, most recently reset first; a
/// window that does not say when it resets stands last.
pub fn snapshots(store: &RateLimitStore) -> (list: Vec<RateLimitSnapshot>)
    requires
        store.wf(),
    ensures
        forall|i: int, j: int|
            0 <= i < j < list@.len() ==> reset_no_earlier(
                (#[trigger] list@[i])@.resets_at,
                (#[trigger] list@[j])@.resets_at,
            ),
        distinct_windows(list@),
        forall|i: int|
            0 <= i < list@.len() ==> store@.dom().contains(
                (#[trigger] list@[i]).rate_limit_type@,
            ) && store@[list@[i].rate_limit_type@] == list@[i]@,
        forall|window: Seq<char>| #[trigger]
            store@.dom().contains(window) ==> exists|i: int|
                0 <= i < list@.len() && (#[trigger] list@[i]).rate_limit_type@ == window,
{
    let mut list: Vec<RateLimitSnapshot> = Vec::new();
    for i in 0..store.windows.len()
        invariant
            list@ == store.windows@.take(i as int),
    {
        list.push(store.windows[i].clone());
    }
    let ghost kept = store.windows@;
    assert(list@ =~= kept);
    let list = order::stable_sort(list);
    proof {
        kept.lemma_multiset_has_no_duplicates();
        list@.lemma_multiset_has_no_duplicates_conv();
        assert forall|i: int| 0 <= i < list@.len() implies store@.dom().contains(
            (#[trigger] list@[i]).rate_limit_type@,
        ) && store@[list@[i].rate_limit_type@] == list@[i]@ && kept.contains(list@[i]) by {
            vstd::seq_lib::to_multiset_contains(list@, list@[i]);
            vstd::seq_lib::to_multiset_contains(kept, list@[i]);
            let k = choose|k: int| 0 <= k < kept.len() && kept[k] == list@[i];
            lemma_by_window_finds(kept, k);
        }
        assert forall|window: Seq<char>| #[trigger] store@.dom().contains(window) implies exists|
            i: int,
        |
            0 <= i < list@.len() && (#[trigger] list@[i]).rate_limit_type@ == window by {
            let k = lemma_by_window_holds(kept, window);
            vstd::seq_lib::to_multiset_contains(kept, kept[k]);
            vstd::seq_lib::to_multiset_contains(list@, kept[k]);
        }
    }
    list
}

} // verus!
