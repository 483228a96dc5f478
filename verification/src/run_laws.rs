//! What holds of scans and of runs of the import as a whole.
use vstd::prelude::*;

use crate::discovery;
use crate::import_run;
use crate::import_run::RunView;
use crate::timestamp::Timestamp;
use crate::transcript::DiscoveredSession;

verus! {

/// The sessions of a run that are to be imported or refreshed, in order.
pub open spec fn selection(
    sessions: Seq<DiscoveredSession>,
    existing: Set<Seq<char>>,
    wanted: Option<Set<Seq<char>>>,
    refresh: bool,
) -> Seq<DiscoveredSession> {
    sessions.filter(
        |s: DiscoveredSession|
            import_run::selected(s.claude_session_id@, existing, wanted, refresh),
    )
}

/// A run takes a session if and only if it is wanted, and is not stored or the run
/// refreshes. A run that is restricted to a list of ids takes no other, and takes all of
/// the list that are not stored; a run without restriction wants all.
pub proof fn law_who_is_taken(
    id: Seq<char>,
    existing: Set<Seq<char>>,
    wanted: Set<Seq<char>>,
    refresh: bool,
)
    ensures
        import_run::selected(id, existing, Some(wanted), refresh) <==> wanted.contains(id) && (
        refresh || !existing.contains(id)),
        import_run::selected(id, existing, None, refresh) <==> refresh || !existing.contains(id),
{
}

/// A restricted run hands out exactly the sessions that were found, whose id is in the
/// list, and which are not stored or are to be refreshed.
pub proof fn law_a_restricted_run_keeps_to_its_list(
    sessions: Seq<DiscoveredSession>,
    existing: Set<Seq<char>>,
    wanted: Set<Seq<char>>,
    refresh: bool,
    s: DiscoveredSession,
)
    ensures
        selection(sessions, existing, Some(wanted), refresh).contains(s) <==> {
            &&& sessions.contains(s)
            &&& wanted.contains(s.claude_session_id@)
            &&& refresh || !existing.contains(s.claude_session_id@)
        },
        selection(sessions, existing, None, refresh).contains(s) <==> {
            &&& sessions.contains(s)
            &&& refresh || !existing.contains(s.claude_session_id@)
        },
{
    lemma_selection_holds(sessions, existing, Some(wanted), refresh, s);
    lemma_selection_holds(sessions, existing, None, refresh, s);
}

/// A run judges each session by itself, and hands them out in the order in which they
/// were found.
pub proof fn law_selections_add_up(
    a: Seq<DiscoveredSession>,
    b: Seq<DiscoveredSession>,
    existing: Set<Seq<char>>,
    wanted: Option<Set<Seq<char>>>,
    refresh: bool,
)
    ensures
        selection(a + b, existing, wanted, refresh) == selection(a, existing, wanted, refresh)
            + selection(b, existing, wanted, refresh),
    decreases b.len(),
{
    let f = |s: DiscoveredSession|
        import_run::selected(s.claude_session_id@, existing, wanted, refresh);
    Seq::filter_distributes_over_add(a, b, f);
}

/// A request wants the ids of its list, and all where it has none.
pub proof fn law_what_a_request_wants(request: import_run::ImportRequest, id: Seq<char>)
    ensures
        request.session_ids is None <==> import_run::wanted_ids(request) is None,
        request.session_ids matches Some(list) ==> (import_run::wanted_ids(
            request,
        )->Some_0.contains(id) <==> exists|i: int| 0 <= i < list@.len() && (#[trigger] list@[i])@
            == id),
{
    if let Some(list) = request.session_ids {
        let ids = list@.map_values(|t: String| t@);
        if exists|i: int| 0 <= i < list@.len() && (#[trigger] list@[i])@ == id {
            let i = choose|i: int| 0 <= i < list@.len() && (#[trigger] list@[i])@ == id;
            assert(ids[i] == id);
        }
        if ids.contains(id) {
            let i = choose|i: int| 0 <= i < ids.len() && ids[i] == id;
            assert(list@[i]@ == id);
        }
    }
}

/// Whether a run takes the session at `i`.
pub open spec fn takes(run: RunView, i: int) -> bool {
    let id = run.sessions[i].claude_session_id@;
    &&& run.refresh || !run.existing.contains(id)
    &&& run.wanted matches Some(wanted) ==> wanted.contains(id)
}

/// A run starts with nothing done.
pub proof fn law_runs_start_with_nothing_done(
    existing: Set<Seq<char>>,
    wanted: Option<Set<Seq<char>>>,
    refresh: bool,
    sessions: Seq<DiscoveredSession>,
)
    ensures
        ({
            let run = import_run::run_start(existing, wanted, refresh, sessions);
            &&& run.existing == existing && run.wanted == wanted && run.refresh == refresh
            &&& run.sessions == sessions
            &&& run.position == 0 && run.imported == 0 && run.refreshed == 0 && run.skipped == 0
            &&& run.failed.len() == 0
        }),
{
}

/// A run passes over the sessions that it does not take, up to the next that it does, or
/// to the end. Each that it passes over is skipped, and nothing else changes.
pub proof fn law_runs_pass_over_what_they_do_not_take(run: RunView)
    requires
        run.position <= run.sessions.len(),
    ensures
        ({
            let ready = run.advanced();
            &&& run.position <= ready.position <= run.sessions.len()
            &&& forall|i: int| run.position <= i < ready.position ==> !#[trigger] takes(run, i)
            &&& ready.position < run.sessions.len() ==> takes(run, ready.position as int)
            &&& ready.skipped == run.skipped + ready.position - run.position
            &&& ready.existing == run.existing && ready.wanted == run.wanted
            &&& ready.refresh == run.refresh && ready.sessions == run.sessions
            &&& ready.imported == run.imported && ready.refreshed == run.refreshed
            &&& ready.failed == run.failed
            &&& run.pending() <==> run.position < run.sessions.len() && takes(
                run,
                run.position as int,
            )
        }),
    decreases run.sessions.len() - run.position,
{
    if run.position < run.sessions.len() && !run.pending() {
        let passed = RunView { position: run.position + 1, skipped: run.skipped + 1, ..run };
        law_runs_pass_over_what_they_do_not_take(passed);
        assert forall|i: int| run.position <= i < run.advanced().position implies !#[trigger] takes(
            run,
            i,
        ) by {
            if i > run.position {
                assert(!takes(passed, i));
            }
        }
        let ready = run.advanced();
        if ready.position < run.sessions.len() {
            assert(takes(passed, ready.position as int));
        }
    }
}

/// A session that is settled counts once: as failed, under its id, as refreshed where it
/// was stored, or else as imported. Nothing else changes.
pub proof fn law_sessions_count_once(run: RunView, ok: bool)
    requires
        run.position < run.sessions.len(),
    ensures
        ({
            let id = run.sessions[run.position as int].claude_session_id@;
            let after = run.settled(ok);
            let stored = run.existing.contains(id);
            &&& after.position == run.position + 1
            &&& after.failed == (if ok {
                run.failed
            } else {
                run.failed.push(id)
            })
            &&& after.refreshed == run.refreshed + (if ok && stored {
                1int
            } else {
                0
            })
            &&& after.imported == run.imported + (if ok && !stored {
                1int
            } else {
                0
            })
            &&& after.skipped == run.skipped
            &&& after.existing == run.existing && after.wanted == run.wanted
            &&& after.refresh == run.refresh && after.sessions == run.sessions
            &&& run.stored(run.position as int) == stored
        }),
{
}

/// How many sessions succeeded, of those that were there before (`stored`) or of
/// those that were not.
pub open spec fn count_ok(
    chosen: Seq<DiscoveredSession>,
    oks: Seq<bool>,
    existing: Set<Seq<char>>,
    stored: bool,
) -> nat
    decreases oks.len(),
{
    if oks.len() == 0 || chosen.len() == 0 {
        0
    } else {
        (if oks.first() && existing.contains(chosen.first().claude_session_id@) == stored {
            1nat
        } else {
            0nat
        }) + count_ok(chosen.drop_first(), oks.drop_first(), existing, stored)
    }
}

/// The ids of the sessions that failed, in order.
pub open spec fn failed_ids(chosen: Seq<DiscoveredSession>, oks: Seq<bool>) -> Seq<Seq<char>>
    decreases oks.len(),
{
    if oks.len() == 0 || chosen.len() == 0 {
        seq![]
    } else {
        (if oks.first() {
            seq![]
        } else {
            seq![chosen.first().claude_session_id@]
        }) + failed_ids(chosen.drop_first(), oks.drop_first())
    }
}

/// A run that is told, for each session that it hands out, how it went.
pub open spec fn driven(run: RunView, oks: Seq<bool>) -> RunView
    decreases oks.len(),
{
    let ready = run.advanced();
    if oks.len() == 0 || !ready.pending() {
        ready
    } else {
        driven(ready.settled(oks.first()), oks.drop_first())
    }
}

/// The selection among the sessions from `p` on.
spec fn selection_from(run: RunView, p: int) -> Seq<DiscoveredSession> {
    selection(run.sessions.skip(p), run.existing, run.wanted, run.refresh)
}

proof fn lemma_selection_unfolds(run: RunView, p: int)
    requires
        0 <= p < run.sessions.len(),
    ensures
        selection_from(run, p) == (if import_run::selected(
            run.id(p),
            run.existing,
            run.wanted,
            run.refresh,
        ) {
            seq![run.sessions[p]] + selection_from(run, p + 1)
        } else {
            selection_from(run, p + 1)
        }),
{
    let f = |s: DiscoveredSession|
        import_run::selected(s.claude_session_id@, run.existing, run.wanted, run.refresh);
    let one = seq![run.sessions[p]];
    assert(run.sessions.skip(p) =~= one + run.sessions.skip(p + 1));
    Seq::filter_distributes_over_add(one, run.sessions.skip(p + 1), f);
    reveal_with_fuel(Seq::filter, 2);
}

proof fn lemma_selection_ends(run: RunView)
    ensures
        selection_from(run, run.sessions.len() as int).len() == 0,
{
    reveal(Seq::filter);
}

/// Passing over sessions that are left as they are leaves the selection.
proof fn lemma_advanced(run: RunView)
    requires
        run.position <= run.sessions.len(),
    ensures
        ({
            let ready = run.advanced();
            &&& run.position <= ready.position <= run.sessions.len()
            &&& ready == (RunView {
                position: ready.position,
                skipped: (run.skipped + ready.position - run.position) as nat,
                ..run
            })
            &&& ready.pending() || ready.position == run.sessions.len()
            &&& selection_from(run, run.position as int) == selection_from(
                run,
                ready.position as int,
            )
        }),
    decreases run.sessions.len() - run.position,
{
    if run.position < run.sessions.len() && !run.pending() {
        let passed = RunView { position: run.position + 1, skipped: run.skipped + 1, ..run };
        lemma_advanced(passed);
        lemma_selection_unfolds(run, run.position as int);
    }
}

proof fn lemma_driven(run: RunView, oks: Seq<bool>)
    requires
        run.position <= run.sessions.len(),
        oks.len() == selection_from(run, run.position as int).len(),
    ensures
        ({
            let end = driven(run, oks);
            let chosen = selection_from(run, run.position as int);
            &&& end.position == run.sessions.len()
            &&& end.imported == run.imported + count_ok(chosen, oks, run.existing, false)
            &&& end.refreshed == run.refreshed + count_ok(chosen, oks, run.existing, true)
            &&& end.failed == run.failed + failed_ids(chosen, oks)
            &&& end.skipped == run.skipped + (run.sessions.len() - run.position) - oks.len()
        }),
    decreases oks.len(),
{
    let ready = run.advanced();
    let chosen = selection_from(run, run.position as int);
    lemma_advanced(run);
    if ready.position < run.sessions.len() {
        lemma_selection_unfolds(run, ready.position as int);
        let next = ready.settled(oks.first());
        assert(chosen.drop_first() =~= selection_from(run, next.position as int));
        lemma_driven(next, oks.drop_first());
    } else {
        lemma_selection_ends(run);
    }
}

/// A run that is told how each session went ends with every session dealt with: it
/// has imported those that are not there yet and are wanted, has refreshed those
/// that are there, are wanted and are asked for, reports those among them that
/// failed, in order, and has skipped all others.
pub proof fn law_run_report(
    existing: Set<Seq<char>>,
    wanted: Option<Set<Seq<char>>>,
    refresh: bool,
    sessions: Seq<DiscoveredSession>,
    oks: Seq<bool>,
)
    requires
        oks.len() == selection(sessions, existing, wanted, refresh).len(),
    ensures
        ({
            let end = driven(import_run::run_start(existing, wanted, refresh, sessions), oks);
            let chosen = selection(sessions, existing, wanted, refresh);
            &&& end.position == sessions.len()
            &&& end.imported == count_ok(chosen, oks, existing, false)
            &&& end.refreshed == count_ok(chosen, oks, existing, true)
            &&& end.failed == failed_ids(chosen, oks)
            &&& end.skipped == sessions.len() - chosen.len()
            &&& end.imported + end.refreshed + end.skipped + end.failed.len() == sessions.len()
        }),
{
    let start = import_run::run_start(existing, wanted, refresh, sessions);
    let chosen = selection(sessions, existing, wanted, refresh);
    assert(sessions.skip(0) =~= sessions);
    lemma_driven(start, oks);
    lemma_ok_or_failed(chosen, oks, existing);
}

proof fn lemma_ok_or_failed(
    chosen: Seq<DiscoveredSession>,
    oks: Seq<bool>,
    existing: Set<Seq<char>>,
)
    requires
        chosen.len() == oks.len(),
    ensures
        count_ok(chosen, oks, existing, false) + count_ok(chosen, oks, existing, true)
            + failed_ids(chosen, oks).len() == oks.len(),
    decreases oks.len(),
{
    if oks.len() > 0 {
        lemma_ok_or_failed(chosen.drop_first(), oks.drop_first(), existing);
    }
}

/// A session that did not succeed is reported.
proof fn lemma_failed_is_reported(chosen: Seq<DiscoveredSession>, oks: Seq<bool>, i: int)
    requires
        chosen.len() == oks.len(),
        0 <= i < oks.len(),
        !oks[i],
    ensures
        failed_ids(chosen, oks).contains(chosen[i].claude_session_id@),
    decreases oks.len(),
{
    let rest = failed_ids(chosen.drop_first(), oks.drop_first());
    let all = failed_ids(chosen, oks);
    let id = chosen[i].claude_session_id@;
    if i == 0 {
        assert(all[0] == id);
    } else {
        lemma_failed_is_reported(chosen.drop_first(), oks.drop_first(), i - 1);
        let k = choose|k: int| 0 <= k < rest.len() && rest[k] == id;
        assert(all[all.len() - rest.len() + k] == id);
    }
}

/// What is selected was there to be selected.
proof fn lemma_selection_holds(
    sessions: Seq<DiscoveredSession>,
    existing: Set<Seq<char>>,
    wanted: Option<Set<Seq<char>>>,
    refresh: bool,
    s: DiscoveredSession,
)
    ensures
        selection(sessions, existing, wanted, refresh).contains(s) <==> sessions.contains(s)
            && import_run::selected(s.claude_session_id@, existing, wanted, refresh),
    decreases sessions.len(),
{
    reveal(Seq::filter);
    if sessions.len() > 0 {
        lemma_selection_holds(sessions.drop_last(), existing, wanted, refresh, s);
    }
}

proof fn lemma_none_stored(
    chosen: Seq<DiscoveredSession>,
    oks: Seq<bool>,
    existing: Set<Seq<char>>,
)
    requires
        forall|i: int|
            0 <= i < chosen.len() ==> !existing.contains((#[trigger] chosen[i]).claude_session_id@),
    ensures
        count_ok(chosen, oks, existing, true) == 0,
    decreases oks.len(),
{
    if oks.len() > 0 && chosen.len() > 0 {
        assert forall|i: int| 0 <= i < chosen.drop_first().len() implies !existing.contains(
            (#[trigger] chosen.drop_first()[i]).claude_session_id@,
        ) by {
            assert(chosen.drop_first()[i] == chosen[i + 1]);
        }
        lemma_none_stored(chosen.drop_first(), oks.drop_first(), existing);
    }
}

/// A run that is not asked to refresh leaves what is stored as it is, whatever ids it
/// is asked for: it hands out no session that is there.
pub proof fn law_what_is_stored_is_left(
    existing: Set<Seq<char>>,
    wanted: Option<Set<Seq<char>>>,
    sessions: Seq<DiscoveredSession>,
    oks: Seq<bool>,
)
    requires
        oks.len() == selection(sessions, existing, wanted, false).len(),
    ensures
        forall|i: int|
            0 <= i < selection(sessions, existing, wanted, false).len() ==> !existing.contains(
                (#[trigger] selection(sessions, existing, wanted, false)[i]).claude_session_id@,
            ),
        driven(import_run::run_start(existing, wanted, false, sessions), oks).refreshed == 0,
{
    let chosen = selection(sessions, existing, wanted, false);
    assert forall|i: int| 0 <= i < chosen.len() implies !existing.contains(
        (#[trigger] chosen[i]).claude_session_id@,
    ) by {
        lemma_selection_holds(sessions, existing, wanted, false, chosen[i]);
        assert(chosen.contains(chosen[i]));
    }
    lemma_none_stored(chosen, oks, existing);
    law_run_report(existing, wanted, false, sessions, oks);
}

/// A run that is asked to refresh, without restriction, hands out every session that
/// was found, those that are stored too.
pub proof fn law_refresh_reaches_every_session(
    sessions: Seq<DiscoveredSession>,
    existing: Set<Seq<char>>,
)
    ensures
        selection(sessions, existing, None, true) == sessions,
    decreases sessions.len(),
{
    reveal(Seq::filter);
    if sessions.len() > 0 {
        law_refresh_reaches_every_session(sessions.drop_last(), existing);
    }
}

/// A refresh is not an import: where all succeeds, the sessions that were there are
/// counted as refreshed, and only the others as imported.
pub proof fn law_stored_sessions_are_refreshed(
    existing: Set<Seq<char>>,
    sessions: Seq<DiscoveredSession>,
    oks: Seq<bool>,
)
    requires
        oks.len() == sessions.len(),
        forall|i: int|
            0 <= i < sessions.len() ==> existing.contains(
                (#[trigger] sessions[i]).claude_session_id@,
            ),
        forall|i: int| 0 <= i < oks.len() ==> #[trigger] oks[i],
    ensures
        ({
            let end = driven(import_run::run_start(existing, None, true, sessions), oks);
            &&& end.refreshed == sessions.len()
            &&& end.imported == 0
            &&& end.skipped == 0
            &&& end.failed.len() == 0
        }),
{
    law_refresh_reaches_every_session(sessions, existing);
    law_run_report(existing, None, true, sessions, oks);
    lemma_all_refreshed(sessions, oks, existing);
}

proof fn lemma_all_refreshed(
    chosen: Seq<DiscoveredSession>,
    oks: Seq<bool>,
    existing: Set<Seq<char>>,
)
    requires
        chosen.len() == oks.len(),
        forall|i: int|
            0 <= i < chosen.len() ==> existing.contains((#[trigger] chosen[i]).claude_session_id@),
        forall|i: int| 0 <= i < oks.len() ==> #[trigger] oks[i],
    ensures
        count_ok(chosen, oks, existing, true) == oks.len(),
    decreases oks.len(),
{
    if oks.len() > 0 {
        assert forall|i: int| 0 <= i < chosen.drop_first().len() implies existing.contains(
            (#[trigger] chosen.drop_first()[i]).claude_session_id@,
        ) by {
            assert(chosen.drop_first()[i] == chosen[i + 1]);
        }
        assert forall|i: int| 0 <= i < oks.drop_first().len() implies #[trigger]
        oks.drop_first()[i] by {
            assert(oks.drop_first()[i] == oks[i + 1]);
        }
        lemma_all_refreshed(chosen.drop_first(), oks.drop_first(), existing);
    }
}

/// `then_existing` are ids that are stored after a run: those that were there before,
/// and those of the sessions that it stored.
pub open spec fn stored_after(
    existing: Set<Seq<char>>,
    wanted: Option<Set<Seq<char>>>,
    refresh: bool,
    sessions: Seq<DiscoveredSession>,
    oks: Seq<bool>,
    then_existing: Set<Seq<char>>,
) -> bool {
    &&& oks.len() == selection(sessions, existing, wanted, refresh).len()
    &&& existing.subset_of(then_existing)
    &&& forall|i: int|
        0 <= i < oks.len() && oks[i] ==> then_existing.contains(
            (#[trigger] selection(sessions, existing, wanted, refresh)[i]).claude_session_id@,
        )
}

/// A second run over the same sessions, which asks for nothing that the first did not
/// ask for, tries only what the first one failed to store.
pub proof fn law_only_failures_are_tried_again(
    existing: Set<Seq<char>>,
    wanted: Option<Set<Seq<char>>>,
    refresh: bool,
    sessions: Seq<DiscoveredSession>,
    oks: Seq<bool>,
    then_existing: Set<Seq<char>>,
    then_wanted: Option<Set<Seq<char>>>,
)
    requires
        stored_after(existing, wanted, refresh, sessions, oks, then_existing),
        wanted is None || then_wanted == wanted,
    ensures
        forall|s: DiscoveredSession| #[trigger]
            selection(sessions, then_existing, then_wanted, false).contains(s) ==> failed_ids(
                selection(sessions, existing, wanted, refresh),
                oks,
            ).contains(s.claude_session_id@),
{
    let chosen = selection(sessions, existing, wanted, refresh);
    assert forall|s: DiscoveredSession| #[trigger]
        selection(sessions, then_existing, then_wanted, false).contains(s) implies failed_ids(
        chosen,
        oks,
    ).contains(s.claude_session_id@) by {
        lemma_selection_holds(sessions, then_existing, then_wanted, false, s);
        lemma_selection_holds(sessions, existing, wanted, refresh, s);
        let i = choose|i: int| 0 <= i < chosen.len() && chosen[i] == s;
        lemma_failed_is_reported(chosen, oks, i);
    }
}

/// The import is idempotent: after a run without failures, a second run over the same
/// sessions hands out nothing: it imports nothing, refreshes nothing, fails at
/// nothing, and skips all that the first one dealt with. After a run without
/// restriction that is so whatever ids the second one is asked for.
pub proof fn law_second_run_imports_nothing(
    existing: Set<Seq<char>>,
    wanted: Option<Set<Seq<char>>>,
    refresh: bool,
    sessions: Seq<DiscoveredSession>,
    oks: Seq<bool>,
    then_existing: Set<Seq<char>>,
    then_wanted: Option<Set<Seq<char>>>,
    then_oks: Seq<bool>,
)
    requires
        stored_after(existing, wanted, refresh, sessions, oks, then_existing),
        driven(import_run::run_start(existing, wanted, refresh, sessions), oks).failed.len() == 0,
        wanted is None || then_wanted == wanted,
    ensures
        ({
            let first = driven(import_run::run_start(existing, wanted, refresh, sessions), oks);
            let start = import_run::run_start(then_existing, then_wanted, false, sessions);
            let end = driven(start, then_oks);
            &&& selection(sessions, then_existing, then_wanted, false).len() == 0
            &&& start.advanced().position == sessions.len()
            &&& end.imported == 0
            &&& end.refreshed == 0
            &&& end.failed.len() == 0
            &&& end.skipped == sessions.len()
            &&& end.skipped == first.imported + first.refreshed + first.skipped
        }),
{
    let again = selection(sessions, then_existing, then_wanted, false);
    law_run_report(existing, wanted, refresh, sessions, oks);
    law_only_failures_are_tried_again(
        existing,
        wanted,
        refresh,
        sessions,
        oks,
        then_existing,
        then_wanted,
    );
    if again.len() > 0 {
        assert(again.contains(again[0]));
    }
    let start = import_run::run_start(then_existing, then_wanted, false, sessions);
    assert(sessions.skip(0) =~= sessions);
    lemma_advanced(start);
    let ready = start.advanced();
    if ready.pending() {
        lemma_selection_unfolds(start, ready.position as int);
    }
}

/// A scan after a run without restriction and without failures, over the same
/// sessions, shows none, and counts as already imported all that the run dealt with.
pub proof fn law_scan_after_a_run_shows_nothing(
    existing: Set<Seq<char>>,
    refresh: bool,
    sessions: Seq<DiscoveredSession>,
    oks: Seq<bool>,
    then_existing: Set<Seq<char>>,
)
    requires
        stored_after(existing, None, refresh, sessions, oks, then_existing),
        driven(import_run::run_start(existing, None, refresh, sessions), oks).failed.len() == 0,
    ensures
        ({
            let end = driven(import_run::run_start(existing, None, refresh, sessions), oks);
            let shown = discovery::not_imported(sessions, then_existing);
            &&& shown.len() == 0
            &&& sessions.len() - shown.len() == end.imported + end.refreshed + end.skipped
            &&& !refresh ==> sessions.len() - shown.len() == end.imported + end.skipped
        }),
{
    law_second_run_imports_nothing(
        existing,
        None,
        refresh,
        sessions,
        oks,
        then_existing,
        None,
        seq![],
    );
    law_scan_shows_what_a_run_imports(sessions, then_existing);
    if !refresh {
        law_what_is_stored_is_left(existing, None, sessions, oks);
    }
}

/// A scan shows what a run without restriction would import.
pub proof fn law_scan_shows_what_a_run_imports(
    sessions: Seq<DiscoveredSession>,
    existing: Set<Seq<char>>,
)
    ensures
        discovery::not_imported(sessions, existing) == selection(sessions, existing, None, false),
    decreases sessions.len(),
{
    reveal(Seq::filter);
    if sessions.len() > 0 {
        law_scan_shows_what_a_run_imports(sessions.drop_last(), existing);
    }
}

/// A scan shows exactly the sessions whose ids are not in the database.
pub proof fn law_scan_parts_sessions(
    sessions: Seq<DiscoveredSession>,
    existing: Set<Seq<char>>,
    s: DiscoveredSession,
)
    ensures
        discovery::not_imported(sessions, existing).contains(s) <==> sessions.contains(s)
            && !existing.contains(s.claude_session_id@),
{
    law_scan_shows_what_a_run_imports(sessions, existing);
    lemma_selection_holds(sessions, existing, None, false, s);
}

/// What a filter lets through, regardless of order.
proof fn lemma_filter_to_multiset(
    s: Seq<DiscoveredSession>,
    f: spec_fn(DiscoveredSession) -> bool,
)
    ensures
        s.filter(f).to_multiset() == s.to_multiset().filter(f),
    decreases s.len(),
{
    reveal(Seq::filter);
    if s.len() == 0 {
        vstd::seq_lib::to_multiset_len(s);
        assert(s.filter(f).to_multiset() =~= s.to_multiset().filter(f));
    } else {
        let rest = s.drop_last();
        lemma_filter_to_multiset(rest, f);
        assert(s =~= rest.push(s.last()));
        vstd::seq_lib::to_multiset_build(rest, s.last());
        vstd::seq_lib::to_multiset_build(rest.filter(f), s.last());
        assert(s.filter(f).to_multiset() =~= s.to_multiset().filter(f));
    }
}

/// A scan changes nothing that a later one depends on: two scans that find the same
/// sessions, in whatever order the disk gave them, with the same ids in the database,
/// show the same sessions and count the same as already imported.
pub proof fn law_scans_of_the_same_agree(
    first: Seq<DiscoveredSession>,
    second: Seq<DiscoveredSession>,
    existing: Set<Seq<char>>,
)
    requires
        first.to_multiset() == second.to_multiset(),
    ensures
        discovery::not_imported(first, existing).to_multiset() == discovery::not_imported(
            second,
            existing,
        ).to_multiset(),
        first.len() - discovery::not_imported(first, existing).len() == second.len()
            - discovery::not_imported(second, existing).len(),
{
    let f = |s: DiscoveredSession| !existing.contains(s.claude_session_id@);
    lemma_filter_to_multiset(first, f);
    lemma_filter_to_multiset(second, f);
    vstd::seq_lib::to_multiset_len(first);
    vstd::seq_lib::to_multiset_len(second);
    vstd::seq_lib::to_multiset_len(first.filter(f));
    vstd::seq_lib::to_multiset_len(second.filter(f));
}

/// A session is due at startup if it is not stored; one that is stored is due if and
/// only if its transcript was written later than its copy, by however little or much, or
/// is known to have been written where no copy is.
pub proof fn law_what_is_due_at_startup(
    session: DiscoveredSession,
    existing: Set<Seq<char>>,
    copied: Option<Timestamp>,
)
    ensures
        !existing.contains(session.claude_session_id@) ==> import_run::due_at_startup(
            session,
            existing,
            copied,
        ),
        existing.contains(session.claude_session_id@) ==> (import_run::due_at_startup(
            session,
            existing,
            copied,
        ) <==> match (session.modified_at, copied) {
            (Some(m), Some(c)) => m.seconds > c.seconds || (m.seconds == c.seconds && m.nanos
                > c.nanos),
            (Some(_), None) => true,
            (None, _) => false,
        }),
{
}

/// The places of what is due are in order, and are those of the sessions that are due.
proof fn lemma_due_places(
    sessions: Seq<DiscoveredSession>,
    existing: Set<Seq<char>>,
    written_at: Seq<Option<Timestamp>>,
    count: nat,
)
    ensures
        ({
            let places = import_run::due_places(sessions, existing, written_at, count);
            &&& forall|j: int, k: int| 0 <= j < k < places.len() ==> places[j] < places[k]
            &&& forall|i: int| #[trigger]
                places.contains(i) <==> 0 <= i < count && import_run::due_at_startup(
                    sessions[i],
                    existing,
                    written_at[i],
                )
        }),
    decreases count,
{
    let places = import_run::due_places(sessions, existing, written_at, count);
    if count > 0 {
        let last = count - 1;
        let before = import_run::due_places(sessions, existing, written_at, last as nat);
        lemma_due_places(sessions, existing, written_at, last as nat);
        assert forall|k: int| 0 <= k < before.len() implies #[trigger] before[k] < last by {
            assert(before.contains(before[k]));
        }
        assert forall|i: int| #[trigger]
            places.contains(i) <==> 0 <= i < count && import_run::due_at_startup(
                sessions[i],
                existing,
                written_at[i],
            ) by {
            if before.contains(i) {
                let k = choose|k: int| 0 <= k < before.len() && before[k] == i;
                assert(places[k] == i);
            }
            if i == last && places.len() > before.len() {
                assert(places[before.len() as int] == i);
            }
            if places.contains(i) && i != last {
                let k = choose|k: int| 0 <= k < places.len() && places[k] == i;
                assert(before[k] == i);
            }
        }
    }
}

/// The run that follows the start of the server hands out exactly the sessions that
/// are due, each once and in order. A transcript of a stored session that is no newer
/// than the copy that was last written of it is left alone, also where another
/// transcript of the same session is newer.
pub proof fn law_startup_touches_what_is_due(
    sessions: Seq<DiscoveredSession>,
    existing: Set<Seq<char>>,
    written_at: Seq<Option<Timestamp>>,
)
    requires
        sessions.len() == written_at.len(),
    ensures
        ({
            let due = import_run::due_sessions(sessions, existing, written_at);
            let places = import_run::due_places(sessions, existing, written_at, sessions.len());
            &&& selection(due, existing, None, true) == due
            &&& due.len() == places.len()
            &&& forall|k: int|
                0 <= k < due.len() ==> 0 <= #[trigger] places[k] < sessions.len() && due[k]
                    == sessions[places[k]]
            &&& forall|j: int, k: int| 0 <= j < k < places.len() ==> places[j] < places[k]
            &&& forall|i: int|
                0 <= i < sessions.len() ==> (#[trigger] places.contains(i)
                    <==> !existing.contains(sessions[i].claude_session_id@) || discovery::newer(
                    sessions[i].modified_at,
                    written_at[i],
                ))
        }),
{
    let due = import_run::due_sessions(sessions, existing, written_at);
    let places = import_run::due_places(sessions, existing, written_at, sessions.len());
    law_refresh_reaches_every_session(due, existing);
    lemma_due_places(sessions, existing, written_at, sessions.len());
    assert forall|k: int| 0 <= k < due.len() implies 0 <= #[trigger] places[k] < sessions.len()
        && due[k] == sessions[places[k]] by {
        assert(places.contains(places[k]));
    }
}

} // verus!
