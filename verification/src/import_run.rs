//! A run of the import over the sessions that a scan found.
use vstd::prelude::*;

use crate::discovery;
use crate::discovery::SessionIds;
use crate::text;
use crate::timestamp::Timestamp;
use crate::transcript::DiscoveredSession;

verus! {

/// What a run is asked to import.
#[derive(Debug)]
pub struct ImportRequest {
    /// Restrict the import to these agent session ids. `None` imports everything
    /// found.
    pub session_ids: Option<Vec<String>>,
    /// Bring sessions that are already imported up to date. An import is a snapshot:
    /// without this, a session that was still being written would stay as it was.
    pub refresh: bool,
}

/// What a run did.
#[derive(Debug, PartialEq, Eq)]
pub struct ImportResponse {
    /// How many sessions were stored that were not there before.
    pub imported: usize,
    /// How many sessions that were there were brought up to date.
    pub refreshed: usize,
    pub skipped: usize,
    pub failed: Vec<String>,
}

/// A run: what it is about, how far it is, and what it has done.
pub struct RunView {
    pub existing: Set<Seq<char>>,
    pub wanted: Option<Set<Seq<char>>>,
    pub refresh: bool,
    pub sessions: Seq<DiscoveredSession>,
    /// How many sessions have been dealt with.
    pub position: nat,
    pub imported: nat,
    pub refreshed: nat,
    pub skipped: nat,
    pub failed: Seq<Seq<char>>,
}

/// The ids that a request restricts the import to.
pub open spec fn wanted_ids(request: ImportRequest) -> Option<Set<Seq<char>>> {
    match request.session_ids {
        Some(list) => Some(Set::new(|id: Seq<char>| text::views(list@).contains(id))),
        None => None,
    }
}

/// Whether a session of this id is imported or refreshed: it is not there yet, or
/// those that are there are refreshed, and it is wanted.
pub open spec fn selected(
    id: Seq<char>,
    existing: Set<Seq<char>>,
    wanted: Option<Set<Seq<char>>>,
    refresh: bool,
) -> bool {
    &&& refresh || !existing.contains(id)
    &&& wanted matches Some(wanted) ==> wanted.contains(id)
}

impl RunView {
    /// The id of the session at `i`.
    pub open spec fn id(self, i: int) -> Seq<char> {
        self.sessions[i].claude_session_id@
    }

    /// Whether the session at `i` is there already, and is to be refreshed.
    pub open spec fn stored(self, i: int) -> bool {
        self.existing.contains(self.id(i))
    }

    /// Whether the next session is to be imported or refreshed.
    pub open spec fn pending(self) -> bool {
        &&& self.position < self.sessions.len()
        &&& selected(self.id(self.position as int), self.existing, self.wanted, self.refresh)
    }

    /// The run after it has passed over the sessions that are left as they are.
    pub open spec fn advanced(self) -> RunView
        decreases self.sessions.len() - self.position,
    {
        if self.position < self.sessions.len() && !self.pending() {
            (RunView { position: self.position + 1, skipped: self.skipped + 1, ..self }).advanced()
        } else {
            self
        }
    }

    /// The run after the import or the refresh of the next session has succeeded or
    /// failed.
    pub open spec fn settled(self, ok: bool) -> RunView {
        if ok && self.stored(self.position as int) {
            RunView { position: self.position + 1, refreshed: self.refreshed + 1, ..self }
        } else if ok {
            RunView { position: self.position + 1, imported: self.imported + 1, ..self }
        } else {
            RunView {
                position: self.position + 1,
                failed: self.failed.push(self.id(self.position as int)),
                ..self
            }
        }
    }
}

/// A run before its first session.
pub open spec fn run_start(
    existing: Set<Seq<char>>,
    wanted: Option<Set<Seq<char>>>,
    refresh: bool,
    sessions: Seq<DiscoveredSession>,
) -> RunView {
    RunView {
        existing,
        wanted,
        refresh,
        sessions,
        position: 0,
        imported: 0,
        refreshed: 0,
        skipped: 0,
        failed: seq![],
    }
}

/// A run of the import. It hands out the sessions to import or to refresh one at a
/// time, and is told how each went.
pub struct ImportRun {
    existing: SessionIds,
    wanted: Option<SessionIds>,
    refresh: bool,
    sessions: Vec<DiscoveredSession>,
    position: usize,
    imported: usize,
    refreshed: usize,
    skipped: usize,
    failed: Vec<String>,
}

impl View for ImportRun {
    type V = RunView;

    closed spec fn view(&self) -> RunView {
        RunView {
            existing: self.existing@,
            wanted: match self.wanted {
                Some(wanted) => Some(wanted@),
                None => None,
            },
            refresh: self.refresh,
            sessions: self.sessions@,
            position: self.position as nat,
            imported: self.imported as nat,
            refreshed: self.refreshed as nat,
            skipped: self.skipped as nat,
            failed: text::views(self.failed@),
        }
    }
}

impl ImportRun {
    /// Every session dealt with was imported, was refreshed, was skipped, or failed.
    pub open spec fn wf(&self) -> bool {
        &&& self@.imported + self@.refreshed + self@.skipped + self@.failed.len()
            == self@.position
        &&& self@.position <= self@.sessions.len()
    }

    /// A run over `sessions`, for a database that holds the sessions `existing`.
    pub fn new(
        existing: SessionIds,
        request: ImportRequest,
        sessions: Vec<DiscoveredSession>,
    ) -> (run: Self)
        ensures
            run.wf(),
            run@ == run_start(existing@, wanted_ids(request), request.refresh, sessions@),
    {
        let wanted = match &request.session_ids {
            Some(list) => Some(SessionIds::of(list)),
            None => None,
        };
        let run = ImportRun {
            existing,
            wanted,
            refresh: request.refresh,
            sessions,
            position: 0,
            imported: 0,
            refreshed: 0,
            skipped: 0,
            failed: Vec::new(),
        };
        proof {
            if let Some(list) = request.session_ids {
                assert(run@.wanted->Some_0 =~= wanted_ids(request)->Some_0);
            }
            assert(run@.failed =~= seq![]);
        }
        run
    }

    /// Whether the session at `i` is to be imported or refreshed.
    fn selects(&self, i: usize) -> (r: bool)
        requires
            i < self@.sessions.len(),
        ensures
            r == selected(self@.id(i as int), self@.existing, self@.wanted, self@.refresh),
    {
        let id = self.sessions[i].claude_session_id.as_str();
        if !self.refresh && self.existing.contains(id) {
            return false;
        }
        match &self.wanted {
            Some(wanted) => wanted.contains(id),
            None => true,
        }
    }

    /// Passes over the sessions that are left as they are, and tells where the next
    /// one to import or to refresh stands; `None` where there is no more.
    pub fn next(&mut self) -> (index: Option<usize>)
        requires
            old(self).wf(),
        ensures
            final(self).wf(),
            final(self)@ == old(self)@.advanced(),
            match index {
                Some(i) => final(self)@.pending() && i == final(self)@.position,
                None => final(self)@.position == final(self)@.sessions.len(),
            },
    {
        while self.position < self.sessions.len() && !self.selects(self.position)
            invariant
                self.wf(),
                self@.advanced() == old(self)@.advanced(),
            decreases self@.sessions.len() - self@.position,
        {
            self.position += 1;
            self.skipped += 1;
        }
        if self.position < self.sessions.len() {
            Some(self.position)
        } else {
            None
        }
    }

    /// The session at `index`.
    pub fn session(&self, index: usize) -> (session: &DiscoveredSession)
        requires
            index < self@.sessions.len(),
        ensures
            *session == self@.sessions[index as int],
    {
        &self.sessions[index]
    }

    /// Whether the session at `index` is there already: it is refreshed, not imported.
    pub fn is_stored(&self, index: usize) -> (r: bool)
        requires
            index < self@.sessions.len(),
        ensures
            r == self@.stored(index as int),
    {
        self.existing.contains(self.sessions[index].claude_session_id.as_str())
    }

    /// Notes how the import or the refresh of the next session went.
    pub fn settle(&mut self, ok: bool)
        requires
            old(self).wf(),
            old(self)@.pending(),
        ensures
            final(self).wf(),
            final(self)@ == old(self)@.settled(ok),
    {
        assert(self.position < self.sessions.len());
        let ghost failed0 = self.failed@;
        if ok && self.is_stored(self.position) {
            self.refreshed += 1;
        } else if ok {
            self.imported += 1;
        } else {
            self.failed.push(self.sessions[self.position].claude_session_id.clone());
            assert(text::views(self.failed@) =~= text::views(failed0).push(
                self@.id(self@.position as int),
            ));
        }
        self.position += 1;
    }

    /// What the run has done.
    pub fn response(self) -> (response: ImportResponse)
        ensures
            response.imported == self@.imported,
            response.refreshed == self@.refreshed,
            response.skipped == self@.skipped,
            text::views(response.failed@) == self@.failed,
    {
        ImportResponse {
            imported: self.imported,
            refreshed: self.refreshed,
            skipped: self.skipped,
            failed: self.failed,
        }
    }
}

/// Whether a session is due when the server starts: it is not there yet, or its
/// transcript is newer than the copy that was last written of it, at `written_at`.
pub open spec fn due_at_startup(
    session: DiscoveredSession,
    existing: Set<Seq<char>>,
    written_at: Option<Timestamp>,
) -> bool {
    !existing.contains(session.claude_session_id@) || discovery::newer(
        session.modified_at,
        written_at,
    )
}

/// The places of the sessions that are due when the server starts, among the first
/// `count`, in order. `written_at` tells for each session when a copy of it was last
/// written, `None` where there is none.
pub open spec fn due_places(
    sessions: Seq<DiscoveredSession>,
    existing: Set<Seq<char>>,
    written_at: Seq<Option<Timestamp>>,
    count: nat,
) -> Seq<int>
    decreases count,
{
    if count == 0 {
        seq![]
    } else {
        let last = count - 1;
        let before = due_places(sessions, existing, written_at, last as nat);
        if due_at_startup(sessions[last], existing, written_at[last]) {
            before.push(last)
        } else {
            before
        }
    }
}

/// The sessions that stand at `places`.
pub open spec fn standing_at(sessions: Seq<DiscoveredSession>, places: Seq<int>) -> Seq<
    DiscoveredSession,
> {
    places.map_values(|i: int| sessions[i])
}

/// The sessions that are due when the server starts, in order.
pub open spec fn due_sessions(
    sessions: Seq<DiscoveredSession>,
    existing: Set<Seq<char>>,
    written_at: Seq<Option<Timestamp>>,
) -> Seq<DiscoveredSession> {
    standing_at(sessions, due_places(sessions, existing, written_at, sessions.len()))
}

/// Keeps the sessions that are due when the server starts. `written_at` tells for each
/// session when a copy of it was last written, `None` where there is none. Each
/// transcript is judged by itself, also where several are of one session.
pub fn startup_sessions(
    existing: &SessionIds,
    sessions: Vec<DiscoveredSession>,
    written_at: &Vec<Option<Timestamp>>,
) -> (due: Vec<DiscoveredSession>)
    requires
        sessions@.len() == written_at@.len(),
    ensures
        due@ == due_sessions(sessions@, existing@, written_at@),
{
    let mut due: Vec<DiscoveredSession> = Vec::new();
    let mut i: usize = 0;
    for session in it: sessions
        invariant
            it.seq() == sessions@,
            i == it.index(),
            sessions@.len() == written_at.len(),
            due@ == standing_at(
                sessions@,
                due_places(sessions@, existing@, written_at@, i as nat),
            ),
    {
        if !existing.contains(session.claude_session_id.as_str()) || discovery::is_newer(
            session.modified_at,
            written_at[i],
        ) {
            due.push(session);
        }
        i += 1;
    }
    due
}

impl ImportRun {
    /// The run that follows the start of the server: it imports what is not there, and
    /// refreshes the sessions whose transcript is newer than the copy that was last
    /// written of it, so that a normal launch touches almost nothing.
    pub fn at_startup(
        existing: SessionIds,
        sessions: Vec<DiscoveredSession>,
        written_at: &Vec<Option<Timestamp>>,
    ) -> (run: Self)
        requires
            sessions@.len() == written_at@.len(),
        ensures
            run.wf(),
            run@ == run_start(
                existing@,
                None,
                true,
                due_sessions(sessions@, existing@, written_at@),
            ),
    {
        let due = startup_sessions(&existing, sessions, written_at);
        ImportRun::new(existing, ImportRequest { session_ids: None, refresh: true }, due)
    }
}

} // verus!
