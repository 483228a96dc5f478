//! Sessions found on disk, and those among them that are not imported yet.
use vstd::hash_set::StringHashSet;
use vstd::prelude::*;

use crate::order;
use crate::order::Ranked;
use crate::text;
use crate::timestamp::Timestamp;
use crate::transcript;
use crate::transcript::{DiscoveredSession, SessionView};

verus! {

/// Whether what is of the time `a` is newer than what is of the time `b`. What does
/// not say when it is of is older than all that does.
pub open spec fn newer(a: Option<Timestamp>, b: Option<Timestamp>) -> bool {
    match (a, b) {
        (Some(a), Some(b)) => b.before(a),
        (Some(_), None) => true,
        (None, _) => false,
    }
}

/// Whether what is of the time `a` is newer than what is of the time `b`.
pub fn is_newer(a: Option<Timestamp>, b: Option<Timestamp>) -> (r: bool)
    ensures
        r == newer(a, b),
{
    match (a, b) {
        (Some(a), Some(b)) => b.seconds < a.seconds || (b.seconds == a.seconds && b.nanos
            < a.nanos),
        (Some(_), None) => true,
        (None, _) => false,
    }
}

/// The sessions that started at `at`, in the order in which they stand in `s`.
pub open spec fn started_at(s: Seq<DiscoveredSession>, at: Option<Timestamp>) -> Seq<
    DiscoveredSession,
> {
    s.filter(|x: DiscoveredSession| x.started_at == at)
}

/// `sorted` holds the sessions of `s`, the newest first, and those that started at
/// one time in the order in which they stand in `s`.
pub open spec fn newest_first(sorted: Seq<DiscoveredSession>, s: Seq<DiscoveredSession>) -> bool {
    &&& forall|i: int, j: int|
        0 <= i < j < sorted.len() ==> !newer(
            (#[trigger] sorted[j]).started_at,
            (#[trigger] sorted[i]).started_at,
        )
    &&& forall|at: Option<Timestamp>| #[trigger] started_at(sorted, at) == started_at(s, at)
}

/// The rank of a starting time: lower for newer ones.
pub open spec fn age(at: Option<Timestamp>) -> int {
    match at {
        Some(t) => -(t.seconds * 0x1_0000_0000 + t.nanos),
        None => 0x1_0000_0000_0000_0000_0000_0000,
    }
}

impl Ranked for DiscoveredSession {
    open spec fn rank(&self) -> int {
        age(self.started_at)
    }

    fn compute_rank(&self) -> (rank: i128) {
        match self.started_at {
            Some(t) => -(t.seconds as i128 * 0x1_0000_0000 + t.nanos as i128),
            None => 0x1_0000_0000_0000_0000_0000_0000,
        }
    }
}

/// A stable sort by age is newest first.
proof fn lemma_newest_first(sorted: Seq<DiscoveredSession>, s: Seq<DiscoveredSession>)
    requires
        order::is_stable_sort_of(sorted, s),
    ensures
        newest_first(sorted, s),
{
    assert forall|at: Option<Timestamp>| #[trigger] started_at(sorted, at) == started_at(s, at) by {
        let by_age = order::has_rank::<DiscoveredSession>(age(at));
        let by_time = |x: DiscoveredSession| x.started_at == at;
        assert(by_age =~= by_time);
        assert(order::of_rank(sorted, age(at)) == order::of_rank(s, age(at)));
    }
}

/// Sorts sessions, the newest first, matching the sidebar's ordering.
pub fn sort_newest_first(sessions: Vec<DiscoveredSession>) -> (sorted: Vec<DiscoveredSession>)
    ensures
        newest_first(sorted@, sessions@),
        sorted@.to_multiset() == sessions@.to_multiset(),
{
    let sorted = order::stable_sort(sessions);
    proof {
        lemma_newest_first(sorted@, sessions@);
    }
    sorted
}

/// A file of the transcript store: its extension and stem where they are text, when
/// it was last written where that is known, and its text where it can be read.
pub struct FileView {
    pub extension: Option<Seq<char>>,
    pub stem: Option<Seq<char>>,
    pub modified_at: Option<Timestamp>,
    pub raw: Option<Seq<char>>,
}

/// The session that a file holds.
pub open spec fn session_in(file: FileView) -> Option<SessionView> {
    match file.raw {
        Some(raw) => if file.extension == Some("jsonl"@) {
            match transcript::session_of(
                transcript::transcript_of(transcript::records_in(text::lines_of(raw))),
                file.stem,
            ) {
                Some(session) => Some(
                    SessionView { modified_at: file.modified_at, ..session },
                ),
                None => None,
            }
        } else {
            None
        },
        None => None,
    }
}

/// The sessions that files hold, in the order in which the files were visited.
pub open spec fn sessions_in(files: Seq<FileView>) -> Seq<SessionView>
    decreases files.len(),
{
    if files.len() == 0 {
        seq![]
    } else {
        let before = sessions_in(files.drop_last());
        match session_in(files.last()) {
            Some(session) => before.push(session),
            None => before,
        }
    }
}

/// The views of a list of sessions.
pub open spec fn views(sessions: Seq<DiscoveredSession>) -> Seq<SessionView> {
    sessions.map_values(|s: DiscoveredSession| s@)
}

/// Whether a file of this extension is a transcript.
pub fn is_transcript(extension: Option<&str>) -> (r: bool)
    ensures
        r == (text::view_opt_str(extension) == Some("jsonl"@)),
{
    match extension {
        Some(extension) => text::same(extension, "jsonl"),
        None => false,
    }
}

/// A walk over the transcript store, and the sessions that it has found.
#[derive(Debug)]
pub struct DiskScan {
    found: Vec<DiscoveredSession>,
}

impl View for DiskScan {
    type V = Seq<DiscoveredSession>;

    closed spec fn view(&self) -> Seq<DiscoveredSession> {
        self.found@
    }
}

impl DiskScan {
    /// A walk that has visited no file.
    pub fn new() -> (scan: Self)
        ensures
            scan@ == Seq::<DiscoveredSession>::empty(),
    {
        DiskScan { found: Vec::new() }
    }

    /// Visits a file; `raw` is its text, `None` where it cannot be read.
    pub fn visit(
        &mut self,
        extension: Option<&str>,
        stem: Option<&str>,
        modified_at: Option<Timestamp>,
        raw: Option<&str>,
    )
        ensures
            final(self)@.take(old(self)@.len() as int) == old(self)@,
            views(final(self)@) == (match session_in(
                (FileView {
                    extension: text::view_opt_str(extension),
                    stem: text::view_opt_str(stem),
                    modified_at,
                    raw: text::view_opt_str(raw),
                }),
            ) {
                Some(session) => views(old(self)@).push(session),
                None => views(old(self)@),
            }),
    {
        if is_transcript(extension) {
            if let Some(raw) = raw {
                if let Some(session) = transcript::parse_transcript(raw, stem) {
                    let mut session = session;
                    session.modified_at = modified_at;
                    self.found.push(session);
                }
            }
        }
    }

    /// The sessions that were found, the newest first.
    pub fn finish(self) -> (sessions: Vec<DiscoveredSession>)
        ensures
            newest_first(sessions@, self@),
            sessions@.to_multiset() == self@.to_multiset(),
    {
        sort_newest_first(self.found)
    }
}

/// Agent session ids.
pub struct SessionIds {
    ids: StringHashSet,
}

impl View for SessionIds {
    type V = Set<Seq<char>>;

    closed spec fn view(&self) -> Set<Seq<char>> {
        self.ids@
    }
}

impl SessionIds {
    /// The ids of a list.
    pub fn of(list: &Vec<String>) -> (ids: Self)
        ensures
            forall|id: Seq<char>| #[trigger]
                ids@.contains(id) <==> text::views(list@).contains(id),
    {
        let mut ids = StringHashSet::new();
        for i in 0..list.len()
            invariant
                forall|id: Seq<char>| #[trigger]
                    ids@.contains(id) <==> text::views(list@.take(i as int)).contains(id),
        {
            let ghost before = text::views(list@.take(i as int));
            let ghost after = text::views(list@.take(i + 1));
            ids.insert(list[i].clone());
            proof {
                assert(after =~= before.push(list@[i as int]@));
                assert forall|id: Seq<char>| #[trigger]
                    ids@.contains(id) <==> after.contains(id) by {
                    if before.contains(id) {
                        let k = choose|k: int| 0 <= k < before.len() && before[k] == id;
                        assert(after[k] == id);
                    }
                    if id == list@[i as int]@ {
                        assert(after[i as int] == id);
                    }
                }
            }
        }
        assert(list@.take(list@.len() as int) =~= list@);
        SessionIds { ids }
    }

    /// Whether `id` is among the ids.
    pub fn contains(&self, id: &str) -> (r: bool)
        ensures
            r == self@.contains(id@),
    {
        self.ids.contains(id)
    }
}

/// The ids that stored turns carry; a turn may carry none.
pub open spec fn stored_ids(rows: Seq<Option<String>>) -> Set<Seq<char>> {
    Set::new(
        |id: Seq<char>|
            exists|i: int| 0 <= i < rows.len() && text::view_opt(#[trigger] rows[i]) == Some(id),
    )
}

/// Agent session ids already present in the database, whose turns carry `rows`.
pub fn already_imported_ids(rows: Vec<Option<String>>) -> (ids: SessionIds)
    ensures
        ids@ == stored_ids(rows@),
{
    let mut ids = StringHashSet::new();
    for i in 0..rows.len()
        invariant
            forall|id: Seq<char>| #[trigger]
                ids@.contains(id) <==> exists|k: int|
                    0 <= k < i && text::view_opt(#[trigger] rows@[k]) == Some(id),
    {
        if let Some(id) = &rows[i] {
            ids.insert(id.clone());
        }
    }
    SessionIds { ids }
}

/// What a scan finds.
#[derive(Debug)]
pub struct ScanResponse {
    pub sessions: Vec<DiscoveredSession>,
    pub already_imported: usize,
}

/// The sessions among `all` that are not in `existing`.
pub open spec fn not_imported(all: Seq<DiscoveredSession>, existing: Set<Seq<char>>) -> Seq<
    DiscoveredSession,
> {
    all.filter(|s: DiscoveredSession| !existing.contains(s.claude_session_id@))
}

/// Tells the sessions that could be imported from those that already are.
pub fn scan(existing: &SessionIds, all: Vec<DiscoveredSession>) -> (response: ScanResponse)
    ensures
        response.sessions@ == not_imported(all@, existing@),
        response.already_imported == all@.len() - response.sessions@.len(),
{
    let total: usize = all.len();
    let mut sessions: Vec<DiscoveredSession> = Vec::new();
    let ghost fresh = |s: DiscoveredSession| !existing@.contains(s.claude_session_id@);
    proof {
        reveal(Seq::filter);
    }
    for session in it: all
        invariant
            it.seq() == all@,
            fresh == (|s: DiscoveredSession| !existing@.contains(s.claude_session_id@)),
            sessions@ == all@.take(it.index()).filter(fresh),
            sessions@.len() <= it.index(),
    {
        proof {
            reveal(Seq::filter);
            let next = all@.take(it.index() + 1);
            assert(next.drop_last() =~= all@.take(it.index()));
        }
        if !existing.contains(session.claude_session_id.as_str()) {
            sessions.push(session);
        }
    }
    assert(all@.take(all@.len() as int) =~= all@);
    let already_imported: usize = total - sessions.len();
    ScanResponse { sessions, already_imported }
}

} // verus!
