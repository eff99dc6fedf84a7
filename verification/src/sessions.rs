//! The open project-sync sessions, by project id.

use crate::text::opt_text;
use vstd::prelude::*;

verus! {

/// An open project-sync session.
#[derive(Debug, Clone)]
pub struct ProjectSyncSession {
    pub sync_id: String,
    pub last_id: i32,
    pub last_sync: Option<String>,
    pub deleted_ids: Vec<i32>,
}

/// The sessions of a list of `(project id, session)` pairs, a later pair
/// overriding an earlier one with the same id.
pub open spec fn entries_map(s: Seq<(String, ProjectSyncSession)>) -> Map<Seq<char>, ProjectSyncSession>
    decreases s.len(),
{
    if s.len() == 0 {
        Map::empty()
    } else {
        entries_map(s.drop_last()).insert(s.last().0@, s.last().1)
    }
}

/// No project id occurs twice.
pub open spec fn keys_distinct(s: Seq<(String, ProjectSyncSession)>) -> bool {
    forall|i: int, j: int| 0 <= i < j < s.len() ==> s[i].0@ != s[j].0@
}

proof fn lemma_absent(s: Seq<(String, ProjectSyncSession)>, k: Seq<char>)
    requires
        forall|i: int| 0 <= i < s.len() ==> s[i].0@ != k,
    ensures
        !entries_map(s).contains_key(k),
    decreases s.len(),
{
    if s.len() > 0 {
        lemma_absent(s.drop_last(), k);
    }
}

proof fn lemma_lookup(s: Seq<(String, ProjectSyncSession)>, i: int)
    requires
        keys_distinct(s),
        0 <= i < s.len(),
    ensures
        entries_map(s).contains_key(s[i].0@),
        entries_map(s)[s[i].0@] == s[i].1,
    decreases s.len(),
{
    if i < s.len() - 1 {
        lemma_lookup(s.drop_last(), i);
    }
}

proof fn lemma_remove(s: Seq<(String, ProjectSyncSession)>, i: int)
    requires
        keys_distinct(s),
        0 <= i < s.len(),
    ensures
        entries_map(s.remove(i)) == entries_map(s).remove(s[i].0@),
        keys_distinct(s.remove(i)),
    decreases s.len(),
{
    let k = s[i].0@;
    if i == s.len() - 1 {
        assert(s.remove(i) =~= s.drop_last());
        lemma_absent(s.drop_last(), k);
        assert(entries_map(s.drop_last()) =~= entries_map(s).remove(k));
    } else {
        lemma_remove(s.drop_last(), i);
        assert(s.remove(i) =~= s.drop_last().remove(i).push(s.last()));
        assert(s.remove(i).drop_last() =~= s.drop_last().remove(i));
        assert(s.last().0@ != k);
        assert(entries_map(s.remove(i)) =~= entries_map(s).remove(k));
    }
}

/// The open sessions: at most one per project id.
pub struct SessionTable {
    entries: Vec<(String, ProjectSyncSession)>,
}

impl View for SessionTable {
    type V = Map<Seq<char>, ProjectSyncSession>;

    closed spec fn view(&self) -> Map<Seq<char>, ProjectSyncSession> {
        entries_map(self.entries@)
    }
}

impl SessionTable {
    #[verifier::type_invariant]
    closed spec fn distinct(self) -> bool {
        keys_distinct(self.entries@)
    }

    pub fn new() -> (t: Self)
        ensures
            t@ == Map::<Seq<char>, ProjectSyncSession>::empty(),
    {
        SessionTable { entries: Vec::new() }
    }

    pub fn is_empty(&self) -> (b: bool)
        ensures
            b == (self@ == Map::<Seq<char>, ProjectSyncSession>::empty()),
    {
        proof {
            use_type_invariant(self);
            if self.entries@.len() > 0 {
                lemma_lookup(self.entries@, 0);
                assert(!Map::<Seq<char>, ProjectSyncSession>::empty().contains_key(self.entries@[0].0@));
            } else {
                assert(self@ =~= Map::<Seq<char>, ProjectSyncSession>::empty());
            }
        }
        self.entries.len() == 0
    }

    /// Where the session of `project_id` stands, if it is open.
    fn position(&self, project_id: &str) -> (r: Option<usize>)
        ensures
            match r {
                Some(i) => i < self.entries@.len() && self.entries@[i as int].0@ == project_id@,
                None => forall|i: int| 0 <= i < self.entries@.len() ==> self.entries@[i].0@ != project_id@,
            },
    {
        let key = String::from_str(project_id);
        let mut i: usize = 0;
        while i < self.entries.len()
            invariant
                0 <= i <= self.entries@.len(),
                key@ == project_id@,
                forall|j: int| 0 <= j < i ==> self.entries@[j].0@ != project_id@,
            decreases self.entries@.len() - i,
        {
            if self.entries[i].0 == key {
                return Some(i);
            }
            i += 1;
        }
        None
    }

    /// The open session of `project_id`.
    pub fn get(&self, project_id: &str) -> (r: Option<&ProjectSyncSession>)
        ensures
            match r {
                Some(s) => self@.contains_key(project_id@) && self@[project_id@] == *s,
                None => !self@.contains_key(project_id@),
            },
    {
        proof { use_type_invariant(self); }
        match self.position(project_id) {
            Some(i) => {
                proof { lemma_lookup(self.entries@, i as int); }
                Some(&self.entries[i].1)
            },
            None => {
                proof { lemma_absent(self.entries@, project_id@); }
                None
            },
        }
    }

    /// Closes the session of `project_id` and hands it back.
    pub fn remove(&mut self, project_id: &str) -> (r: Option<ProjectSyncSession>)
        ensures
            final(self)@ == old(self)@.remove(project_id@),
            match r {
                Some(s) => old(self)@.contains_key(project_id@) && old(self)@[project_id@] == s,
                None => !old(self)@.contains_key(project_id@) && *final(self) == *old(self),
            },
    {
        proof { use_type_invariant(&*self); }
        match self.position(project_id) {
            Some(i) => {
                let mut entries: Vec<(String, ProjectSyncSession)> = Vec::new();
                std::mem::swap(&mut entries, &mut self.entries);
                let ghost before = entries@;
                proof {
                    lemma_lookup(before, i as int);
                    lemma_remove(before, i as int);
                }
                let (_, session) = entries.remove(i);
                self.entries = entries;
                Some(session)
            },
            None => {
                proof {
                    lemma_absent(self.entries@, project_id@);
                    assert(old(self)@.remove(project_id@) =~= old(self)@);
                }
                None
            },
        }
    }

    /// Opens (or replaces) the session of `project_id`.
    pub fn insert(&mut self, project_id: &str, session: ProjectSyncSession)
        ensures
            final(self)@ == old(self)@.insert(project_id@, session),
    {
        let _ = self.remove(project_id);
        proof { use_type_invariant(&*self); }
        let mut entries: Vec<(String, ProjectSyncSession)> = Vec::new();
        std::mem::swap(&mut entries, &mut self.entries);
        let ghost before = entries@;
        assert forall|i: int| 0 <= i < before.len() implies before[i].0@ != project_id@ by {
            lemma_lookup(before, i);
        }
        entries.push((String::from_str(project_id), session));
        assert(entries@.drop_last() =~= before);
        self.entries = entries;
        assert(self@ =~= old(self)@.insert(project_id@, session));
    }

    /// Closes every session and hands them all back, each once, in no
    /// particular order.
    pub fn drain(&mut self) -> (r: Vec<(String, ProjectSyncSession)>)
        ensures
            entries_map(r@) == old(self)@,
            keys_distinct(r@),
            final(self)@ == Map::<Seq<char>, ProjectSyncSession>::empty(),
    {
        proof { use_type_invariant(&*self); }
        let mut entries: Vec<(String, ProjectSyncSession)> = Vec::new();
        std::mem::swap(&mut entries, &mut self.entries);
        entries
    }
}

} // verus!
