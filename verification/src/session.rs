//! Server-side session tracking with expiry and explicit revocation.
//!
//! A session store records at most one active session per subject: the
//! token identifier that is currently live for that subject, the role, and
//! when the session lapses.  A new login overwrites the prior record
//! (last writer wins), and deletion is explicit revocation.  The store is
//! modelled as a map from subject to record, and every operation's
//! contract is stated over that map.

use vstd::prelude::*;

verus! {

/// What the store keeps per subject: the fields a revocation check reads,
/// plus when the record lapses.
#[derive(Debug, Clone, PartialEq, Eq)]
pub struct SessionRecord {
    pub user_id: String,
    pub email: String,
    pub role: String,
    /// Identifier of the currently live access token for this subject.
    pub jti: String,
    /// Instant the session lapses, seconds since the Unix epoch.
    pub expires_at: i64,
}

impl SessionRecord {
    /// Whether the record is still current at the instant `now`.
    pub open spec fn spec_live(self, now: i64) -> bool {
        now < self.expires_at
    }

    /// Whether the record is still current at the instant `now`.
    pub fn is_live(&self, now: i64) -> (r: bool)
        ensures
            r == self.spec_live(now),
    {
        now < self.expires_at
    }
}

/// The session map a sequence of keyed entries denotes; a later entry for
/// the same subject overrides an earlier one.
pub open spec fn session_map_of(entries: Seq<(String, SessionRecord)>) -> Map<
    Seq<char>,
    SessionRecord,
>
    decreases entries.len(),
{
    if entries.len() == 0 {
        Map::empty()
    } else {
        session_map_of(entries.drop_last()).insert(entries.last().0@, entries.last().1)
    }
}

/// No two entries share a subject.
pub open spec fn unique_subjects(entries: Seq<(String, SessionRecord)>) -> bool {
    forall|i: int, j: int|
        0 <= i < j < entries.len() ==> entries[i].0@ != entries[j].0@
}

proof fn lemma_session_map_absent(entries: Seq<(String, SessionRecord)>, key: Seq<char>)
    requires
        forall|i: int| 0 <= i < entries.len() ==> entries[i].0@ != key,
    ensures
        !session_map_of(entries).contains_key(key),
    decreases entries.len(),
{
    if entries.len() > 0 {
        lemma_session_map_absent(entries.drop_last(), key);
    }
}

proof fn lemma_session_map_present(
    entries: Seq<(String, SessionRecord)>,
    i: int,
    key: Seq<char>,
)
    requires
        unique_subjects(entries),
        0 <= i < entries.len(),
        entries[i].0@ == key,
    ensures
        session_map_of(entries).contains_key(key),
        session_map_of(entries)[key] == entries[i].1,
    decreases entries.len(),
{
    if i == entries.len() - 1 {
    } else {
        lemma_session_map_present(entries.drop_last(), i, key);
    }
}

proof fn lemma_session_map_remove(
    entries: Seq<(String, SessionRecord)>,
    i: int,
    key: Seq<char>,
)
    requires
        unique_subjects(entries),
        0 <= i < entries.len(),
        entries[i].0@ == key,
    ensures
        session_map_of(entries.remove(i)) == session_map_of(entries).remove(key),
    decreases entries.len(),
{
    let shorter = entries.remove(i);
    if i == entries.len() - 1 {
        assert(shorter =~= entries.drop_last());
        lemma_session_map_absent(entries.drop_last(), key);
        assert(session_map_of(entries.drop_last()).remove(key) =~= session_map_of(
            entries.drop_last(),
        ));
        assert(session_map_of(entries).remove(key) =~= session_map_of(entries.drop_last()));
    } else {
        assert(shorter.drop_last() =~= entries.drop_last().remove(i));
        assert(shorter.last() == entries.last());
        lemma_session_map_remove(entries.drop_last(), i, key);
        assert(session_map_of(entries).remove(key) =~= session_map_of(
            entries.drop_last(),
        ).remove(key).insert(entries.last().0@, entries.last().1));
    }
}

proof fn lemma_session_map_len(entries: Seq<(String, SessionRecord)>)
    requires
        unique_subjects(entries),
    ensures
        session_map_of(entries).dom().finite(),
        session_map_of(entries).dom().len() == entries.len(),
    decreases entries.len(),
{
    if entries.len() == 0 {
        assert(session_map_of(entries).dom() =~= Set::<Seq<char>>::empty());
    } else {
        lemma_session_map_len(entries.drop_last());
        lemma_session_map_absent(entries.drop_last(), entries.last().0@);
        assert(session_map_of(entries).dom() =~= session_map_of(
            entries.drop_last(),
        ).dom().insert(entries.last().0@));
    }
}

/// The session store: a keyed collection with at most one record per
/// subject.  Its view is the map from subject to record.
pub struct SessionStore {
    entries: Vec<(String, SessionRecord)>,
}

impl View for SessionStore {
    type V = Map<Seq<char>, SessionRecord>;

    closed spec fn view(&self) -> Map<Seq<char>, SessionRecord> {
        session_map_of(self.entries@)
    }
}

impl SessionStore {
    /// One record per subject, so that every operation is a plain map
    /// update.
    pub closed spec fn wf(self) -> bool {
        unique_subjects(self.entries@)
    }

    /// An empty store.
    pub fn new() -> (r: SessionStore)
        ensures
            r.wf(),
            r@ == Map::<Seq<char>, SessionRecord>::empty(),
    {
        SessionStore { entries: Vec::new() }
    }

    /// Position of the subject's entry, if it has one.
    fn position_of(&self, subject: &str) -> (r: Option<usize>)
        ensures
            r matches Some(i) ==> i < self.entries@.len() && self.entries@[i as int].0@
                == subject@,
            r is None ==> forall|i: int|
                0 <= i < self.entries@.len() ==> self.entries@[i].0@ != subject@,
    {
        let key: String = subject.to_owned();
        let n = self.entries.len();
        let mut i: usize = 0;
        while i < n
            invariant
                n == self.entries@.len(),
                i <= n,
                key@ == subject@,
                forall|j: int| 0 <= j < i ==> self.entries@[j].0@ != subject@,
            decreases n - i,
        {
            if self.entries[i].0 == key {
                return Some(i);
            }
            i = i + 1;
        }
        None
    }

    /// Records or overwrites the session for `subject`: last writer wins.
    pub fn put(&mut self, subject: &str, record: SessionRecord)
        requires
            old(self).wf(),
        ensures
            final(self).wf(),
            final(self)@ == old(self)@.insert(subject@, record),
    {
        self.delete(subject);
        let ghost pre = self.entries@;
        self.entries.push((subject.to_owned(), record));
        proof {
            assert(self.entries@.drop_last() =~= pre);
            assert forall|i: int, j: int|
                0 <= i < j < self.entries@.len() implies self.entries@[i].0@
                != self.entries@[j].0@ by {
                if j == self.entries@.len() - 1 && pre[i].0@ == subject@ {
                    lemma_session_map_present(pre, i, subject@);
                }
            }
            assert(self@ =~= old(self)@.insert(subject@, record));
        }
    }

    /// The session recorded for `subject`, if any.
    pub fn get(&self, subject: &str) -> (r: Option<&SessionRecord>)
        requires
            self.wf(),
        ensures
            r matches Some(rec) ==> self@.contains_key(subject@) && *rec == self@[subject@],
            r is None ==> !self@.contains_key(subject@),
    {
        match self.position_of(subject) {
            Some(i) => {
                proof {
                    lemma_session_map_present(self.entries@, i as int, subject@);
                }
                Some(&self.entries[i].1)
            },
            None => {
                proof {
                    lemma_session_map_absent(self.entries@, subject@);
                }
                None
            },
        }
    }

    /// Explicit revocation: drops the session recorded for `subject`, if
    /// any.
    pub fn delete(&mut self, subject: &str)
        requires
            old(self).wf(),
        ensures
            final(self).wf(),
            final(self)@ == old(self)@.remove(subject@),
    {
        match self.position_of(subject) {
            Some(i) => {
                proof {
                    lemma_session_map_remove(self.entries@, i as int, subject@);
                }
                let ghost pre = self.entries@;
                self.entries.remove(i);
                proof {
                    assert forall|a: int, b: int|
                        0 <= a < b < self.entries@.len() implies self.entries@[a].0@
                        != self.entries@[b].0@ by {
                        assert(self.entries@[a] == if a < i as int {
                            pre[a]
                        } else {
                            pre[a + 1]
                        });
                        assert(self.entries@[b] == if b < i as int {
                            pre[b]
                        } else {
                            pre[b + 1]
                        });
                    }
                }
            },
            None => {
                proof {
                    lemma_session_map_absent(self.entries@, subject@);
                    assert(self@.remove(subject@) =~= self@);
                }
            },
        }
    }

    /// How many subjects currently have a recorded session.
    pub fn len(&self) -> (r: usize)
        requires
            self.wf(),
        ensures
            r == self@.dom().len(),
    {
        proof {
            lemma_session_map_len(self.entries@);
        }
        self.entries.len()
    }
}

/// Overwrite law: recording a session for a subject and then recording
/// another leaves exactly the second — a later `put` wins, and a `get`
/// after the two writes answers with the second record.
pub proof fn lemma_session_overwrite(
    m: Map<Seq<char>, SessionRecord>,
    subject: Seq<char>,
    first: SessionRecord,
    second: SessionRecord,
)
    ensures
        m.insert(subject, first).insert(subject, second) == m.insert(subject, second),
        m.insert(subject, first).insert(subject, second)[subject] == second,
{
    assert(m.insert(subject, first).insert(subject, second) =~= m.insert(subject, second));
}

/// Revocation law: deleting a subject's session removes exactly that
/// subject — afterwards the store holds nothing for it, and every other
/// subject's record is untouched.
pub proof fn lemma_delete_revokes(
    m: Map<Seq<char>, SessionRecord>,
    subject: Seq<char>,
    other: Seq<char>,
)
    requires
        other != subject,
    ensures
        !m.remove(subject).contains_key(subject),
        m.remove(subject).contains_key(other) == m.contains_key(other),
        m.contains_key(other) ==> m.remove(subject)[other] == m[other],
{
}

} // verus!
