//! The session registry: the live set of terminal sessions and the only
//! mutation points for their state.
//!
//! Mathematically the registry is a map from session id to the session's
//! current geometry; that map is the registry's view, and every operation
//! says exactly what it does to it.  At most one live session exists per
//! id.  Each entry owns the controlling and write handles of its pty; they
//! are routed to the operating system by the registry's own methods and
//! never handed to callers.  Killing a session removes its entry — both
//! handles leave in the same step — and ends the shell process, which in
//! turn ends the session's reader pump within a bounded delay.

use vstd::prelude::*;

use crate::errors::{IoError, SpawnError};
use crate::pty::{
    clone_reader, kill_child, open_pty, resize_master, spawn_shell, take_writer, wait_child,
    write_bytes, ChildHandle, MasterHandle, ReaderHandle, WriterHandle,
};

verus! {

/// What the registry shows of one session: its current geometry.
#[derive(Debug, Clone, Copy, PartialEq, Eq, Structural)]
pub struct SessionView {
    pub rows: u16,
    pub cols: u16,
}

/// One live session: its id, its geometry, the two pty handles the
/// registry owns on its behalf, and the shell process itself.
struct Session {
    id: String,
    rows: u16,
    cols: u16,
    master: MasterHandle,
    writer: WriterHandle,
    child: ChildHandle,
}

/// The geometry a session entry shows.
spec fn entry_view(s: Session) -> SessionView {
    SessionView { rows: s.rows, cols: s.cols }
}

/// The map a sequence of session entries stands for.
spec fn session_map(s: Seq<Session>) -> Map<Seq<char>, SessionView>
    decreases s.len(),
{
    if s.len() == 0 {
        Map::empty()
    } else {
        session_map(s.drop_last()).insert(s.last().id@, entry_view(s.last()))
    }
}

/// No two entries share an id.
spec fn unique_ids(s: Seq<Session>) -> bool {
    forall|i: int, j: int| 0 <= i < j < s.len() ==> s[i].id@ != s[j].id@
}

proof fn lemma_session_map_contains(s: Seq<Session>, k: Seq<char>)
    ensures
        session_map(s).contains_key(k) <==> (exists|i: int|
            0 <= i < s.len() && s[i].id@ == k),
    decreases s.len(),
{
    if s.len() > 0 {
        lemma_session_map_contains(s.drop_last(), k);
        if s.last().id@ == k {
            assert(s[s.len() - 1].id@ == k);
        } else if session_map(s.drop_last()).contains_key(k) {
            let i = choose|i: int| 0 <= i < s.drop_last().len() && s.drop_last()[i].id@ == k;
            assert(s[i].id@ == k);
        } else if exists|i: int| 0 <= i < s.len() && s[i].id@ == k {
            let i = choose|i: int| 0 <= i < s.len() && s[i].id@ == k;
            assert(i < s.len() - 1 && s.drop_last()[i].id@ == k);
        }
    }
}

proof fn lemma_session_map_index(s: Seq<Session>, i: int)
    requires
        unique_ids(s),
        0 <= i < s.len(),
    ensures
        session_map(s).contains_key(s[i].id@),
        session_map(s)[s[i].id@] == entry_view(s[i]),
    decreases s.len(),
{
    if i == s.len() - 1 {
    } else {
        assert(unique_ids(s.drop_last()));
        assert(s.drop_last()[i] == s[i]);
        lemma_session_map_index(s.drop_last(), i);
        assert(s[i].id@ != s.last().id@);
    }
}

proof fn lemma_session_map_remove(s: Seq<Session>, i: int)
    requires
        unique_ids(s),
        0 <= i < s.len(),
    ensures
        session_map(s.remove(i)) == session_map(s).remove(s[i].id@),
        unique_ids(s.remove(i)),
    decreases s.len(),
{
    let k = s[i].id@;
    assert(unique_ids(s.remove(i))) by {
        assert(forall|a: int, b: int|
            0 <= a < b < s.remove(i).len() ==> s.remove(i)[a].id@ != s.remove(i)[b].id@) by {
            assert(forall|a: int|
                0 <= a < s.remove(i).len() ==> s.remove(i)[a] == (if a < i {
                    s[a]
                } else {
                    s[a + 1]
                }));
        }
    }
    if i == s.len() - 1 {
        assert(s.remove(i) =~= s.drop_last());
        lemma_session_map_contains(s.drop_last(), k);
        assert(!session_map(s.drop_last()).contains_key(k)) by {
            assert(forall|j: int|
                0 <= j < s.drop_last().len() ==> #[trigger] s.drop_last()[j].id@ != k);
        }
        assert(session_map(s).remove(k) =~= session_map(s.drop_last()));
    } else {
        assert(unique_ids(s.drop_last()));
        lemma_session_map_remove(s.drop_last(), i);
        assert(s.remove(i).drop_last() =~= s.drop_last().remove(i));
        assert(s.remove(i).last() == s.last());
        assert(s.drop_last()[i] == s[i]);
        assert(s.last().id@ != k);
        assert(session_map(s.remove(i)) == session_map(s.drop_last()).remove(k).insert(
            s.last().id@,
            entry_view(s.last()),
        ));
        assert(session_map(s.drop_last()).remove(k).insert(s.last().id@, entry_view(s.last()))
            =~= session_map(s.drop_last()).insert(s.last().id@, entry_view(s.last())).remove(k));
    }
}

proof fn lemma_session_map_update(s: Seq<Session>, i: int, x: Session)
    requires
        unique_ids(s),
        0 <= i < s.len(),
        x.id@ == s[i].id@,
    ensures
        session_map(s.update(i, x)) == session_map(s).insert(x.id@, entry_view(x)),
        unique_ids(s.update(i, x)),
    decreases s.len(),
{
    let k = x.id@;
    assert(unique_ids(s.update(i, x))) by {
        assert(forall|a: int|
            0 <= a < s.len() ==> s.update(i, x)[a].id@ == #[trigger] s[a].id@);
    }
    if i == s.len() - 1 {
        assert(s.update(i, x).drop_last() =~= s.drop_last());
        assert(s.update(i, x).last() == x);
        assert(session_map(s.update(i, x)) == session_map(s.drop_last()).insert(k, entry_view(x)));
        assert(session_map(s.drop_last()).insert(k, entry_view(s.last())).insert(k, entry_view(x))
            =~= session_map(s.drop_last()).insert(k, entry_view(x)));
    } else {
        assert(unique_ids(s.drop_last()));
        assert(s.drop_last()[i] == s[i]);
        lemma_session_map_update(s.drop_last(), i, x);
        assert(s.update(i, x).drop_last() =~= s.drop_last().update(i, x));
        assert(s.update(i, x).last() == s.last());
        assert(s.last().id@ != k);
        assert(session_map(s.update(i, x)) == session_map(s.drop_last()).insert(k, entry_view(x))
            .insert(s.last().id@, entry_view(s.last())));
        assert(session_map(s.drop_last()).insert(k, entry_view(x)).insert(
            s.last().id@,
            entry_view(s.last()),
        ) =~= session_map(s.drop_last()).insert(s.last().id@, entry_view(s.last())).insert(
            k,
            entry_view(x),
        ));
    }
}

/// The live set of sessions, addressed by id.  Its view is the map from
/// each live id to that session's geometry.
pub struct SessionRegistry {
    sessions: Vec<Session>,
}

impl View for SessionRegistry {
    type V = Map<Seq<char>, SessionView>;

    closed spec fn view(&self) -> Map<Seq<char>, SessionView> {
        session_map(self.sessions@)
    }
}

impl SessionRegistry {
    /// Well-formedness: at most one live session per id.  Established at
    /// construction and preserved by every operation.
    pub closed spec fn wf(&self) -> bool {
        unique_ids(self.sessions@)
    }

    /// An empty registry.
    pub fn new() -> (r: SessionRegistry)
        ensures
            r.wf(),
            r@ == Map::<Seq<char>, SessionView>::empty(),
    {
        SessionRegistry { sessions: Vec::new() }
    }

    /// The index of the entry with the given id, if one is live.
    fn find_index(&self, id: &String) -> (r: Option<usize>)
        ensures
            match r {
                Some(i) => i < self.sessions@.len() && self.sessions@[i as int].id@ == id@,
                None => forall|i: int| 0 <= i < self.sessions@.len() ==> self.sessions@[i].id@ != id@,
            },
    {
        let n = self.sessions.len();
        let mut i: usize = 0;
        while i < n
            invariant
                i <= n,
                n == self.sessions@.len(),
                forall|j: int| 0 <= j < i ==> self.sessions@[j].id@ != id@,
            decreases n - i,
        {
            let session = &self.sessions[i];
            if session.id == *id {
                return Some(i);
            }
            i = i + 1;
        }
        None
    }

    /// Whether a session with the given id is live.
    pub fn contains(&self, id: &String) -> (r: bool)
        ensures
            r == self@.contains_key(id@),
    {
        proof {
            lemma_session_map_contains(self.sessions@, id@);
        }
        self.find_index(id).is_some()
    }

    /// The current geometry of the session with the given id, as rows and
    /// columns, if one is live.
    pub fn dimensions(&self, id: &String) -> (r: Option<(u16, u16)>)
        requires
            self.wf(),
        ensures
            self@.contains_key(id@) ==> r == Some((self@[id@].rows, self@[id@].cols)),
            !self@.contains_key(id@) ==> r is None,
    {
        proof {
            lemma_session_map_contains(self.sessions@, id@);
        }
        match self.find_index(id) {
            Some(i) => {
                proof {
                    lemma_session_map_index(self.sessions@, i as int);
                }
                let session = &self.sessions[i];
                Some((session.rows, session.cols))
            },
            None => None,
        }
    }

    /// Removes the entry with the given id, if one is live.  Both pty
    /// handles leave the registry in this single step; the shell process is
    /// told to die and reaped, so the session's reader pump sees its stream
    /// end within a bounded delay rather than waiting on a shell that never
    /// notices its handles are gone.
    fn remove_entry(&mut self, id: &String)
        requires
            old(self).wf(),
        ensures
            final(self).wf(),
            final(self)@ == old(self)@.remove(id@),
            forall|i: int|
                0 <= i < final(self).sessions@.len() ==> final(self).sessions@[i].id@ != id@,
    {
        proof {
            lemma_session_map_contains(self.sessions@, id@);
        }
        match self.find_index(id) {
            Some(i) => {
                proof {
                    lemma_session_map_remove(self.sessions@, i as int);
                }
                let mut entry = self.sessions.remove(i);
                let _ = kill_child(&mut entry.child);
                let _ = wait_child(&mut entry.child);
                proof {
                    assert(forall|j: int|
                        0 <= j < self.sessions@.len() ==> self.sessions@[j].id@ != id@) by {
                        assert(forall|j: int|
                            0 <= j < self.sessions@.len() ==> self.sessions@[j] == (if j < i {
                                old(self).sessions@[j]
                            } else {
                                old(self).sessions@[j + 1]
                            }));
                    }
                }
            },
            None => {
                proof {
                    assert(old(self)@.remove(id@) =~= old(self)@);
                }
            },
        }
    }

    /// Inserts a freshly spawned session under the given id, replacing any
    /// prior entry with that id in the same step.
    fn register(
        &mut self,
        id: &String,
        rows: u16,
        cols: u16,
        master: MasterHandle,
        writer: WriterHandle,
        child: ChildHandle,
    )
        requires
            old(self).wf(),
        ensures
            final(self).wf(),
            final(self)@ == old(self)@.insert(id@, SessionView { rows, cols }),
    {
        self.remove_entry(id);
        let ghost pre = self.sessions@;
        let entry = Session { id: id.clone(), rows, cols, master, writer, child };
        self.sessions.push(entry);
        proof {
            assert(self.sessions@.drop_last() =~= pre);
            assert(self.sessions@.last().id@ == id@);
            assert(session_map(self.sessions@) == session_map(pre).insert(
                id@,
                SessionView { rows, cols },
            ));
            assert(old(self)@.remove(id@).insert(id@, SessionView { rows, cols }) =~= old(
                self,
            )@.insert(id@, SessionView { rows, cols }));
            assert(unique_ids(self.sessions@)) by {
                assert(forall|a: int|
                    0 <= a < pre.len() ==> #[trigger] pre[a].id@ != id@);
                assert(forall|a: int|
                    0 <= a < self.sessions@.len() - 1 ==> self.sessions@[a] == pre[a]);
            }
        }
    }

    /// Creates a session: allocates a pty of the given geometry, spawns the
    /// given shell in the given working directory, and registers the
    /// session's handles under `id`, replacing any prior session with that
    /// id.  On success the returned read handle drains the new shell's
    /// output; the caller starts the reader pump with it.  On any failure
    /// nothing is registered: the registry is exactly as it was, and every
    /// handle allocated along the way is released.
    pub fn create(&mut self, id: &String, cols: u16, rows: u16, shell: &String, cwd: &String) -> (r:
        Result<ReaderHandle, SpawnError>)
        requires
            old(self).wf(),
        ensures
            final(self).wf(),
            r is Ok ==> final(self)@ == old(self)@.insert(id@, SessionView { rows, cols }),
            r is Err ==> final(self)@ == old(self)@,
    {
        let (master, slave) = match open_pty(rows, cols) {
            Ok(pair) => pair,
            Err(e) => {
                return Err(e);
            },
        };
        let child = match spawn_shell(slave, shell.as_str(), cwd.as_str()) {
            Ok(child) => child,
            Err(e) => {
                return Err(e);
            },
        };
        let reader = match clone_reader(&master) {
            Ok(reader) => reader,
            Err(e) => {
                return Err(e);
            },
        };
        let writer = match take_writer(&master) {
            Ok(writer) => writer,
            Err(e) => {
                return Err(e);
            },
        };
        self.register(id, rows, cols, master, writer, child);
        Ok(reader)
    }

    /// Sends the given text to the session's shell input.  An id with no
    /// live session is a silent success: nothing happens, nothing fails.
    /// A failure comes only from the write against a live session's
    /// handle, and leaves the registry unchanged either way.
    pub fn write(&mut self, id: &String, data: &str) -> (r: Result<(), IoError>)
        requires
            old(self).wf(),
        ensures
            final(self).wf(),
            final(self)@ == old(self)@,
            !old(self)@.contains_key(id@) ==> r is Ok,
            r is Err ==> old(self)@.contains_key(id@),
    {
        proof {
            lemma_session_map_contains(self.sessions@, id@);
        }
        let i = match self.find_index(id) {
            Some(i) => i,
            None => {
                return Ok(());
            },
        };
        let ghost pre = self.sessions@;
        let session = &mut self.sessions[i];
        let ghost before = *session;
        let r = write_bytes(&mut session.writer, data);
        proof {
            lemma_session_map_update(pre, i as int, self.sessions@[i as int]);
            lemma_session_map_index(pre, i as int);
            assert(self.sessions@ == pre.update(i as int, self.sessions@[i as int]));
            assert(entry_view(self.sessions@[i as int]) == entry_view(before));
            assert(session_map(pre).insert(id@, entry_view(before)) =~= session_map(pre));
        }
        r
    }

    /// Changes the session's window geometry; the shell observes the
    /// change as a terminal resize.  An id with no live session is a
    /// silent success.  On success the registry records the new geometry;
    /// on failure it is unchanged.
    pub fn resize(&mut self, id: &String, cols: u16, rows: u16) -> (r: Result<(), IoError>)
        requires
            old(self).wf(),
        ensures
            final(self).wf(),
            !old(self)@.contains_key(id@) ==> r is Ok && final(self)@ == old(self)@,
            r is Ok && old(self)@.contains_key(id@) ==> final(self)@ == old(self)@.insert(
                id@,
                SessionView { rows, cols },
            ),
            r is Err ==> old(self)@.contains_key(id@) && final(self)@ == old(self)@,
    {
        proof {
            lemma_session_map_contains(self.sessions@, id@);
        }
        let i = match self.find_index(id) {
            Some(i) => i,
            None => {
                return Ok(());
            },
        };
        match resize_master(&self.sessions[i].master, rows, cols) {
            Ok(()) => {
                let ghost pre = self.sessions@;
                let session = &mut self.sessions[i];
                session.rows = rows;
                session.cols = cols;
                proof {
                    lemma_session_map_update(pre, i as int, self.sessions@[i as int]);
                    assert(self.sessions@ == pre.update(i as int, self.sessions@[i as int]));
                }
                Ok(())
            },
            Err(e) => Err(e),
        }
    }

    /// Kills the session with the given id: its entry, with both pty
    /// handles, is removed in one step, and its shell process is ended,
    /// which ends the session's reader pump within a bounded delay.
    /// Killing an id with no live session — never created, already killed,
    /// or reclaimed — is equally a success and changes nothing.
    pub fn kill(&mut self, id: &String)
        requires
            old(self).wf(),
        ensures
            final(self).wf(),
            final(self)@ == old(self)@.remove(id@),
    {
        self.remove_entry(id);
    }
}

/// Killing is idempotent: removing a session's entry twice leaves the
/// registry map exactly as removing it once — and removing an id that was
/// never present leaves the map as it was.
pub proof fn lemma_kill_idempotent(m: Map<Seq<char>, SessionView>, id: Seq<char>)
    ensures
        m.remove(id).remove(id) == m.remove(id),
        !m.contains_key(id) ==> m.remove(id) == m,
{
    assert(m.remove(id).remove(id) =~= m.remove(id));
    if !m.contains_key(id) {
        assert(m.remove(id) =~= m);
    }
}

} // verus!
