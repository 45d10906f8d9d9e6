//! Session registry: the single owner of authenticated transports, keyed
//! by session identifier, together with transport authentication planning.
//!
//! The registry is the one shared mutable resource of the whole system; the
//! embedding application wraps one instance in a lock and performs the real
//! network work against the integer handles stored here.  Its view is a map
//! from identifier to session data, and every operation's contract is an
//! equation on that map.

use vstd::prelude::*;
use vstd::string::*;

verus! {

/// A live interactive-shell channel bound to a session: the channel handle
/// and the negotiated terminal size.
#[derive(Clone, Copy, Debug)]
pub struct ShellState {
    pub channel: u64,
    pub cols: u16,
    pub rows: u16,
}

/// One authenticated session: its identifier, the transport handle the
/// application holds for it, and its interactive shell, if one is active.
#[derive(Debug)]
pub struct Session {
    pub id: String,
    pub transport: u64,
    pub shell: Option<ShellState>,
}

/// What the registry records about a session, without the identifier.
#[derive(Debug)]
pub struct SessionData {
    pub transport: u64,
    pub shell: Option<ShellState>,
}

/// The registry's record of one session value.
pub open spec fn session_data(s: Session) -> SessionData {
    SessionData { transport: s.transport, shell: s.shell }
}

/// Some entry carries this identifier.
pub open spec fn has_id(s: Seq<Session>, id: Seq<char>) -> bool {
    exists|i: int| 0 <= i < s.len() && (#[trigger] s[i]).id@ == id
}

/// The position of the entry carrying this identifier.
pub open spec fn idx_of(s: Seq<Session>, id: Seq<char>) -> int {
    choose|i: int| 0 <= i < s.len() && (#[trigger] s[i]).id@ == id
}

/// No two entries share an identifier.
pub open spec fn uniq_ids(s: Seq<Session>) -> bool {
    forall|i: int, j: int|
        0 <= i < j < s.len() ==> (#[trigger] s[i]).id@ != (#[trigger] s[j]).id@
}

/// The map from identifier to session data that a sequence of entries
/// represents.
pub open spec fn map_of(s: Seq<Session>) -> Map<Seq<char>, SessionData> {
    Map::new(|id: Seq<char>| has_id(s, id), |id: Seq<char>| session_data(s[idx_of(s, id)]))
}

proof fn lemma_idx(s: Seq<Session>, id: Seq<char>)
    requires
        uniq_ids(s),
        has_id(s, id),
    ensures
        0 <= idx_of(s, id) < s.len(),
        s[idx_of(s, id)].id@ == id,
        forall|i: int| 0 <= i < s.len() && (#[trigger] s[i]).id@ == id ==> i == idx_of(s, id),
{
    let w = choose|i: int| 0 <= i < s.len() && (#[trigger] s[i]).id@ == id;
    assert(s[w].id@ == id);
    assert forall|i: int| 0 <= i < s.len() && (#[trigger] s[i]).id@ == id implies i == idx_of(
        s,
        id,
    ) by {
        if i != idx_of(s, id) {
            assert(s[i].id@ == s[idx_of(s, id)].id@);
        }
    }
}

proof fn lemma_map_of_push(s: Seq<Session>, x: Session)
    requires
        uniq_ids(s),
        !has_id(s, x.id@),
    ensures
        uniq_ids(s.push(x)),
        map_of(s.push(x)) =~= map_of(s).insert(x.id@, session_data(x)),
{
    let t = s.push(x);
    assert forall|i: int, j: int| 0 <= i < j < t.len() implies (#[trigger] t[i]).id@ != (
    #[trigger] t[j]).id@ by {
        if j < s.len() {
            assert(t[i] == s[i] && t[j] == s[j]);
        } else {
            assert(t[j] == x);
            assert(t[i] == s[i]);
            assert(s[i].id@ != x.id@) by {
                if s[i].id@ == x.id@ {
                    assert(has_id(s, x.id@));
                }
            }
        }
    }
    assert forall|k: Seq<char>| true implies #[trigger] has_id(t, k) == (has_id(s, k) || k
        == x.id@) by {
        if has_id(s, k) {
            let i = choose|i: int| 0 <= i < s.len() && (#[trigger] s[i]).id@ == k;
            assert(t[i].id@ == k);
        }
        if k == x.id@ {
            assert(t[s.len() as int].id@ == k);
        }
        if has_id(t, k) && k != x.id@ {
            let i = choose|i: int| 0 <= i < t.len() && (#[trigger] t[i]).id@ == k;
            assert(i < s.len());
            assert(s[i].id@ == k);
        }
    }
    assert forall|k: Seq<char>| has_id(t, k) implies map_of(t)[k] == map_of(s).insert(
        x.id@,
        session_data(x),
    )[k] by {
        lemma_idx(t, k);
        if k == x.id@ {
            assert(t[s.len() as int].id@ == k);
            assert(idx_of(t, k) == s.len());
        } else {
            lemma_idx(s, k);
            let i = idx_of(s, k);
            assert(t[i].id@ == k);
            assert(idx_of(t, k) == i);
        }
    }
}

proof fn lemma_map_of_remove(s: Seq<Session>, i: int)
    requires
        uniq_ids(s),
        0 <= i < s.len(),
    ensures
        uniq_ids(s.remove(i)),
        map_of(s.remove(i)) =~= map_of(s).remove(s[i].id@),
{
    let t = s.remove(i);
    let rid = s[i].id@;
    assert forall|a: int, b: int| 0 <= a < b < t.len() implies (#[trigger] t[a]).id@ != (
    #[trigger] t[b]).id@ by {
        let a0 = if a < i {
            a
        } else {
            a + 1
        };
        let b0 = if b < i {
            b
        } else {
            b + 1
        };
        assert(t[a] == s[a0] && t[b] == s[b0]);
    }
    assert forall|k: Seq<char>| true implies #[trigger] has_id(t, k) == (has_id(s, k) && k
        != rid) by {
        if has_id(t, k) {
            let a = choose|a: int| 0 <= a < t.len() && (#[trigger] t[a]).id@ == k;
            let a0 = if a < i {
                a
            } else {
                a + 1
            };
            assert(s[a0].id@ == k);
            assert(k != rid) by {
                if k == rid {
                    assert(s[a0].id@ == s[i].id@ && a0 != i);
                    if a0 < i {
                        assert(s[a0].id@ != s[i].id@);
                    } else {
                        assert(s[i].id@ != s[a0].id@);
                    }
                }
            }
        }
        if has_id(s, k) && k != rid {
            let a0 = choose|a: int| 0 <= a < s.len() && (#[trigger] s[a]).id@ == k;
            assert(a0 != i);
            if a0 < i {
                assert(t[a0].id@ == k);
            } else {
                assert(t[a0 - 1] == s[a0]);
                assert(t[a0 - 1].id@ == k);
            }
        }
    }
    assert forall|k: Seq<char>| has_id(t, k) implies map_of(t)[k] == map_of(s).remove(rid)[k] by {
        lemma_idx(t, k);
        lemma_idx(s, k);
        let a = idx_of(t, k);
        let a0 = if a < i {
            a
        } else {
            a + 1
        };
        assert(t[a] == s[a0]);
        assert(idx_of(s, k) == a0);
    }
}

/// Failures of session-table and shell operations.
#[derive(Debug)]
pub enum SessionError {
    NotFound,
    ShellAlreadyActive,
    NoShell,
}

impl SessionError {
    /// The human-readable error text handed to the caller.
    pub fn message(&self) -> (r: String)
        ensures
            *self is NotFound ==> r@ == "session not found"@,
            *self is ShellAlreadyActive ==> r@
                == "an interactive shell is already active for this session"@,
            *self is NoShell ==> r@ == "no interactive shell is active for this session"@,
    {
        match self {
            SessionError::NotFound => String::from_str("session not found"),
            SessionError::ShellAlreadyActive => String::from_str(
                "an interactive shell is already active for this session",
            ),
            SessionError::NoShell => String::from_str(
                "no interactive shell is active for this session",
            ),
        }
    }
}

/// What a removed session leaves behind for the application to close: the
/// transport handle, and the shell channel if one was still active.
#[derive(Debug)]
pub struct ClosedSession {
    pub transport: u64,
    pub shell_channel: Option<u64>,
}

/// The table of live sessions, keyed by identifier.
#[derive(Debug)]
pub struct SessionRegistry {
    pub(crate) entries: Vec<Session>,
}

impl View for SessionRegistry {
    type V = Map<Seq<char>, SessionData>;

    closed spec fn view(&self) -> Map<Seq<char>, SessionData> {
        map_of(self.entries@)
    }
}

impl SessionRegistry {
    /// No two entries share an identifier; every operation preserves this.
    pub closed spec fn wf(&self) -> bool {
        uniq_ids(self.entries@)
    }

    /// A fresh, empty registry.
    pub fn new() -> (r: SessionRegistry)
        ensures
            r.wf(),
            r@ == Map::<Seq<char>, SessionData>::empty(),
    {
        let r = SessionRegistry { entries: Vec::new() };
        proof {
            assert(r@ =~= Map::<Seq<char>, SessionData>::empty());
        }
        r
    }

    fn find_index(&self, id: &String) -> (r: Option<usize>)
        requires
            self.wf(),
        ensures
            match r {
                Some(i) => i < self.entries@.len() && self.entries@[i as int].id@ == id@,
                None => !has_id(self.entries@, id@),
            },
    {
        let mut i: usize = 0;
        while i < self.entries.len()
            invariant
                i <= self.entries@.len(),
                forall|j: int| 0 <= j < i ==> (#[trigger] self.entries@[j]).id@ != id@,
            decreases self.entries@.len() - i,
        {
            if self.entries[i].id.eq(id) {
                return Some(i);
            }
            i = i + 1;
        }
        None
    }

    /// Whether an identifier resolves to a live session.
    pub fn contains(&self, id: &String) -> (r: bool)
        requires
            self.wf(),
        ensures
            r == self@.contains_key(id@),
    {
        match self.find_index(id) {
            Some(_) => true,
            None => false,
        }
    }

    /// Stores a session under its identifier.  An identifier collision
    /// silently replaces the previous entry, as identifiers derived from
    /// host and timestamp may collide.
    pub fn insert(&mut self, session: Session)
        requires
            old(self).wf(),
        ensures
            final(self).wf(),
            final(self)@ == old(self)@.insert(session.id@, session_data(session)),
    {
        let found = self.find_index(&session.id);
        match found {
            Some(i) => {
                proof {
                    lemma_map_of_remove(self.entries@, i as int);
                }
                let ghost before = self.entries@;
                let _ = self.entries.remove(i);
                proof {
                    lemma_map_of_push(self.entries@, session);
                    assert(map_of(self.entries@.push(session)) =~= map_of(before).insert(
                        session.id@,
                        session_data(session),
                    ));
                }
                self.entries.push(session);
            },
            None => {
                proof {
                    lemma_map_of_push(self.entries@, session);
                }
                self.entries.push(session);
            },
        }
    }

    /// Removes the session and hands back the handles the application must
    /// close: the transport, and the shell channel if a shell was active.
    /// Removing an absent identifier reports `NotFound` and changes
    /// nothing.
    pub fn close_session(&mut self, id: &String) -> (r: Result<ClosedSession, SessionError>)
        requires
            old(self).wf(),
        ensures
            final(self).wf(),
            old(self)@.contains_key(id@) ==> {
                &&& r matches Ok(c)
                &&& c.transport == old(self)@[id@].transport
                &&& c.shell_channel == shell_channel_view(old(self)@[id@].shell)
                &&& final(self)@ == old(self)@.remove(id@)
            },
            !old(self)@.contains_key(id@) ==> {
                &&& r == Err::<ClosedSession, SessionError>(SessionError::NotFound)
                &&& final(self)@ == old(self)@
            },
    {
        let found = self.find_index(id);
        match found {
            Some(i) => {
                proof {
                    lemma_idx(self.entries@, id@);
                    lemma_map_of_remove(self.entries@, i as int);
                }
                let entry = self.entries.remove(i);
                let shell_channel = match entry.shell {
                    Some(sh) => Some(sh.channel),
                    None => None,
                };
                Ok(ClosedSession { transport: entry.transport, shell_channel })
            },
            None => Err(SessionError::NotFound),
        }
    }

    /// The transport handle of a live session, for running a command over
    /// a fresh channel.
    pub fn transport_of(&self, id: &String) -> (r: Result<u64, SessionError>)
        requires
            self.wf(),
        ensures
            self@.contains_key(id@) ==> r == Ok::<u64, SessionError>(self@[id@].transport),
            !self@.contains_key(id@) ==> r == Err::<u64, SessionError>(SessionError::NotFound),
    {
        match self.find_index(id) {
            Some(i) => {
                proof {
                    lemma_idx(self.entries@, id@);
                }
                Ok(self.entries[i].transport)
            },
            None => Err(SessionError::NotFound),
        }
    }
}

/// What the application must do to write to a shell: send the bytes on the
/// channel, flush, then pause briefly before the next operation.
#[derive(Debug)]
pub struct WriteDirective {
    pub channel: u64,
    pub bytes: Vec<u8>,
    pub throttle_ms: u64,
}

/// What the application must do to resize a shell: request the new
/// pseudo-terminal size on the channel; no data flows.
#[derive(Debug)]
pub struct ResizeDirective {
    pub channel: u64,
    pub cols: u16,
    pub rows: u16,
}

/// The map after the session's shell record is replaced.
pub open spec fn with_shell(
    m: Map<Seq<char>, SessionData>,
    id: Seq<char>,
    sh: Option<ShellState>,
) -> Map<Seq<char>, SessionData> {
    m.insert(id, SessionData { transport: m[id].transport, shell: sh })
}

/// Starting a shell is allowed exactly when the session is live and has no
/// shell yet.
pub open spec fn start_allowed(m: Map<Seq<char>, SessionData>, id: Seq<char>) -> bool {
    m.contains_key(id) && m[id].shell is None
}

impl SessionRegistry {
    /// Binds a freshly opened pseudo-terminal channel to the session.
    /// Refused when the identifier is unknown or when a shell is already
    /// active: one interactive shell per session at a time.
    pub fn start_shell(&mut self, id: &String, channel: u64, cols: u16, rows: u16) -> (r: Result<
        (),
        SessionError,
    >)
        requires
            old(self).wf(),
        ensures
            final(self).wf(),
            r is Ok <==> start_allowed(old(self)@, id@),
            r is Ok ==> final(self)@ == with_shell(
                old(self)@,
                id@,
                Some(ShellState { channel, cols, rows }),
            ),
            !old(self)@.contains_key(id@) ==> r == Err::<(), SessionError>(SessionError::NotFound),
            old(self)@.contains_key(id@) && old(self)@[id@].shell is Some ==> r == Err::<
                (),
                SessionError,
            >(SessionError::ShellAlreadyActive),
            r is Err ==> final(self)@ == old(self)@,
    {
        let found = self.find_index(id);
        match found {
            Some(i) => {
                proof {
                    lemma_idx(self.entries@, id@);
                }
                if self.entries[i].shell.is_some() {
                    Err(SessionError::ShellAlreadyActive)
                } else {
                    proof {
                        lemma_map_of_remove(self.entries@, i as int);
                    }
                    let ghost before = self.entries@;
                    let mut entry = self.entries.remove(i);
                    entry.shell = Some(ShellState { channel, cols, rows });
                    proof {
                        lemma_map_of_push(self.entries@, entry);
                        assert(map_of(self.entries@.push(entry)) =~= map_of(before).insert(
                            entry.id@,
                            session_data(entry),
                        ));
                    }
                    self.entries.push(entry);
                    Ok(())
                }
            },
            None => Err(SessionError::NotFound),
        }
    }

    /// Drops the session's shell record, handing back the channel to close
    /// if one was active.  Always succeeds, also when no shell or no
    /// session exists: stopping is idempotent.
    pub fn stop_shell(&mut self, id: &String) -> (r: Option<u64>)
        requires
            old(self).wf(),
        ensures
            final(self).wf(),
            old(self)@.contains_key(id@) ==> {
                &&& r == shell_channel_view(old(self)@[id@].shell)
                &&& final(self)@ == with_shell(old(self)@, id@, None)
            },
            !old(self)@.contains_key(id@) ==> r is None && final(self)@ == old(self)@,
    {
        let found = self.find_index(id);
        match found {
            Some(i) => {
                proof {
                    lemma_idx(self.entries@, id@);
                    lemma_map_of_remove(self.entries@, i as int);
                }
                let ghost before = self.entries@;
                let mut entry = self.entries.remove(i);
                let channel = match entry.shell {
                    Some(sh) => Some(sh.channel),
                    None => None,
                };
                entry.shell = None;
                proof {
                    lemma_map_of_push(self.entries@, entry);
                    assert(map_of(self.entries@.push(entry)) =~= map_of(before).insert(
                        entry.id@,
                        session_data(entry),
                    ));
                }
                self.entries.push(entry);
                channel
            },
            None => None,
        }
    }

    /// The write plan for the caller-supplied bytes: they go to the
    /// shell's channel verbatim, followed by the fixed write throttle.
    pub fn write_shell(&self, id: &String, data: Vec<u8>) -> (r: Result<
        WriteDirective,
        SessionError,
    >)
        requires
            self.wf(),
        ensures
            self@.contains_key(id@) && self@[id@].shell is Some ==> {
                &&& r matches Ok(d)
                &&& d.channel == self@[id@].shell->0.channel
                &&& d.bytes@ == data@
                &&& d.throttle_ms == crate::shell::WRITE_THROTTLE_MS
            },
            !self@.contains_key(id@) ==> (r matches Err(e) && e is NotFound),
            self@.contains_key(id@) && self@[id@].shell is None ==> (r matches Err(e) && e
                is NoShell),
    {
        match self.find_index(id) {
            Some(i) => {
                proof {
                    lemma_idx(self.entries@, id@);
                }
                match &self.entries[i].shell {
                    Some(sh) => Ok(
                        WriteDirective {
                            channel: sh.channel,
                            bytes: data,
                            throttle_ms: crate::shell::WRITE_THROTTLE_MS,
                        },
                    ),
                    None => Err(SessionError::NoShell),
                }
            },
            None => Err(SessionError::NotFound),
        }
    }

    /// The resize plan: the new size goes to the shell's channel, and the
    /// registry records it.
    pub fn resize_shell(&mut self, id: &String, cols: u16, rows: u16) -> (r: Result<
        ResizeDirective,
        SessionError,
    >)
        requires
            old(self).wf(),
        ensures
            final(self).wf(),
            old(self)@.contains_key(id@) && old(self)@[id@].shell is Some ==> {
                &&& r matches Ok(d)
                &&& d.channel == old(self)@[id@].shell->0.channel
                &&& d.cols == cols
                &&& d.rows == rows
                &&& final(self)@ == with_shell(
                    old(self)@,
                    id@,
                    Some(ShellState { channel: old(self)@[id@].shell->0.channel, cols, rows }),
                )
            },
            !old(self)@.contains_key(id@) ==> (r matches Err(e) && e is NotFound && final(self)@
                == old(self)@),
            old(self)@.contains_key(id@) && old(self)@[id@].shell is None ==> (r matches Err(e)
                && e is NoShell && final(self)@ == old(self)@),
    {
        let found = self.find_index(id);
        match found {
            Some(i) => {
                proof {
                    lemma_idx(self.entries@, id@);
                }
                match self.entries[i].shell {
                    Some(sh) => {
                        proof {
                            lemma_map_of_remove(self.entries@, i as int);
                        }
                        let ghost before = self.entries@;
                        let mut entry = self.entries.remove(i);
                        entry.shell = Some(ShellState { channel: sh.channel, cols, rows });
                        proof {
                            lemma_map_of_push(self.entries@, entry);
                            assert(map_of(self.entries@.push(entry)) =~= map_of(before).insert(
                                entry.id@,
                                session_data(entry),
                            ));
                        }
                        self.entries.push(entry);
                        Ok(ResizeDirective { channel: sh.channel, cols, rows })
                    },
                    None => Err(SessionError::NoShell),
                }
            },
            None => Err(SessionError::NotFound),
        }
    }

    /// The shell channel a bounded read drains from.
    pub fn shell_channel_of(&self, id: &String) -> (r: Result<u64, SessionError>)
        requires
            self.wf(),
        ensures
            self@.contains_key(id@) && self@[id@].shell is Some ==> r == Ok::<u64, SessionError>(
                self@[id@].shell->0.channel,
            ),
            !self@.contains_key(id@) ==> r == Err::<u64, SessionError>(SessionError::NotFound),
            self@.contains_key(id@) && self@[id@].shell is None ==> r == Err::<u64, SessionError>(
                SessionError::NoShell,
            ),
    {
        match self.find_index(id) {
            Some(i) => {
                proof {
                    lemma_idx(self.entries@, id@);
                }
                match &self.entries[i].shell {
                    Some(sh) => Ok(sh.channel),
                    None => Err(SessionError::NoShell),
                }
            },
            None => Err(SessionError::NotFound),
        }
    }
}

/// After a successful shell start for an identifier, a second start for
/// the same identifier finds the shell active and is refused; after a
/// stop, a start is allowed again.
pub proof fn lemma_shell_restart(m: Map<Seq<char>, SessionData>, id: Seq<char>, sh: ShellState)
    requires
        start_allowed(m, id),
    ensures
        with_shell(m, id, Some(sh)).contains_key(id),
        !start_allowed(with_shell(m, id, Some(sh)), id),
        start_allowed(with_shell(with_shell(m, id, Some(sh)), id, None), id),
{
}

/// The channel handle inside an optional shell record.
pub open spec fn shell_channel_view(sh: Option<ShellState>) -> Option<u64> {
    match sh {
        Some(s) => Some(s.channel),
        None => None,
    }
}

/// Closing a removed identifier again reports "not found" and leaves the
/// registry exactly as it was, and every other identifier keeps its entry
/// untouched by either call: removal is idempotent and local to its key.
pub proof fn lemma_close_session_twice(m: Map<Seq<char>, SessionData>, id: Seq<char>)
    ensures
        !m.remove(id).contains_key(id),
        m.remove(id).remove(id) == m.remove(id),
        forall|k: Seq<char>|
            k != id ==> (#[trigger] m.remove(id).contains_key(k) == m.contains_key(k)),
        forall|k: Seq<char>|
            k != id && m.contains_key(k) ==> (#[trigger] m.remove(id)[k]) == m[k],
{
    assert(m.remove(id).remove(id) =~= m.remove(id));
}

} // verus!
