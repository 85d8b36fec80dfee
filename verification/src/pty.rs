//! The session registry: thread-safe ownership of all live pseudo-terminal
//! sessions and the single authority for identifier assignment.
//!
//! The registry here is the decision core of the multiplexer: it issues
//! monotonically increasing session identifiers, tracks each live session's
//! geometry and write history, and decides which lifecycle requests succeed.
//! The host process wraps one registry in a lock, performs the operating
//! system calls (allocating the terminal pair, spawning the shell, writing and
//! resizing the descriptors) next to the corresponding registry operation, and
//! runs one reader thread per session over the read end.

use vstd::prelude::*;

use crate::text::dec_digits;
use crate::text::u32_to_string;

verus! {

/// Errors from session lifecycle operations.
#[derive(Debug, Clone, PartialEq, Eq)]
pub enum PtyError {
    /// Pseudo-terminal allocation, process launch, or handle acquisition
    /// failed; the payload is the host's description of the failing step.
    SpawnFailed(String),
    /// An operation referenced an identifier that is not live: never issued,
    /// or already closed.
    SessionNotFound(u32),
    /// The operating system reported an error while writing to the session.
    WriteFailed(String),
    /// The operating system reported an error while flushing the session's
    /// write end.
    FlushFailed(String),
    /// The operating system reported an error while resizing the terminal.
    ResizeFailed(String),
    /// The platform lacks the descriptor-duplication primitive needed for
    /// stream capture; non-fatal.
    CaptureUnavailable,
}

impl PtyError {
    /// The human-readable rendering of this error.
    pub open spec fn spec_message(self) -> Seq<char> {
        match self {
            PtyError::SpawnFailed(detail) => detail@,
            PtyError::SessionNotFound(id) => "Session "@ + dec_digits(id as nat) + " not found"@,
            PtyError::WriteFailed(detail) => "Write error: "@ + detail@,
            PtyError::FlushFailed(detail) => "Flush error: "@ + detail@,
            PtyError::ResizeFailed(detail) => "Resize error: "@ + detail@,
            PtyError::CaptureUnavailable => "Output capture is unavailable on this platform"@,
        }
    }

    /// Render the error as the message string shown to the caller.
    pub fn message(&self) -> (s: String)
        ensures
            s@ == self.spec_message(),
    {
        match self {
            PtyError::SpawnFailed(detail) => detail.clone(),
            PtyError::SessionNotFound(id) => {
                let mut s = String::from_str("Session ");
                s.append(u32_to_string(*id).as_str());
                s.append(" not found");
                s
            },
            PtyError::WriteFailed(detail) => {
                let mut s = String::from_str("Write error: ");
                s.append(detail.as_str());
                s
            },
            PtyError::FlushFailed(detail) => {
                let mut s = String::from_str("Flush error: ");
                s.append(detail.as_str());
                s
            },
            PtyError::ResizeFailed(detail) => {
                let mut s = String::from_str("Resize error: ");
                s.append(detail.as_str());
                s
            },
            PtyError::CaptureUnavailable => {
                String::from_str("Output capture is unavailable on this platform")
            },
        }
    }
}

/// Does `r` report that `id` was not live?
pub open spec fn is_not_found(r: Result<(), PtyError>, id: u32) -> bool {
    match r {
        Ok(_) => false,
        Err(e) => e == PtyError::SessionNotFound(id),
    }
}

/// The mathematical content of one live session: its terminal geometry and
/// the text chunks written to it so far, oldest first.
pub struct SessionView {
    pub rows: u16,
    pub cols: u16,
    pub written: Seq<Seq<char>>,
}

/// One live session as the registry tracks it. The terminal pair and its
/// write handle are operating-system resources owned by the host next to this
/// record; the registry holds the facts the lifecycle decisions depend on.
struct PtySession {
    id: u32,
    rows: u16,
    cols: u16,
    written: Ghost<Seq<Seq<char>>>,
}

impl View for PtySession {
    type V = SessionView;

    closed spec fn view(&self) -> SessionView {
        SessionView { rows: self.rows, cols: self.cols, written: self.written@ }
    }
}

/// The map from identifier to session content that a session sequence holds.
spec fn map_of(s: Seq<PtySession>) -> Map<u32, SessionView>
    decreases s.len(),
{
    if s.len() == 0 {
        Map::empty()
    } else {
        map_of(s.drop_last()).insert(s.last().id, s.last()@)
    }
}

/// A key is in `map_of(s)` exactly when some element of `s` carries it.
proof fn lemma_map_of_dom(s: Seq<PtySession>, id: u32)
    ensures
        map_of(s).dom().contains(id) <==> exists|i: int| 0 <= i < s.len() && s[i].id == id,
    decreases s.len(),
{
    if s.len() > 0 {
        lemma_map_of_dom(s.drop_last(), id);
        if s.last().id == id {
            assert(s[s.len() - 1].id == id);
        } else if map_of(s).dom().contains(id) {
            let i = choose|i: int| 0 <= i < s.drop_last().len() && s.drop_last()[i].id == id;
            assert(s[i].id == id);
        } else {
            assert forall|i: int| 0 <= i < s.len() implies s[i].id != id by {
                if i < s.len() - 1 {
                    assert(s.drop_last()[i].id != id);
                }
            }
        }
    }
}

/// With distinct identifiers, the element carrying a key gives its value.
proof fn lemma_map_of_index(s: Seq<PtySession>, i: int)
    requires
        forall|p: int, q: int| 0 <= p < q < s.len() ==> s[p].id != s[q].id,
        0 <= i < s.len(),
    ensures
        map_of(s).dom().contains(s[i].id),
        map_of(s)[s[i].id] == s[i]@,
    decreases s.len(),
{
    if i == s.len() - 1 {
        lemma_map_of_dom(s, s[i].id);
    } else {
        lemma_map_of_index(s.drop_last(), i);
        assert(s.drop_last()[i] == s[i]);
        assert(s.last().id != s[i].id);
    }
}

/// Appending a session with a fresh identifier inserts it into the map.
proof fn lemma_map_of_push(s: Seq<PtySession>, x: PtySession)
    ensures
        map_of(s.push(x)) == map_of(s).insert(x.id, x@),
{
    assert(s.push(x).drop_last() =~= s);
    assert(s.push(x).last() == x);
}

/// Replacing the element at `i` by one with the same identifier overwrites
/// that identifier's entry.
proof fn lemma_map_of_update(s: Seq<PtySession>, i: int, x: PtySession)
    requires
        forall|p: int, q: int| 0 <= p < q < s.len() ==> s[p].id != s[q].id,
        0 <= i < s.len(),
        x.id == s[i].id,
    ensures
        map_of(s.update(i, x)) == map_of(s).insert(x.id, x@),
    decreases s.len(),
{
    let t = s.update(i, x);
    if i == s.len() - 1 {
        assert(t.drop_last() =~= s.drop_last());
        assert(t.last() == x);
    } else {
        assert(t.drop_last() =~= s.drop_last().update(i, x));
        assert(t.last() == s.last());
        lemma_map_of_update(s.drop_last(), i, x);
        assert(map_of(t) == map_of(s.drop_last()).insert(x.id, x@).insert(s.last().id, s.last()@));
        assert(s.last().id != x.id);
        assert(map_of(s.drop_last()).insert(x.id, x@).insert(s.last().id, s.last()@)
            =~= map_of(s.drop_last()).insert(s.last().id, s.last()@).insert(x.id, x@));
    }
}

/// Removing the element at `i` removes exactly its identifier's entry.
proof fn lemma_map_of_remove(s: Seq<PtySession>, i: int)
    requires
        forall|p: int, q: int| 0 <= p < q < s.len() ==> s[p].id != s[q].id,
        0 <= i < s.len(),
    ensures
        map_of(s.remove(i)) == map_of(s).remove(s[i].id),
    decreases s.len(),
{
    let t = s.remove(i);
    if i == s.len() - 1 {
        assert(t =~= s.drop_last());
        lemma_map_of_dom(s.drop_last(), s[i].id);
        assert(!map_of(s.drop_last()).dom().contains(s[i].id));
        assert(map_of(s.remove(i)) =~= map_of(s).remove(s[i].id));
    } else {
        assert(t.drop_last() =~= s.drop_last().remove(i));
        assert(t.last() == s.last());
        lemma_map_of_remove(s.drop_last(), i);
        assert(map_of(t) == map_of(s.drop_last()).remove(s[i].id).insert(s.last().id, s.last()@));
        assert(s.last().id != s[i].id);
        assert(map_of(s.drop_last()).remove(s[i].id).insert(s.last().id, s.last()@)
            =~= map_of(s.drop_last()).insert(s.last().id, s.last()@).remove(s[i].id));
    }
}

/// The session registry: the single authority for identifier assignment and
/// the owner of every live session's lifecycle.
pub struct PtyManager {
    next_id: u32,
    sessions: Vec<PtySession>,
}

impl View for PtyManager {
    type V = Map<u32, SessionView>;

    closed spec fn view(&self) -> Map<u32, SessionView> {
        map_of(self.sessions@)
    }
}

impl PtyManager {
    /// The identifier the next registered session will receive.
    pub closed spec fn next_id(self) -> u32 {
        self.next_id
    }

    /// Internal shape: identifiers strictly increase along the session list
    /// (hence are distinct) and every one of them was issued by the counter.
    pub closed spec fn wf(self) -> bool {
        &&& 1 <= self.next_id
        &&& forall|p: int, q: int|
            0 <= p < q < self.sessions@.len() ==> self.sessions@[p].id < self.sessions@[q].id
        &&& forall|i: int| 0 <= i < self.sessions@.len() ==> self.sessions@[i].id < self.next_id
    }

    /// Every live identifier was issued: it is below the counter.
    pub proof fn lemma_live_ids_below_counter(self, id: u32)
        requires
            self.wf(),
            self@.dom().contains(id),
        ensures
            id < self.next_id(),
    {
        lemma_map_of_dom(self.sessions@, id);
    }

    /// An empty registry whose counter starts at 1.
    pub fn new() -> (m: Self)
        ensures
            m.wf(),
            m@ == Map::<u32, SessionView>::empty(),
            m.next_id() == 1,
    {
        PtyManager { next_id: 1, sessions: Vec::new() }
    }

    /// The identifier the next registered session will receive. Once the
    /// counter is exhausted no further session can be registered.
    pub fn peek_next_id(&self) -> (id: u32)
        ensures
            id == self.next_id(),
    {
        self.next_id
    }

    /// How many sessions are live.
    pub fn session_count(&self) -> (n: usize)
        requires
            self.wf(),
        ensures
            n == self@.dom().len(),
    {
        proof {
            lemma_map_of_len(self.sessions@);
        }
        self.sessions.len()
    }

    /// The position of `session_id` in the session list, if it is live.
    fn find_index(&self, session_id: u32) -> (r: Option<usize>)
        ensures
            match r {
                Some(i) => i < self.sessions@.len() && self.sessions@[i as int].id == session_id,
                None => forall|i: int|
                    0 <= i < self.sessions@.len() ==> self.sessions@[i].id != session_id,
            },
    {
        let mut i: usize = 0;
        while i < self.sessions.len()
            invariant
                i <= self.sessions@.len(),
                forall|j: int| 0 <= j < i ==> self.sessions@[j].id != session_id,
            decreases self.sessions@.len() - i,
        {
            if self.sessions[i].id == session_id {
                return Some(i);
            }
            i = i + 1;
        }
        None
    }

    /// Is `session_id` live: issued and not yet closed?
    pub fn contains(&self, session_id: u32) -> (live: bool)
        requires
            self.wf(),
        ensures
            live == self@.dom().contains(session_id),
    {
        proof {
            lemma_map_of_dom(self.sessions@, session_id);
        }
        self.find_index(session_id).is_some()
    }

    /// The geometry `session_id` was last set to, if it is live.
    pub fn geometry(&self, session_id: u32) -> (r: Option<(u16, u16)>)
        requires
            self.wf(),
        ensures
            match r {
                Some(g) => self@.dom().contains(session_id)
                    && g.0 == self@[session_id].rows
                    && g.1 == self@[session_id].cols,
                None => !self@.dom().contains(session_id),
            },
    {
        proof {
            lemma_map_of_dom(self.sessions@, session_id);
        }
        match self.find_index(session_id) {
            Some(i) => {
                proof {
                    lemma_map_of_index(self.sessions@, i as int);
                }
                Some((self.sessions[i].rows, self.sessions[i].cols))
            },
            None => None,
        }
    }

    /// Assign the next identifier to a freshly allocated session and record
    /// it as live. The host calls this only after the terminal pair is
    /// allocated, the shell is spawned and the handles are acquired, so a
    /// spawn that fails at any of those steps leaves the registry untouched.
    pub fn register_session(&mut self, rows: u16, cols: u16) -> (id: u32)
        requires
            old(self).wf(),
            old(self).next_id() < u32::MAX,
        ensures
            final(self).wf(),
            spawn_step(*old(self), *final(self), rows, cols, id),
    {
        let id = self.next_id;
        self.next_id = self.next_id + 1;
        let session = PtySession { id, rows, cols, written: Ghost(Seq::empty()) };
        proof {
            lemma_map_of_dom(self.sessions@, id);
            lemma_map_of_push(self.sessions@, session);
        }
        self.sessions.push(session);
        id
    }
}

impl PtyManager {
    /// Record a write of `data` to session `session_id`. Succeeds exactly
    /// when the identifier is live; the host performs the operating-system
    /// write (and flush) of the same bytes only on success, so a caller that
    /// lost a race with `close` observes `SessionNotFound` rather than
    /// touching stale state.
    pub fn write(&mut self, session_id: u32, data: &str) -> (r: Result<(), PtyError>)
        requires
            old(self).wf(),
        ensures
            final(self).wf(),
            write_step(*old(self), *final(self), session_id, data@, r is Ok),
            !(r is Ok) ==> is_not_found(r, session_id),
    {
        proof {
            lemma_map_of_dom(self.sessions@, session_id);
        }
        match self.find_index(session_id) {
            Some(i) => {
                proof {
                    lemma_map_of_index(self.sessions@, i as int);
                }
                let s = &self.sessions[i];
                let updated = PtySession {
                    id: s.id,
                    rows: s.rows,
                    cols: s.cols,
                    written: Ghost(s.written@.push(data@)),
                };
                proof {
                    lemma_map_of_update(self.sessions@, i as int, updated);
                }
                self.sessions.set(i, updated);
                Ok(())
            },
            None => Err(PtyError::SessionNotFound(session_id)),
        }
    }

    /// Propagate a new geometry to session `session_id`. Succeeds exactly
    /// when the identifier is live; on success the host issues the
    /// operating-system resize call for the same geometry.
    pub fn resize(&mut self, session_id: u32, rows: u16, cols: u16) -> (r: Result<(), PtyError>)
        requires
            old(self).wf(),
        ensures
            final(self).wf(),
            resize_step(*old(self), *final(self), session_id, rows, cols, r is Ok),
            !(r is Ok) ==> is_not_found(r, session_id),
    {
        proof {
            lemma_map_of_dom(self.sessions@, session_id);
        }
        match self.find_index(session_id) {
            Some(i) => {
                proof {
                    lemma_map_of_index(self.sessions@, i as int);
                }
                let s = &self.sessions[i];
                let updated = PtySession { id: s.id, rows, cols, written: s.written };
                proof {
                    lemma_map_of_update(self.sessions@, i as int, updated);
                }
                self.sessions.set(i, updated);
                Ok(())
            },
            None => Err(PtyError::SessionNotFound(session_id)),
        }
    }

    /// Remove session `session_id` from the registry. Succeeds exactly when
    /// the identifier is live. Dropping the host's handles then releases the
    /// terminal pair; the session's reader thread terminates on its own once
    /// it observes end-of-stream. The identifier is never issued again: the
    /// counter never moves backwards.
    pub fn close(&mut self, session_id: u32) -> (r: Result<(), PtyError>)
        requires
            old(self).wf(),
        ensures
            final(self).wf(),
            close_step(*old(self), *final(self), session_id, r is Ok),
            !(r is Ok) ==> is_not_found(r, session_id),
    {
        proof {
            lemma_map_of_dom(self.sessions@, session_id);
        }
        match self.find_index(session_id) {
            Some(i) => {
                proof {
                    lemma_map_of_remove(self.sessions@, i as int);
                }
                self.sessions.remove(i);
                Ok(())
            },
            None => Err(PtyError::SessionNotFound(session_id)),
        }
    }
}

/// One `write` call on `pre` with outcome `ok`: exactly the live sessions
/// accept writes, a successful write appends to the target's history and
/// touches nothing else, and a failed one changes nothing. The counter is
/// untouched either way.
pub open spec fn write_step(
    pre: PtyManager,
    post: PtyManager,
    id: u32,
    data: Seq<char>,
    ok: bool,
) -> bool {
    &&& ok == pre@.dom().contains(id)
    &&& post.next_id() == pre.next_id()
    &&& if ok {
        post@ == pre@.insert(
            id,
            SessionView {
                rows: pre@[id].rows,
                cols: pre@[id].cols,
                written: pre@[id].written.push(data),
            },
        )
    } else {
        post@ == pre@
    }
}

/// One `resize` call on `pre` with outcome `ok`: exactly the live sessions
/// accept a new geometry, which replaces the stored one and touches nothing
/// else; a failed call changes nothing, and the counter is untouched.
pub open spec fn resize_step(
    pre: PtyManager,
    post: PtyManager,
    id: u32,
    rows: u16,
    cols: u16,
    ok: bool,
) -> bool {
    &&& ok == pre@.dom().contains(id)
    &&& post.next_id() == pre.next_id()
    &&& if ok {
        post@ == pre@.insert(id, SessionView { rows, cols, written: pre@[id].written })
    } else {
        post@ == pre@
    }
}

/// One `close` call on `pre` with outcome `ok`: exactly the live sessions
/// can be closed, closing removes the one entry and touches nothing else, a
/// failed call changes nothing, and the counter is untouched.
pub open spec fn close_step(pre: PtyManager, post: PtyManager, id: u32, ok: bool) -> bool {
    &&& ok == pre@.dom().contains(id)
    &&& post.next_id() == pre.next_id()
    &&& if ok {
        post@ == pre@.remove(id)
    } else {
        post@ == pre@
    }
}

/// One successful `register_session` call: `id` is the counter's value, was
/// not live before, and becomes live with the given geometry and an empty
/// write history; the counter moves past it.
pub open spec fn spawn_step(
    pre: PtyManager,
    post: PtyManager,
    rows: u16,
    cols: u16,
    id: u32,
) -> bool {
    &&& id == pre.next_id()
    &&& !pre@.dom().contains(id)
    &&& post@ == pre@.insert(id, SessionView { rows, cols, written: Seq::empty() })
    &&& post.next_id() == id + 1
}

/// The shell program a new session launches: the value of the `SHELL`
/// environment variable if the host found one, else the fixed default path.
pub fn shell_program(env_shell: Option<String>) -> (shell: String)
    ensures
        match env_shell {
            Some(s) => shell == s,
            None => shell@ == "/bin/zsh"@,
        },
{
    match env_shell {
        Some(s) => s,
        None => String::from_str("/bin/zsh"),
    }
}

/// The terminal-capability environment a spawned shell receives, so that it
/// behaves interactively: the terminal type and its color capability.
pub fn terminal_env() -> (env: Vec<(String, String)>)
    ensures
        env@.len() == 2,
        env@[0].0@ == "TERM"@,
        env@[0].1@ == "xterm-256color"@,
        env@[1].0@ == "COLORTERM"@,
        env@[1].1@ == "truecolor"@,
{
    let mut env: Vec<(String, String)> = Vec::new();
    env.push((String::from_str("TERM"), String::from_str("xterm-256color")));
    env.push((String::from_str("COLORTERM"), String::from_str("truecolor")));
    env
}

/// Some registry operation, successful or not, leads from `pre` to `post`.
pub open spec fn registry_step(pre: PtyManager, post: PtyManager) -> bool {
    ||| exists|rows: u16, cols: u16, id: u32| spawn_step(pre, post, rows, cols, id)
    ||| exists|id: u32, data: Seq<char>, ok: bool| write_step(pre, post, id, data, ok)
    ||| exists|id: u32, rows: u16, cols: u16, ok: bool| resize_step(pre, post, id, rows, cols, ok)
    ||| exists|id: u32, ok: bool| close_step(pre, post, id, ok)
}

/// Consecutive elements of `states` are related by registry operations.
pub open spec fn registry_trace(states: Seq<PtyManager>) -> bool {
    forall|i: int| 0 <= i < states.len() - 1 ==> #[trigger] registry_step(states[i], states[i + 1])
}

/// No registry operation ever moves the identifier counter backwards.
pub proof fn lemma_step_counter_monotone(pre: PtyManager, post: PtyManager)
    requires
        registry_step(pre, post),
    ensures
        post.next_id() >= pre.next_id(),
{
    if exists|rows: u16, cols: u16, id: u32| spawn_step(pre, post, rows, cols, id) {
        let (rows, cols, id) = choose|rows: u16, cols: u16, id: u32|
            spawn_step(pre, post, rows, cols, id);
        assert(post.next_id() == id + 1);
    }
}

/// Along any sequence of registry operations, the identifier counter is
/// monotone.
pub proof fn lemma_trace_counter_monotone(states: Seq<PtyManager>, i: int, j: int)
    requires
        registry_trace(states),
        0 <= i <= j < states.len(),
    ensures
        states[j].next_id() >= states[i].next_id(),
    decreases j - i,
{
    if i < j {
        lemma_trace_counter_monotone(states, i, j - 1);
        assert(registry_step(states[j - 1], states[j - 1 + 1]));
        lemma_step_counter_monotone(states[j - 1], states[j]);
    }
}

/// For all sequences of registry operations, spawned identifiers come out
/// strictly increasing: a spawn that happens later in the trace returns a
/// strictly larger identifier. (Racing callers are serialized by the lock the
/// host wraps around the registry; the trace is their serialization order.)
pub proof fn lemma_spawn_ids_strictly_increase(
    states: Seq<PtyManager>,
    i: int,
    j: int,
    rows1: u16,
    cols1: u16,
    id1: u32,
    rows2: u16,
    cols2: u16,
    id2: u32,
)
    requires
        registry_trace(states),
        0 <= i < j < states.len() - 1,
        spawn_step(states[i], states[i + 1], rows1, cols1, id1),
        spawn_step(states[j], states[j + 1], rows2, cols2, id2),
    ensures
        id2 > id1,
{
    lemma_trace_counter_monotone(states, i + 1, j);
}

/// An identifier that was ever issued — anything below the counter — is never
/// issued again by a later spawn. In particular a closed identifier is never
/// reassigned.
pub proof fn lemma_issued_id_never_reissued(
    states: Seq<PtyManager>,
    i: int,
    j: int,
    id: u32,
    rows: u16,
    cols: u16,
    id2: u32,
)
    requires
        registry_trace(states),
        0 <= i <= j < states.len() - 1,
        id < states[i].next_id(),
        spawn_step(states[j], states[j + 1], rows, cols, id2),
    ensures
        id2 != id,
{
    lemma_trace_counter_monotone(states, i, j);
}

/// After a successful `close(id)` somewhere along a trace of registry
/// operations, no later spawn ever returns `id` again.
pub proof fn lemma_closed_id_never_reassigned(
    states: Seq<PtyManager>,
    i: int,
    j: int,
    id: u32,
    rows: u16,
    cols: u16,
    id2: u32,
)
    requires
        registry_trace(states),
        0 <= i <= j < states.len() - 1,
        states[i].wf(),
        close_step(states[i], states[i + 1], id, true),
        spawn_step(states[j], states[j + 1], rows, cols, id2),
    ensures
        id2 != id,
{
    states[i].lemma_live_ids_below_counter(id);
    lemma_issued_id_never_reissued(states, i, j, id, rows, cols, id2);
}

/// `write`, `resize` or `close` on an identifier that is not live — never
/// issued, or already closed — fails and has no effect on any session.
pub proof fn lemma_unknown_id_has_no_effect(
    pre: PtyManager,
    post: PtyManager,
    id: u32,
    ok: bool,
)
    requires
        !pre@.dom().contains(id),
        (exists|data: Seq<char>| write_step(pre, post, id, data, ok))
            || (exists|rows: u16, cols: u16| resize_step(pre, post, id, rows, cols, ok))
            || close_step(pre, post, id, ok),
    ensures
        !ok,
        post@ == pre@,
{
}

/// After a successful `close(id)`, a subsequent `write` or `resize` on `id`
/// fails, and still has no effect.
pub proof fn lemma_closed_id_rejects_operations(
    s0: PtyManager,
    s1: PtyManager,
    s2: PtyManager,
    id: u32,
    ok: bool,
)
    requires
        close_step(s0, s1, id, true),
        (exists|data: Seq<char>| write_step(s1, s2, id, data, ok))
            || (exists|rows: u16, cols: u16| resize_step(s1, s2, id, rows, cols, ok)),
    ensures
        !ok,
        s2@ == s1@,
{
    assert(!s1@.dom().contains(id));
}

/// With distinct identifiers, the registry holds exactly one entry per
/// session record.
proof fn lemma_map_of_len(s: Seq<PtySession>)
    requires
        forall|p: int, q: int| 0 <= p < q < s.len() ==> s[p].id != s[q].id,
    ensures
        map_of(s).dom().finite(),
        map_of(s).dom().len() == s.len(),
    decreases s.len(),
{
    if s.len() > 0 {
        lemma_map_of_len(s.drop_last());
        lemma_map_of_dom(s.drop_last(), s.last().id);
        assert(!map_of(s.drop_last()).dom().contains(s.last().id));
    }
}

} // verus!
