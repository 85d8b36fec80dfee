//! The stream capture controller: process-wide, one-shot redirection of the
//! standard output and standard error streams into the event sink.
//!
//! The host performs the descriptor work (allocating a pipe per stream and
//! duplicating its write end onto the stream's descriptor) and runs one
//! reader thread per captured stream. The decisions live here: the one-time
//! activation guard, the line splitting of the raw pipe bytes, and the
//! assembly of one notification per completed line.

use vstd::prelude::*;

use crate::text::decode_utf8_lossy;
use crate::text::lossy_utf8;

verus! {

/// Payload for output events from the captured standard streams.
#[derive(Debug, Clone, PartialEq, Eq)]
pub struct OutputPayload {
    /// The logical stream name: "stdout" or "stderr".
    pub stream: String,
    /// One completed line of the stream's output.
    pub text: String,
}

/// The process-wide activation guard for stream capture. Capture may occur
/// at most once per process lifetime; once active it runs for the remainder
/// of the process and is never torn down.
pub struct CaptureController {
    active: bool,
}

/// One `activate` call on `pre`: afterwards capture is active, and the
/// caller was told to proceed exactly when it was not active before.
pub open spec fn activate_step(
    pre: CaptureController,
    post: CaptureController,
    proceed: bool,
) -> bool {
    &&& post.is_active()
    &&& proceed == !pre.is_active()
}

impl CaptureController {
    /// Has capture been activated?
    pub closed spec fn is_active(self) -> bool {
        self.active
    }

    /// A controller that has not yet captured anything.
    pub fn new() -> (c: Self)
        ensures
            !c.is_active(),
    {
        CaptureController { active: false }
    }

    /// Flip the activation guard. Returns whether the caller should proceed
    /// to redirect the descriptors and start the reader threads: true only
    /// on the first call.
    pub fn activate(&mut self) -> (proceed: bool)
        ensures
            activate_step(*old(self), *final(self), proceed),
    {
        let was_active = self.active;
        self.active = true;
        !was_active
    }
}

/// Calling the capture activation twice is a no-op the second time: the
/// second call never tells the caller to proceed, so descriptors are not
/// re-duplicated and no duplicate reader threads are started.
pub proof fn lemma_second_activation_is_noop(
    s0: CaptureController,
    s1: CaptureController,
    s2: CaptureController,
    p1: bool,
    p2: bool,
)
    requires
        activate_step(s0, s1, p1),
        activate_step(s1, s2, p2),
    ensures
        !p2,
        s2.is_active() == s1.is_active(),
{
}

/// Split `input`, arriving while `cur` is already pending, into the complete
/// lines it finishes (each without its terminating newline) and the bytes
/// left pending after it.
pub open spec fn split_acc(input: Seq<u8>, cur: Seq<u8>) -> (Seq<Seq<u8>>, Seq<u8>)
    decreases input.len(),
{
    if input.len() == 0 {
        (Seq::empty(), cur)
    } else if input[0] == 10u8 {
        let rest = split_acc(input.drop_first(), Seq::empty());
        (seq![cur] + rest.0, rest.1)
    } else {
        split_acc(input.drop_first(), cur.push(input[0]))
    }
}

/// A completed line without a trailing carriage return, so that both "\n"
/// and "\r\n" delimited streams read naturally.
pub open spec fn strip_cr(line: Seq<u8>) -> Seq<u8> {
    if line.len() > 0 && line.last() == 13u8 {
        line.drop_last()
    } else {
        line
    }
}

/// How the stream is chunked does not matter: feeding `a` and then `b`
/// completes the same lines, in the same order, and leaves the same bytes
/// pending as feeding `a + b` at once.
pub proof fn lemma_split_acc_append(a: Seq<u8>, b: Seq<u8>, cur: Seq<u8>)
    ensures
        split_acc(a + b, cur).0 == split_acc(a, cur).0 + split_acc(b, split_acc(a, cur).1).0,
        split_acc(a + b, cur).1 == split_acc(b, split_acc(a, cur).1).1,
    decreases a.len(),
{
    if a.len() == 0 {
        assert(a + b =~= b);
        assert(split_acc(a, cur).0 + split_acc(b, cur).0 =~= split_acc(b, cur).0);
    } else {
        assert((a + b)[0] == a[0]);
        assert((a + b).len() > 0);
        assert((a + b).drop_first() =~= a.drop_first() + b);
        if a[0] == 10u8 {
            lemma_split_acc_append(a.drop_first(), b, Seq::empty());
            assert(seq![cur] + (split_acc(a.drop_first(), Seq::empty()).0 + split_acc(
                b,
                split_acc(a.drop_first(), Seq::empty()).1,
            ).0) =~= (seq![cur] + split_acc(a.drop_first(), Seq::empty()).0) + split_acc(
                b,
                split_acc(a.drop_first(), Seq::empty()).1,
            ).0);
        } else {
            lemma_split_acc_append(a.drop_first(), b, cur.push(a[0]));
        }
    }
}

/// Accumulates the raw bytes read from one captured stream's pipe and hands
/// back each line as soon as its newline arrives.
pub struct LineBuffer {
    pending: Vec<u8>,
}

impl View for LineBuffer {
    type V = Seq<u8>;

    closed spec fn view(&self) -> Seq<u8> {
        self.pending@
    }
}

impl LineBuffer {
    /// An empty buffer.
    pub fn new() -> (b: Self)
        ensures
            b@ == Seq::<u8>::empty(),
    {
        LineBuffer { pending: Vec::new() }
    }

    /// Feed one read's worth of bytes. Returns the lines the chunk
    /// completes, in order, each stripped of its newline and of a trailing
    /// carriage return and decoded lossily; whatever follows the last
    /// newline stays pending.
    pub fn push_chunk(&mut self, chunk: &[u8]) -> (lines: Vec<String>)
        ensures
            lines@.map_values(|l: String| l@) == split_acc(chunk@, old(self)@).0.map_values(
                |l: Seq<u8>| lossy_utf8(strip_cr(l)),
            ),
            final(self)@ == split_acc(chunk@, old(self)@).1,
    {
        let mut lines: Vec<String> = Vec::new();
        let mut cur: Vec<u8> = Vec::new();
        core::mem::swap(&mut self.pending, &mut cur);
        let ghost pending0 = cur@;
        let ghost done: Seq<Seq<u8>> = Seq::empty();
        let mut i: usize = 0;
        proof {
            assert(chunk@.skip(0) =~= chunk@);
            assert(done + split_acc(chunk@, pending0).0 =~= split_acc(chunk@, pending0).0);
            assert(lines@.map_values(|l: String| l@) =~= done.map_values(
                |l: Seq<u8>| lossy_utf8(strip_cr(l)),
            ));
        }
        let ghost mut done = done;
        while i < chunk.len()
            invariant
                i <= chunk@.len(),
                lines@.map_values(|l: String| l@) == done.map_values(
                    |l: Seq<u8>| lossy_utf8(strip_cr(l)),
                ),
                split_acc(chunk@, pending0).0 == done + split_acc(chunk@.skip(i as int), cur@).0,
                split_acc(chunk@, pending0).1 == split_acc(chunk@.skip(i as int), cur@).1,
            decreases chunk@.len() - i,
        {
            let byte = chunk[i];
            proof {
                assert(chunk@.skip(i as int)[0] == chunk@[i as int]);
                assert(chunk@.skip(i as int).drop_first() =~= chunk@.skip(i as int + 1));
            }
            if byte == 10u8 {
                let ghost raw_line = cur@;
                if cur.len() > 0 && cur[cur.len() - 1] == 13u8 {
                    cur.pop();
                    proof {
                        assert(cur@ =~= strip_cr(raw_line));
                    }
                }
                let ghost lines_before = lines@;
                let ghost done_before = done;
                lines.push(decode_utf8_lossy(cur.as_slice()));
                cur.clear();
                proof {
                    done = done_before.push(raw_line);
                    assert(lines@.map_values(|l: String| l@) =~= lines_before.map_values(
                        |l: String| l@,
                    ).push(lossy_utf8(strip_cr(raw_line))));
                    assert(done.map_values(|l: Seq<u8>| lossy_utf8(strip_cr(l)))
                        =~= done_before.map_values(|l: Seq<u8>| lossy_utf8(strip_cr(l))).push(
                        lossy_utf8(strip_cr(raw_line)),
                    ));
                    assert(done_before + (seq![raw_line] + split_acc(
                        chunk@.skip(i as int + 1),
                        Seq::empty(),
                    ).0) =~= done + split_acc(chunk@.skip(i as int + 1), Seq::empty()).0);
                }
            } else {
                cur.push(byte);
            }
            i = i + 1;
        }
        proof {
            assert(chunk@.skip(chunk@.len() as int) =~= Seq::<u8>::empty());
            assert(done + Seq::<Seq<u8>>::empty() =~= done);
        }
        core::mem::swap(&mut self.pending, &mut cur);
        lines
    }
}

/// The event payload for one completed line of a captured stream: every
/// completed line yields exactly one notification, the empty line included.
pub fn capture_event(stream: &str, text: String) -> (payload: OutputPayload)
    ensures
        payload.stream@ == stream@,
        payload.text == text,
{
    OutputPayload { stream: String::from_str(stream), text }
}

/// The sink channel that captured-stream output is emitted on.
pub fn capture_event_name() -> (name: &'static str)
    ensures
        name@ == "vivid-output"@,
{
    "vivid-output"
}

} // verus!
