//! The kernel's single text console: a placeholder-or-backend cell that can
//! be atomically replaced at runtime. Replacing the active backend first
//! flushes it, so no buffered output is lost or reordered across the swap —
//! two physical transports may alias the same wires, and emitting from the
//! new one before the old one's buffer drains would corrupt the stream.

use vstd::prelude::*;

verus! {

/// The closed set of physical transports a console can be backed by.
#[derive(Clone, Copy, Debug, PartialEq, Eq, Structural)]
pub enum BackendKind {
    MiniUart,
    Pl011Uart,
}

/// Model of one console backend: a transport endpoint with a receive queue
/// (`input`), a transmit buffer of accepted-but-not-yet-emitted characters
/// (`buffered`), and the characters it has physically emitted (`emitted`).
pub struct Backend {
    kind: BackendKind,
    input: Vec<char>,
    buffered: Vec<char>,
    emitted: Vec<char>,
}

impl Backend {
    pub closed spec fn kind_spec(&self) -> BackendKind {
        self.kind
    }

    /// Characters the hardware has received and not yet handed to a reader.
    pub closed spec fn input_seq(&self) -> Seq<char> {
        self.input@
    }

    /// Characters accepted for output but not yet physically emitted.
    pub closed spec fn buffered_seq(&self) -> Seq<char> {
        self.buffered@
    }

    /// Characters this backend has physically emitted, in order.
    pub closed spec fn emitted_seq(&self) -> Seq<char> {
        self.emitted@
    }

    /// Every character this backend has accepted, in order: what it has
    /// emitted followed by what still sits in its buffer.
    pub open spec fn accepted_seq(&self) -> Seq<char> {
        self.emitted_seq() + self.buffered_seq()
    }

    /// A transport endpoint that has accepted no output yet, with `input`
    /// as the characters its receiver will hand out.
    pub fn new(kind: BackendKind, input: Vec<char>) -> (b: Self)
        ensures
            b.kind_spec() == kind,
            b.input_seq() == input@,
            b.buffered_seq() == Seq::<char>::empty(),
            b.emitted_seq() == Seq::<char>::empty(),
    {
        Backend { kind, input, buffered: Vec::new(), emitted: Vec::new() }
    }

    /// Accept one character for output. Nothing is emitted yet.
    pub fn write_char(&mut self, c: char)
        ensures
            final(self).kind_spec() == old(self).kind_spec(),
            final(self).input_seq() == old(self).input_seq(),
            final(self).emitted_seq() == old(self).emitted_seq(),
            final(self).buffered_seq() == old(self).buffered_seq().push(c),
    {
        self.buffered.push(c);
    }

    /// Accept a string's characters for output, in order, none dropped.
    pub fn write_str(&mut self, s: &str)
        ensures
            final(self).kind_spec() == old(self).kind_spec(),
            final(self).input_seq() == old(self).input_seq(),
            final(self).emitted_seq() == old(self).emitted_seq(),
            final(self).buffered_seq() == old(self).buffered_seq() + s@,
    {
        let ghost orig = *self;
        let n = s.unicode_len();
        let mut i: usize = 0;
        while i < n
            invariant
                n == s@.len(),
                i <= n,
                self.kind_spec() == orig.kind_spec(),
                self.input_seq() == orig.input_seq(),
                self.emitted_seq() == orig.emitted_seq(),
                self.buffered_seq() == orig.buffered_seq() + s@.subrange(0, i as int),
            decreases n - i,
        {
            self.write_char(s.get_char(i));
            proof {
                assert(s@.subrange(0, i + 1 as int) =~= s@.subrange(0, i as int).push(
                    s@[i as int],
                ));
            }
            i = i + 1;
        }
        proof {
            assert(s@.subrange(0, n as int) =~= s@);
        }
    }

    /// Emit everything buffered, in order; suspends until the transport has
    /// physically put it out. Afterwards the buffer is empty, so flushing
    /// again emits nothing further.
    pub fn flush(&mut self)
        ensures
            final(self).kind_spec() == old(self).kind_spec(),
            final(self).input_seq() == old(self).input_seq(),
            final(self).emitted_seq() == old(self).emitted_seq() + old(self).buffered_seq(),
            final(self).buffered_seq() == Seq::<char>::empty(),
            final(self).accepted_seq() == old(self).accepted_seq(),
            flush_transition(*old(self), *final(self)),
    {
        self.emitted.append(&mut self.buffered);
        proof {
            assert(final(self).accepted_seq() =~= old(self).accepted_seq());
        }
    }

    /// Hand out the next received character, or `None` when none is
    /// available — the point at which real hardware would block.
    pub fn read_char(&mut self) -> (r: Option<char>)
        ensures
            final(self).kind_spec() == old(self).kind_spec(),
            final(self).buffered_seq() == old(self).buffered_seq(),
            final(self).emitted_seq() == old(self).emitted_seq(),
            if old(self).input_seq().len() > 0 {
                r == Some(old(self).input_seq()[0]) && final(self).input_seq() == old(
                    self,
                ).input_seq().subrange(1, old(self).input_seq().len() as int)
            } else {
                r is None && final(self).input_seq() == old(self).input_seq()
            },
    {
        if self.input.len() > 0 {
            let c = self.input.remove(0);
            proof {
                assert(final(self).input_seq() =~= old(self).input_seq().subrange(
                    1,
                    old(self).input_seq().len() as int,
                ));
            }
            Some(c)
        } else {
            None
        }
    }

    pub fn kind(&self) -> (k: BackendKind)
        ensures
            k == self.kind_spec(),
    {
        self.kind
    }

    pub fn emitted_chars(&self) -> (v: &Vec<char>)
        ensures
            v@ == self.emitted_seq(),
    {
        &self.emitted
    }

    pub fn buffered_chars(&self) -> (v: &Vec<char>)
        ensures
            v@ == self.buffered_seq(),
    {
        &self.buffered
    }
}

/// How a flush changes a backend: everything accepted is now emitted, in
/// order, and the buffer is empty; the receive side is untouched.
pub open spec fn flush_transition(pre: Backend, post: Backend) -> bool {
    &&& post.kind_spec() == pre.kind_spec()
    &&& post.input_seq() == pre.input_seq()
    &&& post.emitted_seq() == pre.emitted_seq() + pre.buffered_seq()
    &&& post.buffered_seq() == Seq::<char>::empty()
}

/// Flushing is idempotent: a second flush with no intervening writes emits
/// no additional characters and changes nothing at all.
pub proof fn lemma_flush_idempotent(b0: Backend, b1: Backend, b2: Backend)
    requires
        flush_transition(b0, b1),
        flush_transition(b1, b2),
    ensures
        b2.emitted_seq() == b1.emitted_seq(),
        b2.buffered_seq() == b1.buffered_seq(),
        b2.input_seq() == b1.input_seq(),
        b2.kind_spec() == b1.kind_spec(),
{
    assert(b2.emitted_seq() =~= b1.emitted_seq());
}

/// The emitted streams of a sequence of backends, in order.
pub open spec fn emitted_streams_of(backends: Seq<Backend>) -> Seq<Seq<char>> {
    Seq::new(backends.len(), |i: int| backends[i].emitted_seq())
}

/// The accepted streams of a sequence of backends, in order.
pub open spec fn accepted_streams_of(backends: Seq<Backend>) -> Seq<Seq<char>> {
    Seq::new(backends.len(), |i: int| backends[i].accepted_seq())
}

/// Every backend in the sequence has an empty transmit buffer.
pub open spec fn all_flushed(backends: Seq<Backend>) -> bool {
    forall|i: int|
        0 <= i < backends.len() ==> (#[trigger] backends[i]).buffered_seq().len() == 0
}

/// The hot-swappable console. Created in a placeholder state with no
/// backend (writes are discarded, reads yield nothing), then given a
/// backend by [`Console::replace_with`], which always flushes the backend
/// it retires. The retired backends are kept in ghost state so the whole
/// emitted history can be spoken of.
pub struct Console {
    active: Option<Backend>,
    retired: Ghost<Seq<Backend>>,
}

impl Console {
    pub closed spec fn active_spec(&self) -> Option<Backend> {
        self.active
    }

    /// Every backend this console has retired, in retirement order.
    pub closed spec fn retired_spec(&self) -> Seq<Backend> {
        self.retired@
    }

    pub open spec fn has_backend(&self) -> bool {
        self.active_spec() is Some
    }

    pub open spec fn active_kind(&self) -> Option<BackendKind> {
        match self.active_spec() {
            Some(b) => Some(b.kind_spec()),
            None => None,
        }
    }

    pub open spec fn active_emitted(&self) -> Seq<char> {
        match self.active_spec() {
            Some(b) => b.emitted_seq(),
            None => Seq::empty(),
        }
    }

    pub open spec fn active_buffered(&self) -> Seq<char> {
        match self.active_spec() {
            Some(b) => b.buffered_seq(),
            None => Seq::empty(),
        }
    }

    pub open spec fn active_input(&self) -> Seq<char> {
        match self.active_spec() {
            Some(b) => b.input_seq(),
            None => Seq::empty(),
        }
    }

    /// Everything the retired backends emitted, in retirement order, as one
    /// flat stream.
    pub open spec fn closed_stream(&self) -> Seq<char> {
        emitted_streams_of(self.retired_spec()).flatten()
    }

    /// The total character stream this console has physically emitted, read
    /// flat: the retired backends' streams in order, then what the active
    /// backend has emitted.
    pub open spec fn emitted_stream(&self) -> Seq<char> {
        self.closed_stream() + self.active_emitted()
    }

    /// The total character stream this console has accepted: the emitted
    /// stream followed by what the active backend still buffers.
    pub open spec fn accepted_stream(&self) -> Seq<char> {
        self.closed_stream() + self.active_emitted() + self.active_buffered()
    }

    /// The console's invariant: every retired backend was flushed on its
    /// way out, so its buffer is empty.
    pub open spec fn wf(&self) -> bool {
        all_flushed(self.retired_spec())
    }

    /// The placeholder console: no backend yet, nothing retired.
    pub fn new() -> (c: Self)
        ensures
            c.wf(),
            !c.has_backend(),
            c.retired_spec() == Seq::<Backend>::empty(),
    {
        Console { active: None, retired: Ghost(Seq::empty()) }
    }

    /// Write one character to the active backend; with no backend yet, the
    /// character is discarded.
    pub fn write_char(&mut self, c: char)
        ensures
            final(self).wf() == old(self).wf(),
            final(self).retired_spec() == old(self).retired_spec(),
            final(self).has_backend() == old(self).has_backend(),
            final(self).active_kind() == old(self).active_kind(),
            final(self).active_input() == old(self).active_input(),
            final(self).active_emitted() == old(self).active_emitted(),
            old(self).has_backend() ==> final(self).active_buffered() == old(
                self,
            ).active_buffered().push(c),
            !old(self).has_backend() ==> *final(self) == *old(self),
    {
        match &mut self.active {
            Some(b) => b.write_char(c),
            None => {},
        }
    }

    /// Write a string's characters in order, no reordering, no truncation;
    /// with no backend yet, they are discarded.
    pub fn write_str(&mut self, s: &str)
        ensures
            final(self).wf() == old(self).wf(),
            final(self).retired_spec() == old(self).retired_spec(),
            final(self).has_backend() == old(self).has_backend(),
            final(self).active_kind() == old(self).active_kind(),
            final(self).active_input() == old(self).active_input(),
            final(self).active_emitted() == old(self).active_emitted(),
            old(self).has_backend() ==> final(self).active_buffered() == old(
                self,
            ).active_buffered() + s@,
            !old(self).has_backend() ==> *final(self) == *old(self),
    {
        match &mut self.active {
            Some(b) => b.write_str(s),
            None => {},
        }
    }

    /// Read the next available input character from the active backend;
    /// `None` when no backend is installed or no character has arrived —
    /// the point at which real hardware would block the caller.
    pub fn read_char(&mut self) -> (r: Option<char>)
        ensures
            final(self).wf() == old(self).wf(),
            final(self).retired_spec() == old(self).retired_spec(),
            final(self).has_backend() == old(self).has_backend(),
            final(self).active_kind() == old(self).active_kind(),
            final(self).active_emitted() == old(self).active_emitted(),
            final(self).active_buffered() == old(self).active_buffered(),
            if old(self).has_backend() && old(self).active_input().len() > 0 {
                r == Some(old(self).active_input()[0]) && final(self).active_input() == old(
                    self,
                ).active_input().subrange(1, old(self).active_input().len() as int)
            } else {
                r is None && final(self).active_input() == old(self).active_input()
            },
    {
        match &mut self.active {
            Some(b) => b.read_char(),
            None => None,
        }
    }

    /// Flush the active backend: suspend until everything it has accepted
    /// is physically emitted. A console still in its placeholder state has
    /// nothing to flush.
    pub fn flush(&mut self)
        ensures
            final(self).wf() == old(self).wf(),
            final(self).retired_spec() == old(self).retired_spec(),
            final(self).has_backend() == old(self).has_backend(),
            final(self).active_kind() == old(self).active_kind(),
            final(self).active_input() == old(self).active_input(),
            final(self).active_buffered() == Seq::<char>::empty(),
            final(self).emitted_stream() == old(self).accepted_stream(),
            final(self).accepted_stream() == old(self).accepted_stream(),
            !old(self).has_backend() ==> *final(self) == *old(self),
    {
        match &mut self.active {
            Some(b) => {
                b.flush();
                proof {
                    assert(final(self).emitted_stream() =~= old(self).accepted_stream());
                    assert(final(self).accepted_stream() =~= old(self).accepted_stream());
                }
            },
            None => {
                proof {
                    assert(final(self).active_buffered() =~= Seq::<char>::empty());
                    assert(final(self).emitted_stream() =~= old(self).accepted_stream());
                }
            },
        }
    }

    /// Install `new_backend`, first flushing the backend being replaced so
    /// that none of its accepted output is lost or overtaken by writes to
    /// the new one. Returns the retired backend, fully flushed, so a caller
    /// can inspect what it put out. The new backend must be fresh: it has
    /// accepted nothing yet.
    pub fn replace_with(&mut self, new_backend: Backend) -> (prev: Option<Backend>)
        requires
            new_backend.buffered_seq().len() == 0,
            new_backend.emitted_seq().len() == 0,
        ensures
            old(self).wf() ==> final(self).wf(),
            final(self).has_backend(),
            final(self).active_kind() == Some(new_backend.kind_spec()),
            final(self).active_input() == new_backend.input_seq(),
            final(self).active_emitted() == Seq::<char>::empty(),
            final(self).active_buffered() == Seq::<char>::empty(),
            final(self).emitted_stream() == old(self).accepted_stream(),
            final(self).accepted_stream() == old(self).accepted_stream(),
            match old(self).active_spec() {
                Some(b) => {
                    &&& prev is Some
                    &&& flush_transition(b, prev.unwrap())
                    &&& final(self).retired_spec() == old(self).retired_spec().push(
                        prev.unwrap(),
                    )
                },
                None => {
                    &&& prev is None
                    &&& final(self).retired_spec() == old(self).retired_spec()
                },
            },
    {
        let mut prev = self.active.take();
        match &mut prev {
            Some(b) => {
                b.flush();
                proof {
                    self.retired@ = self.retired@.push(*b);
                }
            },
            None => {},
        }
        self.active = Some(new_backend);
        proof {
            match old(self).active_spec() {
                Some(b) => {
                    lemma_emitted_streams_push(old(self).retired_spec(), prev.unwrap());
                    assert(final(self).emitted_stream() =~= old(self).accepted_stream());
                    assert(final(self).accepted_stream() =~= old(self).accepted_stream());
                    if old(self).wf() {
                        assert forall|i: int|
                            0 <= i < final(self).retired_spec().len() implies (
                        #[trigger] final(self).retired_spec()[i]).buffered_seq().len() == 0 by {
                            if i < old(self).retired_spec().len() {
                                assert(final(self).retired_spec()[i] == old(
                                    self,
                                ).retired_spec()[i]);
                            }
                        }
                    }
                },
                None => {
                    assert(final(self).emitted_stream() =~= old(self).accepted_stream());
                    assert(final(self).accepted_stream() =~= old(self).accepted_stream());
                },
            }
        }
        prev
    }

    /// The kind of the active backend, if one is installed.
    pub fn backend_kind(&self) -> (k: Option<BackendKind>)
        ensures
            k == self.active_kind(),
    {
        match &self.active {
            Some(b) => Some(b.kind()),
            None => None,
        }
    }

    /// What the active backend has emitted, for inspection; empty in the
    /// placeholder state.
    pub fn active_emitted_chars(&self) -> (v: Vec<char>)
        ensures
            v@ == self.active_emitted(),
    {
        match &self.active {
            Some(b) => b.emitted_chars().clone(),
            None => Vec::new(),
        }
    }

    /// What the active backend has accepted and not yet emitted; empty in
    /// the placeholder state.
    pub fn active_buffered_chars(&self) -> (v: Vec<char>)
        ensures
            v@ == self.active_buffered(),
    {
        match &self.active {
            Some(b) => b.buffered_chars().clone(),
            None => Vec::new(),
        }
    }
}

/// Pushing a backend onto a sequence appends its emitted stream to the
/// flattened whole.
proof fn lemma_emitted_streams_push(backends: Seq<Backend>, b: Backend)
    ensures
        emitted_streams_of(backends.push(b)).flatten() == emitted_streams_of(backends).flatten()
            + b.emitted_seq(),
{
    assert(emitted_streams_of(backends.push(b)) =~= emitted_streams_of(backends).push(
        b.emitted_seq(),
    ));
    emitted_streams_of(backends).lemma_flatten_push(b.emitted_seq());
}

/// The console's no-interleaving law: the total emitted stream is exactly
/// the concatenation of each retired backend's accepted writes, in
/// retirement order, followed by what the active backend has emitted — and
/// the active backend's emitted output is a prefix of its accepted writes.
/// No write crosses a swap boundary.
pub proof fn lemma_stream_is_concat_of_accepted(c: Console)
    requires
        c.wf(),
    ensures
        c.emitted_stream() == accepted_streams_of(c.retired_spec()).flatten()
            + c.active_emitted(),
        c.accepted_stream() == c.emitted_stream() + c.active_buffered(),
{
    assert(emitted_streams_of(c.retired_spec()) =~= accepted_streams_of(c.retired_spec())) by {
        assert forall|i: int|
            0 <= i < c.retired_spec().len() implies (#[trigger] emitted_streams_of(
            c.retired_spec(),
        )[i]) == accepted_streams_of(c.retired_spec())[i] by {
            assert(c.retired_spec()[i].accepted_seq() =~= c.retired_spec()[i].emitted_seq());
        }
    }
    assert(c.accepted_stream() =~= c.emitted_stream() + c.active_buffered());
}

} // verus!

