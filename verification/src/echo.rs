use vstd::prelude::*;

verus! {

/// How the last serial operation went.
#[derive(Clone, Copy, Debug, PartialEq, Eq, Structural)]
pub enum SerialEvent {
    /// A read returned this byte.
    Received(u8),
    /// A write completed.
    Sent,
    /// The operation could not complete yet.
    WouldBlock,
    /// The peripheral reported an error.
    Failed,
}

/// What the firmware is to do next on the serial port.
#[derive(Clone, Copy, Debug, PartialEq, Eq, Structural)]
pub enum SerialCommand {
    /// Try to read a byte.
    Read,
    /// Try to write this byte.
    Write(u8),
    /// Stop: a read failed.
    Halt,
}

/// Where the echo stands.
#[derive(Clone, Copy, Debug, PartialEq, Eq, Structural)]
pub enum EchoState {
    /// Waiting for a byte.
    Reading,
    /// Sending back this byte.
    Writing(u8),
    /// Stopped after a failed read.
    Halted,
}

/// The command of state `s`.
pub open spec fn command_of(s: EchoState) -> SerialCommand {
    match s {
        EchoState::Reading => SerialCommand::Read,
        EchoState::Writing(b) => SerialCommand::Write(b),
        EchoState::Halted => SerialCommand::Halt,
    }
}

/// The state after `e` answers the command of `s`. A read that would block
/// is tried again, a received byte is written back, a write that would block
/// is tried again, and a finished write (sent or failed) returns to reading.
/// A failed read stops the echo. An event that does not answer the command
/// is ignored.
pub open spec fn echo_next(s: EchoState, e: SerialEvent) -> EchoState {
    match (s, e) {
        (EchoState::Reading, SerialEvent::Received(b)) => EchoState::Writing(b),
        (EchoState::Reading, SerialEvent::Failed) => EchoState::Halted,
        (EchoState::Reading, _) => EchoState::Reading,
        (EchoState::Writing(_), SerialEvent::Sent) => EchoState::Reading,
        (EchoState::Writing(_), SerialEvent::Failed) => EchoState::Reading,
        (EchoState::Writing(b), _) => EchoState::Writing(b),
        (EchoState::Halted, _) => EchoState::Halted,
    }
}

/// The serial echo: every byte received is written back.
pub struct Echo {
    state: EchoState,
}

impl View for Echo {
    type V = EchoState;

    closed spec fn view(&self) -> EchoState {
        self.state
    }
}

impl Echo {
    /// An echo waiting for its first byte.
    pub fn new() -> (e: Echo)
        ensures
            e@ == EchoState::Reading,
    {
        Echo { state: EchoState::Reading }
    }

    /// The command to carry out now.
    pub fn command(&self) -> (c: SerialCommand)
        ensures
            c == command_of(self@),
    {
        match self.state {
            EchoState::Reading => SerialCommand::Read,
            EchoState::Writing(b) => SerialCommand::Write(b),
            EchoState::Halted => SerialCommand::Halt,
        }
    }

    /// Takes the outcome of the last command and returns the next one.
    pub fn on_event(&mut self, e: SerialEvent) -> (c: SerialCommand)
        ensures
            final(self)@ == echo_next(old(self)@, e),
            c == command_of(final(self)@),
    {
        let next = match (self.state, e) {
            (EchoState::Reading, SerialEvent::Received(b)) => EchoState::Writing(b),
            (EchoState::Reading, SerialEvent::Failed) => EchoState::Halted,
            (EchoState::Reading, _) => EchoState::Reading,
            (EchoState::Writing(_), SerialEvent::Sent) => EchoState::Reading,
            (EchoState::Writing(_), SerialEvent::Failed) => EchoState::Reading,
            (EchoState::Writing(b), _) => EchoState::Writing(b),
            (EchoState::Halted, _) => EchoState::Halted,
        };
        self.state = next;
        self.command()
    }
}

/// The state after a run of events.
pub open spec fn echo_run(s: EchoState, evs: Seq<SerialEvent>) -> EchoState
    decreases evs.len(),
{
    if evs.len() == 0 {
        s
    } else {
        echo_run(echo_next(s, evs[0]), evs.drop_first())
    }
}

/// The byte that state `s` still has to write back, if any.
pub open spec fn pending(s: EchoState) -> Seq<u8> {
    match s {
        EchoState::Writing(b) => seq![b],
        _ => Seq::empty(),
    }
}

/// The bytes received during a run of events, in order.
pub open spec fn received(s: EchoState, evs: Seq<SerialEvent>) -> Seq<u8>
    decreases evs.len(),
{
    if evs.len() == 0 {
        Seq::empty()
    } else {
        let first = match (s, evs[0]) {
            (EchoState::Reading, SerialEvent::Received(b)) => seq![b],
            _ => Seq::empty(),
        };
        first + received(echo_next(s, evs[0]), evs.drop_first())
    }
}

/// The bytes whose write ended during a run of events, in order, and
/// whether each was sent.
pub open spec fn written(s: EchoState, evs: Seq<SerialEvent>) -> Seq<(u8, bool)>
    decreases evs.len(),
{
    if evs.len() == 0 {
        Seq::empty()
    } else {
        let first = match (s, evs[0]) {
            (EchoState::Writing(b), SerialEvent::Sent) => seq![(b, true)],
            (EchoState::Writing(b), SerialEvent::Failed) => seq![(b, false)],
            _ => Seq::empty(),
        };
        first + written(echo_next(s, evs[0]), evs.drop_first())
    }
}

/// The bytes of a sequence of finished writes.
pub open spec fn bytes_of(w: Seq<(u8, bool)>) -> Seq<u8> {
    w.map_values(|x: (u8, bool)| x.0)
}

/// Echo: whatever the events, the bytes whose write ended, followed by the
/// byte still being written, are exactly the bytes pending at the start
/// followed by the bytes received, in the same order. No byte is written that
/// was not received, none is written twice, and none is skipped.
pub proof fn lemma_echo_preserves_order(s: EchoState, evs: Seq<SerialEvent>)
    ensures
        pending(s) + received(s, evs) == bytes_of(written(s, evs)) + pending(echo_run(s, evs)),
    decreases evs.len(),
{
    if evs.len() == 0 {
        assert(pending(s) + received(s, evs) =~= pending(s));
        assert(bytes_of(written(s, evs)) =~= Seq::<u8>::empty());
    } else {
        let e = evs[0];
        let rest = evs.drop_first();
        let s1 = echo_next(s, e);
        lemma_echo_preserves_order(s1, rest);
        let r0 = match (s, e) {
            (EchoState::Reading, SerialEvent::Received(b)) => seq![b],
            _ => Seq::<u8>::empty(),
        };
        let w0 = match (s, e) {
            (EchoState::Writing(b), SerialEvent::Sent) => seq![(b, true)],
            (EchoState::Writing(b), SerialEvent::Failed) => seq![(b, false)],
            _ => Seq::<(u8, bool)>::empty(),
        };
        assert(received(s, evs) == r0 + received(s1, rest));
        assert(written(s, evs) == w0 + written(s1, rest));
        assert(pending(s) + r0 =~= bytes_of(w0) + pending(s1));
        assert(bytes_of(w0 + written(s1, rest)) =~= bytes_of(w0) + bytes_of(written(s1, rest)));
        assert(pending(s) + received(s, evs) =~= (pending(s) + r0) + received(s1, rest));
        assert(bytes_of(written(s, evs)) + pending(echo_run(s, evs)) =~= bytes_of(w0) + (
        bytes_of(written(s1, rest)) + pending(echo_run(s1, rest))));
    }
}

/// When no operation fails, every write that ended was sent.
pub proof fn lemma_echo_sends_all(s: EchoState, evs: Seq<SerialEvent>)
    requires
        forall|i: int| 0 <= i < evs.len() ==> evs[i] != SerialEvent::Failed,
    ensures
        forall|i: int| 0 <= i < written(s, evs).len() ==> (#[trigger] written(s, evs)[i]).1,
    decreases evs.len(),
{
    if evs.len() > 0 {
        let rest = evs.drop_first();
        let s1 = echo_next(s, evs[0]);
        assert(forall|i: int| 0 <= i < rest.len() ==> rest[i] == evs[i + 1]);
        lemma_echo_sends_all(s1, rest);
        let w0 = match (s, evs[0]) {
            (EchoState::Writing(b), SerialEvent::Sent) => seq![(b, true)],
            (EchoState::Writing(b), SerialEvent::Failed) => seq![(b, false)],
            _ => Seq::<(u8, bool)>::empty(),
        };
        assert(evs[0] != SerialEvent::Failed);
        assert(written(s, evs) == w0 + written(s1, rest));
        assert forall|i: int| 0 <= i < written(s, evs).len() implies (#[trigger] written(s, evs)[i]).1 by {
            if i >= w0.len() {
                assert(written(s, evs)[i] == written(s1, rest)[i - w0.len()]);
            }
        }
    }
}

/// A failed read stops the echo for good.
pub proof fn lemma_failed_read_halts(evs: Seq<SerialEvent>)
    ensures
        echo_next(EchoState::Reading, SerialEvent::Failed) == EchoState::Halted,
        echo_run(EchoState::Halted, evs) == EchoState::Halted,
        received(EchoState::Halted, evs).len() == 0,
        written(EchoState::Halted, evs).len() == 0,
    decreases evs.len(),
{
    if evs.len() > 0 {
        lemma_failed_read_halts(evs.drop_first());
    }
}


/// The byte that the echo writes is the byte it received, unchanged, and
/// whenever it writes a byte that byte is the one it still owes.
pub proof fn lemma_echo_writes_byte_received(b: u8, s: EchoState)
    ensures
        command_of(echo_next(EchoState::Reading, SerialEvent::Received(b))) == SerialCommand::Write(b),
        received(EchoState::Reading, seq![SerialEvent::Received(b)]) == seq![b],
        command_of(s) matches SerialCommand::Write(x) ==> pending(s) == seq![x],
{
    let evs = seq![SerialEvent::Received(b)];
    assert(evs.drop_first() =~= Seq::<SerialEvent>::empty());
    assert(received(EchoState::Reading, evs) =~= seq![b] + received(EchoState::Writing(b), evs.drop_first()));
}
} // verus!
