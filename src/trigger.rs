//! The single recording slot and the rules that turn trigger-key edges into
//! start and stop commands, in hold and in toggle mode.
use vstd::prelude::*;

verus! {

/// Misuse of the recording protocol.
#[derive(Clone, Copy, Debug, PartialEq, Eq, Structural)]
pub enum SessionError {
    /// A recording was started while one is in progress.
    AlreadyRecording,
    /// A recording was stopped while none is in progress.
    NotRecording,
}

pub open spec fn session_error_text(e: SessionError) -> Seq<char> {
    match e {
        SessionError::AlreadyRecording => "Already recording"@,
        SessionError::NotRecording => "Not recording"@,
    }
}

impl SessionError {
    pub fn message(&self) -> (r: String)
        ensures
            r@ == session_error_text(*self),
    {
        match self {
            SessionError::AlreadyRecording => String::from_str("Already recording"),
            SessionError::NotRecording => String::from_str("Not recording"),
        }
    }
}

/// Holds at most one live recording session: the one source of truth for
/// whether a recording is in progress.
pub struct RecordingSlot<S> {
    session: Option<S>,
}

impl<S> View for RecordingSlot<S> {
    type V = Option<S>;

    closed spec fn view(&self) -> Option<S> {
        self.session
    }
}

impl<S> RecordingSlot<S> {
    pub fn new() -> (r: RecordingSlot<S>)
        ensures
            r@ is None,
    {
        RecordingSlot { session: None }
    }

    pub fn is_recording(&self) -> (r: bool)
        ensures
            r == self@ is Some,
    {
        self.session.is_some()
    }

    /// Fails with `AlreadyRecording` exactly when a session is in the slot.
    pub fn check_can_start(&self) -> (r: Result<(), SessionError>)
        ensures
            self@ is Some <==> r == Err::<(), SessionError>(SessionError::AlreadyRecording),
            self@ is None <==> r is Ok,
    {
        if self.session.is_some() {
            Err(SessionError::AlreadyRecording)
        } else {
            Ok(())
        }
    }

    /// Stores a newly started session. When the slot is taken the session is
    /// handed back untouched: that is the `AlreadyRecording` case.
    pub fn fill(&mut self, session: S) -> (r: Result<(), S>)
        ensures
            old(self)@ is None ==> r is Ok && final(self)@ == Some(session),
            old(self)@ is Some ==> r == Err::<(), S>(session) && final(self)@ == old(self)@,
    {
        if self.session.is_some() {
            Err(session)
        } else {
            self.session = Some(session);
            Ok(())
        }
    }

    /// Removes the session in progress, to be stopped and saved.
    pub fn take(&mut self) -> (r: Result<S, SessionError>)
        ensures
            final(self)@ is None,
            old(self)@ is None <==> r == Err::<S, SessionError>(SessionError::NotRecording),
            old(self)@ is Some ==> r == Ok::<S, SessionError>(old(self)@->Some_0),
    {
        match self.session.take() {
            None => Err(SessionError::NotRecording),
            Some(s) => Ok(s),
        }
    }
}

/// How the trigger key drives recording.
#[derive(Clone, Copy, Debug, PartialEq, Eq, Structural)]
pub enum TriggerMode {
    /// Record while the key is held down.
    Hold,
    /// One actuation starts a recording, the next stops it.
    Toggle,
}

/// Where trigger edges come from.
#[derive(Clone, Copy, Debug, PartialEq, Eq, Structural)]
pub enum EdgeSource {
    /// A global shortcut, which fires on press and on release.
    Hotkey,
    /// The low-level key listener, which reports logical press and release.
    KeyListener,
}

/// A transition of the trigger key.
#[derive(Clone, Copy, Debug, PartialEq, Eq, Structural)]
pub enum KeyEdge {
    Pressed,
    Released,
}

/// What the caller is to do with the recording slot after an edge.
#[derive(Clone, Copy, Debug, PartialEq, Eq, Structural)]
pub enum TriggerCommand {
    /// Start audio capture and put the session in the slot.
    Start,
    /// Take the session from the slot, stop it and save it.
    Stop,
    /// Nothing: the edge has no meaning here, or its failure is swallowed.
    Nothing,
}

/// Where a logical session stands.
#[derive(Clone, Copy, Debug, PartialEq, Eq, Structural)]
pub enum TriggerPhase {
    Idle,
    Recording,
    Processing,
}

/// The one edge per physical actuation that toggle mode acts on: the press of
/// a shortcut, the release reported by the key listener.
pub open spec fn toggle_edge(source: EdgeSource) -> KeyEdge {
    match source {
        EdgeSource::Hotkey => KeyEdge::Pressed,
        EdgeSource::KeyListener => KeyEdge::Released,
    }
}

/// The command for an edge, given whether a recording is in progress.
///
/// In hold mode a press starts and a release stops; a repeated press while
/// recording (key repeat) and a release while idle are swallowed. In toggle
/// mode the meaningful edge flips between start and stop.
pub open spec fn command_spec(
    mode: TriggerMode,
    source: EdgeSource,
    edge: KeyEdge,
    recording: bool,
) -> TriggerCommand {
    match mode {
        TriggerMode::Hold => match edge {
            KeyEdge::Pressed => if recording {
                TriggerCommand::Nothing
            } else {
                TriggerCommand::Start
            },
            KeyEdge::Released => if recording {
                TriggerCommand::Stop
            } else {
                TriggerCommand::Nothing
            },
        },
        TriggerMode::Toggle => if edge == toggle_edge(source) {
            if recording {
                TriggerCommand::Stop
            } else {
                TriggerCommand::Start
            }
        } else {
            TriggerCommand::Nothing
        },
    }
}

/// Whether a recording is in progress after a command has been carried out.
pub open spec fn recording_after(recording: bool, c: TriggerCommand) -> bool {
    match c {
        TriggerCommand::Start => true,
        TriggerCommand::Stop => false,
        TriggerCommand::Nothing => recording,
    }
}

/// The commands that a series of edges produces, each carried out in turn.
pub open spec fn run_edges(
    mode: TriggerMode,
    source: EdgeSource,
    recording: bool,
    edges: Seq<KeyEdge>,
) -> Seq<TriggerCommand>
    decreases edges.len(),
{
    if edges.len() == 0 {
        Seq::empty()
    } else {
        let c = command_spec(mode, source, edges[0], recording);
        seq![c] + run_edges(mode, source, recording_after(recording, c), edges.drop_first())
    }
}

pub open spec fn phase_spec(recording: bool, processing: bool) -> TriggerPhase {
    if recording {
        TriggerPhase::Recording
    } else if processing {
        TriggerPhase::Processing
    } else {
        TriggerPhase::Idle
    }
}

/// Turns trigger edges into commands against the one recording slot.
pub struct TriggerCoordinator<S> {
    mode: TriggerMode,
    source: EdgeSource,
    slot: RecordingSlot<S>,
    processing: bool,
}

impl<S> TriggerCoordinator<S> {
    pub closed spec fn spec_mode(&self) -> TriggerMode {
        self.mode
    }

    pub closed spec fn spec_source(&self) -> EdgeSource {
        self.source
    }

    /// The session in progress, if any.
    pub closed spec fn spec_session(&self) -> Option<S> {
        self.slot@
    }

    /// Whether a finished recording is being transcribed.
    pub closed spec fn spec_processing(&self) -> bool {
        self.processing
    }

    pub fn new(mode: TriggerMode, source: EdgeSource) -> (r: TriggerCoordinator<S>)
        ensures
            r.spec_mode() == mode,
            r.spec_source() == source,
            r.spec_session() is None,
            !r.spec_processing(),
    {
        TriggerCoordinator { mode, source, slot: RecordingSlot::new(), processing: false }
    }

    /// Takes a new mode; settings may change while the process runs.
    pub fn set_mode(&mut self, mode: TriggerMode)
        ensures
            final(self).spec_mode() == mode,
            final(self).spec_source() == old(self).spec_source(),
            final(self).spec_session() == old(self).spec_session(),
            final(self).spec_processing() == old(self).spec_processing(),
    {
        self.mode = mode;
    }

    pub fn is_recording(&self) -> (r: bool)
        ensures
            r == self.spec_session() is Some,
    {
        self.slot.is_recording()
    }

    /// The command for a trigger edge in the current state.
    pub fn command_for(&self, edge: KeyEdge) -> (r: TriggerCommand)
        ensures
            r == command_spec(self.spec_mode(), self.spec_source(), edge, self.spec_session() is Some),
    {
        let recording = self.slot.is_recording();
        match self.mode {
            TriggerMode::Hold => match edge {
                KeyEdge::Pressed => if recording {
                    TriggerCommand::Nothing
                } else {
                    TriggerCommand::Start
                },
                KeyEdge::Released => if recording {
                    TriggerCommand::Stop
                } else {
                    TriggerCommand::Nothing
                },
            },
            TriggerMode::Toggle => {
                let meaningful = match (self.source, edge) {
                    (EdgeSource::Hotkey, KeyEdge::Pressed) => true,
                    (EdgeSource::KeyListener, KeyEdge::Released) => true,
                    _ => false,
                };
                if !meaningful {
                    TriggerCommand::Nothing
                } else if recording {
                    TriggerCommand::Stop
                } else {
                    TriggerCommand::Start
                }
            },
        }
    }

    /// Fails with `AlreadyRecording` exactly when a session is in progress.
    pub fn check_can_start(&self) -> (r: Result<(), SessionError>)
        ensures
            self.spec_session() is Some <==> r == Err::<(), SessionError>(
                SessionError::AlreadyRecording,
            ),
            self.spec_session() is None <==> r is Ok,
    {
        self.slot.check_can_start()
    }

    /// Puts a started session in the slot; hands it back when one is there.
    pub fn begin_recording(&mut self, session: S) -> (r: Result<(), S>)
        ensures
            old(self).spec_session() is None ==> r is Ok && final(self).spec_session() == Some(
                session,
            ),
            old(self).spec_session() is Some ==> r == Err::<(), S>(session)
                && final(self).spec_session() == old(self).spec_session(),
            final(self).spec_mode() == old(self).spec_mode(),
            final(self).spec_source() == old(self).spec_source(),
            final(self).spec_processing() == old(self).spec_processing(),
    {
        self.slot.fill(session)
    }

    /// Takes the session in progress out of the slot; the coordinator is then
    /// processing until `finish_processing`.
    pub fn end_recording(&mut self) -> (r: Result<S, SessionError>)
        ensures
            final(self).spec_session() is None,
            old(self).spec_session() is None <==> r == Err::<S, SessionError>(
                SessionError::NotRecording,
            ),
            old(self).spec_session() is Some ==> r == Ok::<S, SessionError>(
                old(self).spec_session()->Some_0,
            ),
            final(self).spec_processing() == (old(self).spec_processing() || r is Ok),
            final(self).spec_mode() == old(self).spec_mode(),
            final(self).spec_source() == old(self).spec_source(),
    {
        let r = self.slot.take();
        if r.is_ok() {
            self.processing = true;
        }
        r
    }

    /// Marks the transcription of the last recording as done.
    pub fn finish_processing(&mut self)
        ensures
            !final(self).spec_processing(),
            final(self).spec_session() == old(self).spec_session(),
            final(self).spec_mode() == old(self).spec_mode(),
            final(self).spec_source() == old(self).spec_source(),
    {
        self.processing = false;
    }

    pub fn phase(&self) -> (r: TriggerPhase)
        ensures
            r == phase_spec(self.spec_session() is Some, self.spec_processing()),
    {
        if self.slot.is_recording() {
            TriggerPhase::Recording
        } else if self.processing {
            TriggerPhase::Processing
        } else {
            TriggerPhase::Idle
        }
    }
}

/// `k` presses of the trigger key in a row.
pub open spec fn presses(k: nat) -> Seq<KeyEdge> {
    Seq::new(k, |i: int| KeyEdge::Pressed)
}

/// `k` commands that do nothing.
pub open spec fn nothings(k: nat) -> Seq<TriggerCommand> {
    Seq::new(k, |i: int| TriggerCommand::Nothing)
}

proof fn lemma_hold_while_recording(source: EdgeSource, j: nat)
    ensures
        run_edges(TriggerMode::Hold, source, true, presses(j).push(KeyEdge::Released)) == nothings(
            j,
        ).push(TriggerCommand::Stop),
    decreases j,
{
    let edges = presses(j).push(KeyEdge::Released);
    if j == 0 {
        assert(edges == seq![KeyEdge::Released]);
        assert(edges.drop_first() == Seq::<KeyEdge>::empty());
        assert(run_edges(TriggerMode::Hold, source, false, Seq::<KeyEdge>::empty())
            == Seq::<TriggerCommand>::empty());
        assert(nothings(0).push(TriggerCommand::Stop) == seq![TriggerCommand::Stop]);
        assert(seq![TriggerCommand::Stop] + Seq::<TriggerCommand>::empty() == seq![
            TriggerCommand::Stop,
        ]);
    } else {
        let jm: nat = (j - 1) as nat;
        assert(edges[0] == KeyEdge::Pressed);
        assert(edges.drop_first() == presses(jm).push(KeyEdge::Released));
        lemma_hold_while_recording(source, jm);
        assert(seq![TriggerCommand::Nothing] + nothings(jm).push(TriggerCommand::Stop) == nothings(
            j,
        ).push(TriggerCommand::Stop));
    }
}

/// Hold mode: a press, any number of repeated presses (key repeat), then a
/// release start exactly one recording and stop it exactly once; every repeated
/// press is swallowed.
pub proof fn lemma_hold_repeats_swallowed(source: EdgeSource, repeats: nat)
    ensures
        run_edges(
            TriggerMode::Hold,
            source,
            false,
            presses(repeats + 1).push(KeyEdge::Released),
        ) == seq![TriggerCommand::Start] + nothings(repeats).push(TriggerCommand::Stop),
{
    let edges = presses(repeats + 1).push(KeyEdge::Released);
    assert(edges[0] == KeyEdge::Pressed);
    assert(edges.drop_first() == presses(repeats).push(KeyEdge::Released));
    lemma_hold_while_recording(source, repeats);
}

/// Toggle mode: two consecutive meaningful edges start then stop from idle,
/// and stop then start while recording; any other edge does nothing.
pub proof fn lemma_toggle_alternates(source: EdgeSource, recording: bool, other: KeyEdge)
    requires
        other != toggle_edge(source),
    ensures
        run_edges(
            TriggerMode::Toggle,
            source,
            recording,
            seq![toggle_edge(source), toggle_edge(source)],
        ) == if recording {
            seq![TriggerCommand::Stop, TriggerCommand::Start]
        } else {
            seq![TriggerCommand::Start, TriggerCommand::Stop]
        },
        command_spec(TriggerMode::Toggle, source, other, recording) == TriggerCommand::Nothing,
{
    let e = toggle_edge(source);
    let edges = seq![e, e];
    assert(edges.drop_first() == seq![e]);
    assert(seq![e].drop_first() == Seq::<KeyEdge>::empty());
    assert forall|r: bool|
        run_edges(TriggerMode::Toggle, source, r, Seq::<KeyEdge>::empty())
            == Seq::<TriggerCommand>::empty() by {}
    let c1 = command_spec(TriggerMode::Toggle, source, e, recording);
    let r2 = recording_after(recording, c1);
    let c2 = command_spec(TriggerMode::Toggle, source, e, r2);
    let one = seq![e];
    assert(one.len() == 1 && one[0] == e);
    assert(edges[0] == e);
    assert(run_edges(TriggerMode::Toggle, source, r2, one) == seq![c2] + run_edges(
        TriggerMode::Toggle,
        source,
        recording_after(r2, c2),
        one.drop_first(),
    ));
    assert(seq![c2] + Seq::<TriggerCommand>::empty() == seq![c2]);
    assert(seq![c1] + seq![c2] == seq![c1, c2]);
}

} // verus!
