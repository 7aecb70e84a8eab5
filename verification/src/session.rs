//! The PTY session bridge: what to launch, the events a session's reader
//! multiplexes onto the shared channel, and the reader-loop state machine.
//!
//! The blocking read, the channel send and the thread itself live outside
//! the crate; every decision the reader makes — what one read outcome
//! emits, when to retry, when to pause, when to stop — is taken here.

use vstd::prelude::*;

use crate::TerminalSize;

verus! {

/// What to spawn on the PTY slave side, and the initial grid size.
#[derive(Debug, Clone)]
pub struct LaunchSpec {
    pub program: String,
    pub args: Vec<String>,
    pub rows: u16,
    pub cols: u16,
}

/// A session failure: the spawn path failed (fatal to that tab), or a
/// write/resize failed on a live session.
#[derive(Debug, Clone)]
pub enum SessionError {
    Spawn(String),
    Io(String),
}

impl SessionError {
    /// The underlying cause, as reported to the user.
    pub fn message(&self) -> (r: String)
        ensures
            r@ == match self {
                SessionError::Spawn(s) => s@,
                SessionError::Io(s) => s@,
            },
    {
        match self {
            SessionError::Spawn(s) => s.clone(),
            SessionError::Io(s) => s.clone(),
        }
    }
}

/// The shells a tab can run.
#[derive(Debug, Clone, Copy, PartialEq, Eq, Structural)]
pub enum ShellKind {
    Zsh,
    Cmd,
    PowerShell,
}

impl ShellKind {
    /// The program, arguments and PTY size a tab of this shell launches
    /// with: an interactive login shell on Unix-like systems, a command or
    /// scripting shell on Windows.
    pub fn launch_spec(self, size: TerminalSize) -> (r: LaunchSpec)
        requires
            size.lines <= 0xFFFF,
            size.columns <= 0xFFFF,
        ensures
            r.rows == size.lines as u16,
            r.cols == size.columns as u16,
            match self {
                ShellKind::Zsh => r.program@ == "zsh"@ && r.args@.len() == 1 && r.args@[0]@
                    == "-i"@,
                ShellKind::Cmd => r.program@ == "cmd"@ && r.args@.len() == 2 && r.args@[0]@
                    == "/Q"@ && r.args@[1]@ == "/K"@,
                ShellKind::PowerShell => r.program@ == "powershell"@ && r.args@.len() == 3
                    && r.args@[0]@ == "-NoLogo"@ && r.args@[1]@ == "-ExecutionPolicy"@
                    && r.args@[2]@ == "Bypass"@,
            },
    {
        let rows: u16 = size.lines as u16;
        let cols: u16 = size.columns as u16;
        match self {
            ShellKind::Zsh => {
                let mut args: Vec<String> = Vec::new();
                args.push("-i".to_owned());
                LaunchSpec { program: "zsh".to_owned(), args, rows, cols }
            },
            ShellKind::Cmd => {
                let mut args: Vec<String> = Vec::new();
                args.push("/Q".to_owned());
                args.push("/K".to_owned());
                LaunchSpec { program: "cmd".to_owned(), args, rows, cols }
            },
            ShellKind::PowerShell => {
                let mut args: Vec<String> = Vec::new();
                args.push("-NoLogo".to_owned());
                args.push("-ExecutionPolicy".to_owned());
                args.push("Bypass".to_owned());
                LaunchSpec { program: "powershell".to_owned(), args, rows, cols }
            },
        }
    }

    /// The shell's display name, used as the tab title.
    pub fn name(self) -> (r: String)
        ensures
            r@ == match self {
                ShellKind::Zsh => "zsh"@,
                ShellKind::Cmd => "cmd"@,
                ShellKind::PowerShell => "powershell"@,
            },
    {
        match self {
            ShellKind::Zsh => "zsh".to_owned(),
            ShellKind::Cmd => "cmd".to_owned(),
            ShellKind::PowerShell => "powershell".to_owned(),
        }
    }
}

/// One event on the multiplexed session output channel, tagged with the
/// stable id consumers route by.  After `Closed` is emitted for an id, no
/// further `Data` for that id follows.
#[derive(Debug, Clone)]
pub enum OutputEvent {
    Data { tab_id: u64, bytes: Vec<u8> },
    Closed { tab_id: u64 },
}

/// The mathematical shape of an [`OutputEvent`].
pub enum EventView {
    Data { tab_id: u64, bytes: Seq<u8> },
    Closed { tab_id: u64 },
}

impl View for OutputEvent {
    type V = EventView;

    open spec fn view(&self) -> EventView {
        match self {
            OutputEvent::Data { tab_id, bytes } => EventView::Data {
                tab_id: *tab_id,
                bytes: bytes@,
            },
            OutputEvent::Closed { tab_id } => EventView::Closed { tab_id: *tab_id },
        }
    }
}

/// What one blocking read on the PTY master came back with.
#[derive(Debug, Clone)]
pub enum ReadOutcome {
    /// Zero bytes: end of stream.
    Eof,
    /// The bytes that were read.
    Chunk(Vec<u8>),
    /// Interrupted by a signal.
    Interrupted,
    /// Nothing available on a non-blocking handle.
    WouldBlock,
    /// Any other I/O error.
    Failed,
}

/// The mathematical shape of a [`ReadOutcome`].
pub enum ReadOutcomeView {
    Eof,
    Chunk(Seq<u8>),
    Interrupted,
    WouldBlock,
    Failed,
}

impl View for ReadOutcome {
    type V = ReadOutcomeView;

    open spec fn view(&self) -> ReadOutcomeView {
        match self {
            ReadOutcome::Eof => ReadOutcomeView::Eof,
            ReadOutcome::Chunk(bytes) => ReadOutcomeView::Chunk(bytes@),
            ReadOutcome::Interrupted => ReadOutcomeView::Interrupted,
            ReadOutcome::WouldBlock => ReadOutcomeView::WouldBlock,
            ReadOutcome::Failed => ReadOutcomeView::Failed,
        }
    }
}

/// What the reader loop does after one read.
#[derive(Debug, Clone, PartialEq, Eq)]
pub enum ReaderAction {
    /// Emit the bytes as a `Data` event and keep reading.
    EmitData(Vec<u8>),
    /// Keep reading immediately.
    Retry,
    /// Sleep briefly, then keep reading.
    Pause,
    /// Emit `Closed` and stop.
    Close,
}

/// The mathematical shape of a [`ReaderAction`].
pub enum ReaderActionView {
    EmitData(Seq<u8>),
    Retry,
    Pause,
    Close,
}

impl View for ReaderAction {
    type V = ReaderActionView;

    open spec fn view(&self) -> ReaderActionView {
        match self {
            ReaderAction::EmitData(bytes) => ReaderActionView::EmitData(bytes@),
            ReaderAction::Retry => ReaderActionView::Retry,
            ReaderAction::Pause => ReaderActionView::Pause,
            ReaderAction::Close => ReaderActionView::Close,
        }
    }
}

/// The action one read outcome maps to: end of stream and hard errors
/// close the session, interrupts retry at once, would-block pauses first,
/// and a non-empty chunk is forwarded (an empty one is retried).
pub open spec fn spec_reader_step(outcome: ReadOutcomeView) -> ReaderActionView {
    match outcome {
        ReadOutcomeView::Eof => ReaderActionView::Close,
        ReadOutcomeView::Chunk(bytes) => if bytes.len() == 0 {
            ReaderActionView::Retry
        } else {
            ReaderActionView::EmitData(bytes)
        },
        ReadOutcomeView::Interrupted => ReaderActionView::Retry,
        ReadOutcomeView::WouldBlock => ReaderActionView::Pause,
        ReadOutcomeView::Failed => ReaderActionView::Close,
    }
}

/// The reader loop's reaction to one read outcome.
pub fn reader_step(outcome: ReadOutcome) -> (r: ReaderAction)
    ensures
        r@ == spec_reader_step(outcome@),
{
    match outcome {
        ReadOutcome::Eof => ReaderAction::Close,
        ReadOutcome::Chunk(bytes) => if bytes.len() == 0 {
            ReaderAction::Retry
        } else {
            ReaderAction::EmitData(bytes)
        },
        ReadOutcome::Interrupted => ReaderAction::Retry,
        ReadOutcome::WouldBlock => ReaderAction::Pause,
        ReadOutcome::Failed => ReaderAction::Close,
    }
}

/// What the surrounding loop must do after handing one read outcome to a
/// [`SessionReader`]: forward `event` if any, sleep briefly when `pause`
/// is set, and exit the loop when `stop` is set.
#[derive(Debug, Clone)]
pub struct ReaderDirective {
    pub event: Option<OutputEvent>,
    pub pause: bool,
    pub stop: bool,
}

/// The per-session reader state: once the session's `Closed` event has
/// been emitted, the reader is done and nothing further is ever emitted
/// for that id.
#[derive(Debug, Clone, Copy, PartialEq, Eq, Structural)]
pub struct SessionReader {
    pub tab_id: u64,
    pub closed: bool,
}

impl SessionReader {
    pub fn new(tab_id: u64) -> (r: Self)
        ensures
            r == (SessionReader { tab_id, closed: false }),
    {
        Self { tab_id, closed: false }
    }

    /// Drive the reader by one read outcome.  A closed reader emits
    /// nothing and only confirms the stop; otherwise the directive follows
    /// [`spec_reader_step`], and `Closed` is emitted exactly on the
    /// transition into the closed state — so every `Data` event of a
    /// session precedes its single `Closed` event.
    pub fn handle(&mut self, outcome: ReadOutcome) -> (r: ReaderDirective)
        ensures
            final(self).tab_id == old(self).tab_id,
            old(self).closed ==> *final(self) == *old(self) && r.event is None && r.stop,
            !old(self).closed ==> match spec_reader_step(outcome@) {
                ReaderActionView::EmitData(bytes) => !final(self).closed && !r.stop && !r.pause
                    && (r.event matches Some(e) && e@ == (EventView::Data {
                    tab_id: old(self).tab_id,
                    bytes,
                })),
                ReaderActionView::Retry => !final(self).closed && !r.stop && !r.pause && r.event
                    is None,
                ReaderActionView::Pause => !final(self).closed && !r.stop && r.pause && r.event
                    is None,
                ReaderActionView::Close => final(self).closed && r.stop && !r.pause
                    && (r.event matches Some(e) && e@ == (EventView::Closed {
                    tab_id: old(self).tab_id,
                })),
            },
    {
        if self.closed {
            return ReaderDirective { event: None, pause: false, stop: true };
        }
        match reader_step(outcome) {
            ReaderAction::EmitData(bytes) => ReaderDirective {
                event: Some(OutputEvent::Data { tab_id: self.tab_id, bytes }),
                pause: false,
                stop: false,
            },
            ReaderAction::Retry => ReaderDirective { event: None, pause: false, stop: false },
            ReaderAction::Pause => ReaderDirective { event: None, pause: true, stop: false },
            ReaderAction::Close => {
                self.closed = true;
                ReaderDirective {
                    event: Some(OutputEvent::Closed { tab_id: self.tab_id }),
                    pause: false,
                    stop: true,
                }
            },
        }
    }
}

/// The events the reader loop emits for a session over a whole sequence of
/// read outcomes: non-empty chunks in order, then one `Closed` at the
/// first end-of-stream or hard error, after which nothing follows.
pub open spec fn spec_reader_events(tab_id: u64, outcomes: Seq<ReadOutcomeView>) -> Seq<EventView>
    decreases outcomes.len(),
{
    if outcomes.len() == 0 {
        Seq::empty()
    } else {
        match spec_reader_step(outcomes[0]) {
            ReaderActionView::EmitData(bytes) => seq![
                EventView::Data { tab_id, bytes },
            ] + spec_reader_events(tab_id, outcomes.drop_first()),
            ReaderActionView::Retry => spec_reader_events(tab_id, outcomes.drop_first()),
            ReaderActionView::Pause => spec_reader_events(tab_id, outcomes.drop_first()),
            ReaderActionView::Close => seq![EventView::Closed { tab_id }],
        }
    }
}

/// The reader loop, minus the blocking I/O: fold a sequence of read
/// outcomes into the events the session emits, stopping at the first
/// outcome that closes the stream.
pub fn run_reader(tab_id: u64, outcomes: &Vec<ReadOutcome>) -> (events: Vec<OutputEvent>)
    ensures
        events@.map_values(|e: OutputEvent| e@) == spec_reader_events(
            tab_id,
            outcomes@.map_values(|o: ReadOutcome| o@),
        ),
{
    let ghost all = outcomes@.map_values(|o: ReadOutcome| o@);
    let mut events: Vec<OutputEvent> = Vec::new();
    let mut i: usize = 0;
    proof {
        assert(all.skip(0) =~= all);
        assert(events@.map_values(|e: OutputEvent| e@) =~= Seq::<EventView>::empty());
        assert(Seq::<EventView>::empty() + spec_reader_events(tab_id, all) =~= spec_reader_events(
            tab_id,
            all,
        ));
    }
    loop
        invariant_except_break
            i <= outcomes@.len(),
            all == outcomes@.map_values(|o: ReadOutcome| o@),
            spec_reader_events(tab_id, all) == events@.map_values(|e: OutputEvent| e@)
                + spec_reader_events(tab_id, all.skip(i as int)),
        ensures
            events@.map_values(|e: OutputEvent| e@) == spec_reader_events(tab_id, all),
        decreases outcomes@.len() - i,
    {
        if i == outcomes.len() {
            proof {
                assert(all.skip(i as int) =~= Seq::<ReadOutcomeView>::empty());
                assert(events@.map_values(|e: OutputEvent| e@) + Seq::<EventView>::empty()
                    =~= events@.map_values(|e: OutputEvent| e@));
            }
            break ;
        }
        let ghost rest = all.skip(i as int);
        proof {
            assert(rest[0] == all[i as int]);
            assert(rest.drop_first() =~= all.skip(i as int + 1));
        }
        match &outcomes[i] {
            ReadOutcome::Eof => {
                let ghost pre = events@;
                events.push(OutputEvent::Closed { tab_id });
                proof {
                    lemma_map_values_push(pre, OutputEvent::Closed { tab_id });
                }
                break ;
            },
            ReadOutcome::Chunk(bytes) => {
                if bytes.len() > 0 {
                    let data = OutputEvent::Data { tab_id, bytes: bytes.clone() };
                    let ghost pre = events@;
                    let ghost pushed = data;
                    events.push(data);
                    proof {
                        lemma_map_values_push(pre, pushed);
                    }
                }
            },
            ReadOutcome::Interrupted => {},
            ReadOutcome::WouldBlock => {},
            ReadOutcome::Failed => {
                let ghost pre = events@;
                events.push(OutputEvent::Closed { tab_id });
                proof {
                    lemma_map_values_push(pre, OutputEvent::Closed { tab_id });
                }
                break ;
            },
        }
        i = i + 1;
    }
    events
}

/// Appending one element commutes with taking views elementwise.
proof fn lemma_map_values_push(events: Seq<OutputEvent>, e: OutputEvent)
    ensures
        events.push(e).map_values(|x: OutputEvent| x@) =~= events.map_values(
            |x: OutputEvent| x@,
        ).push(e@),
{
}

/// A session's event stream is well formed: every `Data` event precedes
/// the (single, final) `Closed` event — once `Closed` is emitted for an
/// id, no further `Data` for that id follows — and an end-of-stream or
/// hard error as the first outcome yields exactly one `Closed` event.
pub proof fn lemma_closed_is_final(tab_id: u64, outcomes: Seq<ReadOutcomeView>)
    ensures
        forall|i: int|
            0 <= i < spec_reader_events(tab_id, outcomes).len() && spec_reader_events(
                tab_id,
                outcomes,
            )[i] is Closed ==> i == spec_reader_events(tab_id, outcomes).len() - 1,
        outcomes.len() > 0 && (outcomes[0] is Eof || outcomes[0] is Failed)
            ==> spec_reader_events(tab_id, outcomes) =~= seq![EventView::Closed { tab_id }],
    decreases outcomes.len(),
{
    if outcomes.len() > 0 {
        lemma_closed_is_final(tab_id, outcomes.drop_first());
    }
}

} // verus!
