//! The rounds of a session served over an SSH channel: first the splash
//! screen, which only listens for a quit key, then the main screen, which
//! applies every key; the session ends on a quit key, or when the client's
//! input goes away on the main screen.

use vstd::prelude::*;

use crate::app::{feed, lemma_skip_keys_leaves_no_key, skip_keys, skip_pending_keys, App, AppView};
use crate::keys::decode_key;

verus! {

/// How long the splash screen shows, in milliseconds.
pub const SPLASH_MILLIS: u64 = 3000;

/// Whether the splash screen is over after `elapsed_ms` milliseconds.
pub fn splash_over(elapsed_ms: u64) -> (r: bool)
    ensures
        r == (elapsed_ms >= SPLASH_MILLIS),
{
    elapsed_ms >= SPLASH_MILLIS
}

/// Which screen a session shows.
#[derive(Debug, Clone, Copy, PartialEq, Eq, Structural)]
pub enum Phase {
    Splash,
    Main,
}

/// What a round received from the client.
pub enum ChannelInput {
    /// These bytes.
    Bytes(Vec<u8>),
    /// Nothing within the round.
    Nothing,
    /// The client's input is gone.
    Disconnected,
}

/// Whether the session goes on.
#[derive(Debug, Clone, Copy, PartialEq, Eq, Structural)]
pub enum Flow {
    Continue,
    Stop,
}

/// A session served over a channel: the screen state, the input bytes that
/// do not make a complete key yet, and the screen shown.
pub struct ChannelSession {
    app: App,
    pending: Vec<u8>,
    phase: Phase,
}

/// A channel session as contracts speak of it.
pub struct ChannelView {
    pub app: AppView,
    pub pending: Seq<u8>,
    pub phase: Phase,
}

impl View for ChannelSession {
    type V = ChannelView;

    closed spec fn view(&self) -> ChannelView {
        ChannelView { app: self.app@, pending: self.pending@, phase: self.phase }
    }
}

/// The bytes a round received.
pub open spec fn received(input: ChannelInput) -> Seq<u8> {
    match input {
        ChannelInput::Bytes(v) => v@,
        _ => Seq::empty(),
    }
}

/// The screen at the start of a round: the splash screen gives way to the
/// main screen once its time is up, and the main screen stays.
pub open spec fn phase_at(phase: Phase, elapsed_ms: u64) -> Phase {
    if phase == Phase::Splash && elapsed_ms >= SPLASH_MILLIS {
        Phase::Main
    } else {
        phase
    }
}

/// How a round's input changes the session, and whether the session stops.
///
/// On the splash screen the received bytes join the waiting ones and their
/// keys are dropped until a quit key, which stops the session; losing the
/// client's input does not stop it there.  On the main screen losing the
/// client's input stops the session; otherwise the bytes join the waiting
/// ones and their keys are applied until a quit key, which stops it.
pub open spec fn after_input(s: ChannelView, input: ChannelInput) -> (ChannelView, bool) {
    match s.phase {
        Phase::Splash => {
            let (quit, rest) = skip_keys(s.pending + received(input));
            (ChannelView { pending: rest, ..s }, quit)
        },
        Phase::Main => {
            if input is Disconnected {
                (s, true)
            } else {
                let (app, quit, rest) = feed(s.app, s.pending + received(input));
                (ChannelView { app, pending: rest, phase: Phase::Main }, quit)
            }
        },
    }
}

impl ChannelSession {
    /// A session that starts on the splash screen with no input waiting.
    pub fn new(app: App) -> (s: ChannelSession)
        ensures
            s@ == (ChannelView { app: app@, pending: Seq::empty(), phase: Phase::Splash }),
    {
        ChannelSession { app, pending: Vec::new(), phase: Phase::Splash }
    }

    /// The screen state.
    pub fn app(&self) -> (a: &App)
        ensures
            a@ == self@.app,
    {
        &self.app
    }

    /// The screen shown.
    pub fn phase(&self) -> (p: Phase)
        ensures
            p == self@.phase,
    {
        self.phase
    }

    /// Starts a round `elapsed_ms` milliseconds after the session started;
    /// returns the screen to show in it.
    pub fn begin_round(&mut self, elapsed_ms: u64) -> (p: Phase)
        ensures
            p == phase_at(old(self)@.phase, elapsed_ms),
            final(self)@ == (ChannelView { phase: p, ..old(self)@ }),
    {
        if self.phase == Phase::Splash && splash_over(elapsed_ms) {
            self.phase = Phase::Main;
        }
        self.phase
    }

    /// Handles what the round received; returns whether the session stops.
    pub fn take_input(&mut self, input: ChannelInput) -> (flow: Flow)
        ensures
            final(self)@ == after_input(old(self)@, input).0,
            (flow == Flow::Stop) == after_input(old(self)@, input).1,
    {
        let ghost before = self@;
        let disconnected = match &input {
            ChannelInput::Disconnected => true,
            _ => false,
        };
        if self.phase == Phase::Main && disconnected {
            return Flow::Stop;
        }
        match input {
            ChannelInput::Bytes(mut v) => {
                self.pending.append(&mut v);
            },
            _ => {
                assert(self.pending@ =~= before.pending + received(input));
            },
        }
        let quit = if self.phase == Phase::Splash {
            skip_pending_keys(&mut self.pending)
        } else {
            self.app.process_input(&mut self.pending)
        };
        if quit {
            Flow::Stop
        } else {
            Flow::Continue
        }
    }

    /// Adopts the client's terminal size; returns whether the screen must be
    /// resized.
    pub fn sync_viewport_from_dims(&mut self, cols: u16, rows: u16) -> (resized: bool)
        ensures
            resized == (cols != old(self)@.app.cols || rows != old(self)@.app.rows),
            final(self)@ == (ChannelView {
                app: AppView { cols, rows, ..old(self)@.app },
                ..old(self)@
            }),
    {
        self.app.sync_viewport_from_dims(cols, rows)
    }
}

/// The splash screen never comes back once the main screen shows; input
/// never changes the screen shown; the splash screen applies no keys, and to
/// it losing the client's input is the same as receiving nothing.
pub proof fn lemma_rounds(s: ChannelView, elapsed_ms: u64, input: ChannelInput)
    ensures
        s.phase == Phase::Main ==> phase_at(s.phase, elapsed_ms) == Phase::Main,
        after_input(s, input).0.phase == s.phase,
        s.phase == Phase::Splash ==> after_input(s, input).0.app == s.app,
        s.phase == Phase::Splash && input is Disconnected ==> after_input(s, input) == after_input(
            s,
            ChannelInput::Nothing,
        ),
{
}


/// Keys typed during the splash screen are gone: after a splash round that
/// did not stop the session, the bytes still waiting are a tail of what was
/// waiting plus what arrived and hold no complete key, so the first round of
/// the main screen with nothing new leaves the screen state as it was.
pub proof fn lemma_splash_drops_keys(s: ChannelView, input: ChannelInput, later: ChannelInput)
    requires
        s.phase == Phase::Splash,
        !after_input(s, input).1,
        !(later is Bytes),
    ensures
        ({
            let all = s.pending + received(input);
            let left = after_input(s, input).0.pending;
            &&& left == all.subrange(all.len() - left.len(), all.len() as int)
            &&& decode_key(left).0 is None
        }),
        ({
            let t = ChannelView { phase: Phase::Main, ..after_input(s, input).0 };
            after_input(t, later).0.app == s.app
        }),
{
    lemma_skip_keys_leaves_no_key(s.pending + received(input));
    let t = ChannelView { phase: Phase::Main, ..after_input(s, input).0 };
    assert(t.pending + received(later) =~= t.pending);
}

} // verus!
