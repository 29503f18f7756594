//! The rules of the SSH server: client numbering, what each session does with
//! the requests of its client, how terminal output is batched, and the
//! server's timing settings.

use vstd::prelude::*;

verus! {

/// Terminal size assumed until the client says otherwise.
pub const DEFAULT_COLS: u16 = 80;

/// Terminal size assumed until the client says otherwise.
pub const DEFAULT_ROWS: u16 = 24;

/// The server: hands out a fresh client number to each connection.
pub struct ShellShopServer {
    next_id: usize,
}

impl View for ShellShopServer {
    type V = usize;

    /// The number the next client gets.
    closed spec fn view(&self) -> usize {
        self.next_id
    }
}

impl Default for ShellShopServer {
    /// A server whose first client gets number 0.
    fn default() -> (s: ShellShopServer)
        ensures
            s@ == 0,
    {
        ShellShopServer { next_id: 0 }
    }
}

impl ShellShopServer {
    /// The session for a new connection: it gets the next client number, and
    /// the number after it (wrapping around) is kept for the next connection.
    pub fn new_client(&mut self) -> (h: ClientHandler)
        ensures
            h@ == fresh_session(old(self)@),
            final(self)@ == old(self)@.wrapping_add(1),
    {
        let id = self.next_id;
        self.next_id = self.next_id.wrapping_add(1);
        ClientHandler::new(id)
    }
}

/// One client's session.
pub struct ClientHandler {
    id: usize,
    cols: u16,
    rows: u16,
    input_open: bool,
    shell_started: bool,
}

/// A session as contracts speak of it.
pub struct SessionView {
    /// The client's number.
    pub id: usize,
    /// The client's terminal size.
    pub cols: u16,
    pub rows: u16,
    /// Whether input from the client goes to the shop.
    pub input_open: bool,
    /// Whether the shop has been started for this client.
    pub shell_started: bool,
}

impl View for ClientHandler {
    type V = SessionView;

    closed spec fn view(&self) -> SessionView {
        SessionView {
            id: self.id,
            cols: self.cols,
            rows: self.rows,
            input_open: self.input_open,
            shell_started: self.shell_started,
        }
    }
}

/// A new session: default terminal size, no shop yet, input not open.
pub open spec fn fresh_session(id: usize) -> SessionView {
    SessionView {
        id,
        cols: DEFAULT_COLS,
        rows: DEFAULT_ROWS,
        input_open: false,
        shell_started: false,
    }
}

/// What a client can ask of its session.
pub enum SessionEvent {
    /// A pseudo-terminal of the given size.
    PtyRequest { cols: u32, rows: u32 },
    /// The shell, that is, the shop.
    ShellRequest,
    /// The terminal was resized.
    WindowChange { cols: u32, rows: u32 },
    /// Input bytes.
    Data,
    /// The channel was closed.
    Close,
    /// The client will send no more input.
    Eof,
}

/// How a session changes on a request.  Sizes arrive as 32-bit numbers and
/// are kept as their low 16 bits.  The shop starts at the first shell
/// request only, and opens the input; closing or ending the channel closes it.
pub open spec fn session_step(s: SessionView, e: SessionEvent) -> SessionView {
    match e {
        SessionEvent::PtyRequest { cols, rows } => SessionView {
            cols: cols as u16,
            rows: rows as u16,
            ..s
        },
        SessionEvent::WindowChange { cols, rows } => SessionView {
            cols: cols as u16,
            rows: rows as u16,
            ..s
        },
        SessionEvent::ShellRequest => {
            if s.shell_started {
                s
            } else {
                SessionView { shell_started: true, input_open: true, ..s }
            }
        },
        SessionEvent::Data => s,
        SessionEvent::Close => SessionView { input_open: false, ..s },
        SessionEvent::Eof => SessionView { input_open: false, ..s },
    }
}

/// A session after a series of requests.
pub open spec fn session_run(s: SessionView, events: Seq<SessionEvent>) -> SessionView
    decreases events.len(),
{
    if events.len() == 0 {
        s
    } else {
        session_step(session_run(s, events.drop_last()), events.last())
    }
}

/// What starting the shop needs to know.
#[derive(Debug, Clone, Copy, PartialEq, Eq, Structural)]
pub struct ShellStart {
    pub client_id: usize,
    pub cols: u16,
    pub rows: u16,
}

impl ClientHandler {
    /// A session for client number `id`.
    pub fn new(id: usize) -> (h: ClientHandler)
        ensures
            h@ == fresh_session(id),
    {
        ClientHandler {
            id,
            cols: DEFAULT_COLS,
            rows: DEFAULT_ROWS,
            input_open: false,
            shell_started: false,
        }
    }

    /// The client's number.
    pub fn id(&self) -> (r: usize)
        ensures
            r == self@.id,
    {
        self.id
    }

    /// The client's terminal size (columns, rows).
    pub fn dims(&self) -> (r: (u16, u16))
        ensures
            r == (self@.cols, self@.rows),
    {
        (self.cols, self.rows)
    }

    /// Every client is let in, whatever the method (none, password, key).
    pub fn accepts_auth(&self) -> (r: bool)
        ensures
            r,
    {
        true
    }

    /// Every session channel the client opens is accepted.
    pub fn accepts_session_channel(&self) -> (r: bool)
        ensures
            r,
    {
        true
    }

    /// The client asks for a pseudo-terminal of `col_width` x `row_height`.
    pub fn pty_request(&mut self, col_width: u32, row_height: u32)
        ensures
            final(self)@ == session_step(
                old(self)@,
                SessionEvent::PtyRequest { cols: col_width, rows: row_height },
            ),
    {
        self.cols = #[verifier::truncate] (col_width as u16);
        self.rows = #[verifier::truncate] (row_height as u16);
    }

    /// The client resized its terminal to `col_width` x `row_height`.
    pub fn window_change_request(&mut self, col_width: u32, row_height: u32)
        ensures
            final(self)@ == session_step(
                old(self)@,
                SessionEvent::WindowChange { cols: col_width, rows: row_height },
            ),
    {
        self.cols = #[verifier::truncate] (col_width as u16);
        self.rows = #[verifier::truncate] (row_height as u16);
    }

    /// The client asks for the shell.  The first time, the shop is to be
    /// started at the current terminal size and input is opened; any later
    /// request is refused.
    pub fn shell_request(&mut self) -> (start: Option<ShellStart>)
        ensures
            final(self)@ == session_step(old(self)@, SessionEvent::ShellRequest),
            start == (if old(self)@.shell_started {
                None
            } else {
                Some(ShellStart { client_id: old(self)@.id, cols: old(self)@.cols, rows: old(self)@.rows })
            }),
    {
        if self.shell_started {
            None
        } else {
            self.shell_started = true;
            self.input_open = true;
            Some(ShellStart { client_id: self.id, cols: self.cols, rows: self.rows })
        }
    }

    /// Input from the client: the bytes to hand to the shop, if its input is open.
    pub fn data(&self, data: &[u8]) -> (forward: Option<Vec<u8>>)
        ensures
            session_step(self@, SessionEvent::Data) == self@,
            forward matches Some(v) ==> v@ == data@,
            forward is Some <==> self@.input_open,
    {
        if self.input_open {
            Some(vstd::slice::slice_to_vec(data))
        } else {
            None
        }
    }

    /// The client closed the channel: no more input goes to the shop.
    pub fn channel_close(&mut self)
        ensures
            final(self)@ == session_step(old(self)@, SessionEvent::Close),
    {
        self.input_open = false;
    }

    /// The client sent end-of-file: no more input goes to the shop.
    pub fn channel_eof(&mut self)
        ensures
            final(self)@ == session_step(old(self)@, SessionEvent::Eof),
    {
        self.input_open = false;
    }
}

/// Whatever the client asks, its number stays, a started shop stays started,
/// and once the input has been closed after the shop started it stays closed:
/// the shop runs at most once per session, and input after close or
/// end-of-file never reaches it.
pub proof fn lemma_session_run(s: SessionView, events: Seq<SessionEvent>)
    ensures
        session_run(s, events).id == s.id,
        s.shell_started ==> session_run(s, events).shell_started,
        s.shell_started && !s.input_open ==> !session_run(s, events).input_open,
        session_run(s, events).input_open ==> session_run(s, events).shell_started || s.input_open,
    decreases events.len(),
{
    if events.len() > 0 {
        lemma_session_run(s, events.drop_last());
    }
}

/// A second shell request in a session is always refused: the request is
/// granted only while no shop has started, and granting it starts the shop.
pub proof fn lemma_shell_once(s: SessionView, events: Seq<SessionEvent>)
    requires
        s.shell_started,
    ensures
        session_run(s, events).shell_started,
        session_step(session_run(s, events), SessionEvent::ShellRequest) == session_run(s, events),
{
    lemma_session_run(s, events);
}

/// Output for the client, collected until it is flushed.
pub struct OutputBuffer {
    sink: Vec<u8>,
}

impl View for OutputBuffer {
    type V = Seq<u8>;

    /// The bytes written and not yet taken.
    closed spec fn view(&self) -> Seq<u8> {
        self.sink@
    }
}

impl OutputBuffer {
    /// An empty buffer.
    pub fn new() -> (b: OutputBuffer)
        ensures
            b@ == Seq::<u8>::empty(),
    {
        OutputBuffer { sink: Vec::new() }
    }

    /// Appends `buf`; all of it is taken, so its length is returned.
    pub fn write(&mut self, buf: &[u8]) -> (n: usize)
        ensures
            final(self)@ == old(self)@ + buf@,
            n == buf@.len(),
    {
        let mut more = vstd::slice::slice_to_vec(buf);
        self.sink.append(&mut more);
        buf.len()
    }

    /// On flush: the bytes collected since the last flush, if there are any,
    /// leaving the buffer empty.
    pub fn take_pending(&mut self) -> (out: Option<Vec<u8>>)
        ensures
            old(self)@.len() == 0 ==> out is None && final(self)@ == old(self)@,
            old(self)@.len() > 0 ==> (out matches Some(v) && v@ == old(self)@),
            old(self)@.len() > 0 ==> final(self)@ == Seq::<u8>::empty(),
    {
        if self.sink.len() == 0 {
            None
        } else {
            let out = self.sink.split_off(0);
            Some(out)
        }
    }
}

/// Timing and transport settings of the SSH server.
#[derive(Debug, Clone, Copy, PartialEq, Eq, Structural)]
pub struct ServerSettings {
    /// Idle sessions are closed after this many seconds.
    pub inactivity_timeout_secs: Option<u64>,
    /// Delay before answering a rejected authentication, in milliseconds.
    pub auth_rejection_time_ms: u64,
    /// Delay before answering the first rejected authentication, in seconds.
    pub auth_rejection_time_initial_secs: Option<u64>,
    /// Whether to turn off Nagle's algorithm on the socket.
    pub nodelay: bool,
}

/// Settings for interactive use: an hour of idleness, half a second after a
/// rejected authentication (none after the first), and no delayed small packets.
pub fn server_settings() -> (s: ServerSettings)
    ensures
        s == (ServerSettings {
            inactivity_timeout_secs: Some(3600),
            auth_rejection_time_ms: 500,
            auth_rejection_time_initial_secs: Some(0),
            nodelay: true,
        }),
{
    ServerSettings {
        inactivity_timeout_secs: Some(3600),
        auth_rejection_time_ms: 500,
        auth_rejection_time_initial_secs: Some(0),
        nodelay: true,
    }
}

} // verus!
