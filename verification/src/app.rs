//! The shop's screen state: which tab is shown, which account entry is
//! selected, the colour scheme, and how keys and raw input change them.

use vstd::prelude::*;

use crate::keys::{
    decode_key, is_quit, is_quit_key, lemma_decode_consumes_prefix, lemma_decode_prefix_stable,
    lemma_decode_waiting_then_more, lemma_decode_waits, pop_key, KeyCode, KeyEvent,
    KeyModifiers,
};

verus! {

/// Number of top-level tabs: account, cart, shop, help.
pub const TAB_COUNT: usize = 4;

/// Index of the last entry of the account menu ("dark/light").
pub const LAST_ACCOUNT_ITEM: usize = 5;

/// The state of one shop session.
pub struct App {
    cols: u16,
    rows: u16,
    selected_tab: usize,
    selected_account: usize,
    is_light_mode: bool,
}

/// What a session's state is, as contracts speak of it.
pub struct AppView {
    pub cols: u16,
    pub rows: u16,
    pub tab: usize,
    pub account: usize,
    pub light: bool,
}

impl View for App {
    type V = AppView;

    closed spec fn view(&self) -> AppView {
        AppView {
            cols: self.cols,
            rows: self.rows,
            tab: self.selected_tab,
            account: self.selected_account,
            light: self.is_light_mode,
        }
    }
}

impl AppView {
    /// The tab is one of the four and the account selection one of the six entries.
    pub open spec fn wf(self) -> bool {
        self.tab < TAB_COUNT && self.account <= LAST_ACCOUNT_ITEM
    }

    /// The same state with another tab selected.
    pub open spec fn with_tab(self, tab: usize) -> AppView {
        AppView { tab, ..self }
    }

    /// The same state with another account entry selected.
    pub open spec fn with_account(self, account: usize) -> AppView {
        AppView { account, ..self }
    }
}

/// How one key press changes the screen state.
///
/// Right and Left cycle through the four tabs; `c`, `s`, `h` jump to cart,
/// shop and help (`c` only without Ctrl); `a` jumps to the account tab, or on
/// it selects the previous entry (wrapping to the last); `d` on the account
/// tab selects the next entry (wrapping to the first); Enter on the last
/// account entry switches between dark and light.  Other keys change nothing.
pub open spec fn next_view(s: AppView, e: KeyEvent) -> AppView {
    match e.code {
        KeyCode::Right => s.with_tab(((s.tab + 1) % 4) as usize),
        KeyCode::Left => s.with_tab(((s.tab + 3) % 4) as usize),
        KeyCode::Char(c) => {
            if c == 'd' {
                if s.tab == 0 {
                    s.with_account(
                        if s.account >= LAST_ACCOUNT_ITEM {
                            0
                        } else {
                            (s.account + 1) as usize
                        },
                    )
                } else {
                    s
                }
            } else if c == 'a' {
                if s.tab == 0 {
                    s.with_account(
                        if s.account == 0 {
                            LAST_ACCOUNT_ITEM
                        } else {
                            (s.account - 1) as usize
                        },
                    )
                } else {
                    s.with_tab(0)
                }
            } else if c == 'c' && !e.modifiers.has_control() {
                s.with_tab(1)
            } else if c == 's' {
                s.with_tab(2)
            } else if c == 'h' {
                s.with_tab(3)
            } else {
                s
            }
        },
        KeyCode::Enter => {
            if s.tab == 0 && s.account == LAST_ACCOUNT_ITEM {
                AppView { light: !s.light, ..s }
            } else {
                s
            }
        },
        _ => s,
    }
}

/// Feeding raw input to a session: keys are decoded from the front and
/// applied in order until a quit key (which is consumed and ends the feed) or
/// until no complete key is left.  Returns the new state, whether a quit key
/// came, and the bytes still waiting.
pub open spec fn feed(s: AppView, buf: Seq<u8>) -> (AppView, bool, Seq<u8>)
    decreases buf.len(),
{
    match decode_key(buf).0 {
        None => (s, false, decode_key(buf).1),
        Some(e) => {
            if is_quit_key(e) {
                (s, true, decode_key(buf).1)
            } else {
                proof {
                    lemma_decode_consumes_prefix(buf);
                }
                feed(next_view(s, e), decode_key(buf).1)
            }
        },
    }
}

/// Discarding raw input while the splash screen shows: keys are decoded and
/// dropped until a quit key or until no complete key is left.  Returns
/// whether a quit key came and the bytes still waiting.
pub open spec fn skip_keys(buf: Seq<u8>) -> (bool, Seq<u8>)
    decreases buf.len(),
{
    match decode_key(buf).0 {
        None => (false, decode_key(buf).1),
        Some(e) => {
            if is_quit_key(e) {
                (true, decode_key(buf).1)
            } else {
                proof {
                    lemma_decode_consumes_prefix(buf);
                }
                skip_keys(decode_key(buf).1)
            }
        },
    }
}

/// Dropping keys leaves no complete key behind unless a quit key stopped it:
/// what is still waiting is a tail of the input, and decoding it finds
/// nothing.
pub proof fn lemma_skip_keys_leaves_no_key(buf: Seq<u8>)
    ensures
        skip_keys(buf).1.len() <= buf.len(),
        skip_keys(buf).1 == buf.subrange(buf.len() - skip_keys(buf).1.len(), buf.len() as int),
        !skip_keys(buf).0 ==> decode_key(skip_keys(buf).1).0 is None,
    decreases buf.len(),
{
    lemma_decode_consumes_prefix(buf);
    match decode_key(buf).0 {
        None => {
            lemma_decode_waits(buf);
        },
        Some(e) => {
            if !is_quit_key(e) {
                let rest = decode_key(buf).1;
                lemma_skip_keys_leaves_no_key(rest);
                let k = skip_keys(rest).1.len();
                assert(rest.subrange(rest.len() - k, rest.len() as int) =~= buf.subrange(
                    buf.len() - k,
                    buf.len() as int,
                ));
            }
        },
    }
}

/// Every key keeps a well-formed state well-formed and leaves the terminal
/// size alone; only Enter switches the colour scheme.
pub proof fn lemma_key_keeps_state_valid(s: AppView, e: KeyEvent)
    requires
        s.wf(),
    ensures
        next_view(s, e).wf(),
        next_view(s, e).cols == s.cols,
        next_view(s, e).rows == s.rows,
        next_view(s, e).light != s.light ==> e.code == KeyCode::Enter,
{
}

/// Left undoes Right and Right undoes Left, whatever modifiers are held.
pub proof fn lemma_left_right_inverse(s: AppView, m1: KeyModifiers, m2: KeyModifiers)
    requires
        s.wf(),
    ensures
        next_view(
            next_view(s, KeyEvent { code: KeyCode::Right, modifiers: m1 }),
            KeyEvent { code: KeyCode::Left, modifiers: m2 },
        ) == s,
        next_view(
            next_view(s, KeyEvent { code: KeyCode::Left, modifiers: m1 }),
            KeyEvent { code: KeyCode::Right, modifiers: m2 },
        ) == s,
{
}

/// Four presses of Right come back to the tab started from.
pub proof fn lemma_four_rights_cycle(s: AppView, m: KeyModifiers)
    requires
        s.wf(),
    ensures
        ({
            let r = KeyEvent { code: KeyCode::Right, modifiers: m };
            next_view(next_view(next_view(next_view(s, r), r), r), r)
        }) == s,
{
}

/// On the account tab, `a` undoes `d` and `d` undoes `a`: the account menu
/// is a ring of six entries.
pub proof fn lemma_account_menu_ring(s: AppView, m1: KeyModifiers, m2: KeyModifiers)
    requires
        s.wf(),
        s.tab == 0,
    ensures
        next_view(
            next_view(s, KeyEvent { code: KeyCode::Char('d'), modifiers: m1 }),
            KeyEvent { code: KeyCode::Char('a'), modifiers: m2 },
        ) == s,
        next_view(
            next_view(s, KeyEvent { code: KeyCode::Char('a'), modifiers: m1 }),
            KeyEvent { code: KeyCode::Char('d'), modifiers: m2 },
        ) == s,
{
}

/// On the account tab `d` moves one entry down the six-entry menu and `a`
/// one entry up, counting round (after the last entry comes the first):
/// `d` selects entry `(k + 1) mod 6` and `a` entry `(k + 5) mod 6`, and
/// neither changes the tab, the colour scheme or the terminal size.
pub proof fn lemma_account_menu_steps(s: AppView, m: KeyModifiers)
    requires
        s.wf(),
        s.tab == 0,
    ensures
        next_view(s, KeyEvent { code: KeyCode::Char('d'), modifiers: m }) == (AppView {
            account: ((s.account + 1) % 6) as usize,
            ..s
        }),
        next_view(s, KeyEvent { code: KeyCode::Char('a'), modifiers: m }) == (AppView {
            account: ((s.account + 5) % 6) as usize,
            ..s
        }),
{
}

/// Pressing `d` `n` times on the account tab from the first entry selects
/// entry `n mod 6`: the entries are visited in order.
pub proof fn lemma_account_menu_walk(s: AppView, m: KeyModifiers, n: nat)
    requires
        s.wf(),
        s.tab == 0,
        s.account == 0,
    ensures
        presses(s, KeyEvent { code: KeyCode::Char('d'), modifiers: m }, n) == (AppView {
            account: (n % 6) as usize,
            ..s
        }),
    decreases n,
{
    if n > 0 {
        let e = KeyEvent { code: KeyCode::Char('d'), modifiers: m };
        lemma_account_menu_walk(s, m, (n - 1) as nat);
        let before = presses(s, e, (n - 1) as nat);
        lemma_account_menu_steps(before, m);
        assert(((n - 1) % 6 + 1) % 6 == n % 6) by (nonlinear_arith)
            requires n > 0;
    }
}

/// The state after pressing the same key `n` times.
pub open spec fn presses(s: AppView, e: KeyEvent, n: nat) -> AppView
    decreases n,
{
    if n == 0 {
        s
    } else {
        next_view(presses(s, e, (n - 1) as nat), e)
    }
}

/// Enter on the dark/light entry switches the colour scheme, and a second
/// Enter switches it back.
pub proof fn lemma_theme_toggle(s: AppView, m1: KeyModifiers, m2: KeyModifiers)
    requires
        s.wf(),
        s.tab == 0,
        s.account == LAST_ACCOUNT_ITEM,
    ensures
        next_view(s, KeyEvent { code: KeyCode::Enter, modifiers: m1 }).light == !s.light,
        next_view(
            next_view(s, KeyEvent { code: KeyCode::Enter, modifiers: m1 }),
            KeyEvent { code: KeyCode::Enter, modifiers: m2 },
        ) == s,
{
}

/// Feeding input keeps the state well-formed and the terminal size alone.
pub proof fn lemma_feed_keeps_state_valid(s: AppView, buf: Seq<u8>)
    requires
        s.wf(),
    ensures
        feed(s, buf).0.wf(),
        feed(s, buf).0.cols == s.cols,
        feed(s, buf).0.rows == s.rows,
    decreases buf.len(),
{
    lemma_decode_consumes_prefix(buf);
    if let Some(e) = decode_key(buf).0 {
        if !is_quit_key(e) {
            lemma_key_keeps_state_valid(s, e);
            lemma_feed_keeps_state_valid(next_view(s, e), decode_key(buf).1);
        }
    }
}

/// Input split into chunks has the same effect as the same input at once:
/// feeding `a` and then the bytes left of it followed by `b` gives what feeding
/// `a + b` gives (and once a quit key came, later bytes change nothing).
pub proof fn lemma_feed_chunks(s: AppView, a: Seq<u8>, b: Seq<u8>)
    ensures
        feed(s, a + b) == (if feed(s, a).1 {
            (feed(s, a).0, true, feed(s, a).2 + b)
        } else {
            feed(feed(s, a).0, feed(s, a).2 + b)
        }),
    decreases a.len(),
{
    lemma_decode_consumes_prefix(a);
    match decode_key(a).0 {
        None => {
            lemma_decode_waiting_then_more(a, b);
            assert(feed(s, a + b) == feed(s, decode_key(a).1 + b));
        },
        Some(e) => {
            lemma_decode_prefix_stable(a, b);
            if !is_quit_key(e) {
                lemma_feed_chunks(next_view(s, e), decode_key(a).1, b);
            }
        },
    }
}

/// The body shown under the tab bar.
#[derive(Debug, Clone, Copy, PartialEq, Eq, Structural)]
pub enum TabBody {
    /// The account menu (profile, payments, ..., dark/light).
    AccountMenu,
    /// "Cart is empty".
    Cart,
    /// "Shop items".
    Shop,
    /// The banner with the key help.
    Help,
}

/// Colours of the screen.
#[derive(Debug, Clone, Copy, PartialEq, Eq, Structural)]
pub enum Color {
    Reset,
    White,
    Black,
}

/// Background and foreground colours of the main screen.
#[derive(Debug, Clone, Copy, PartialEq, Eq, Structural)]
pub struct Palette {
    pub bg: Color,
    pub fg: Color,
}

/// The palette for a colour scheme: white on the terminal's own background
/// in dark mode, black on white in light mode.
pub open spec fn palette_for(light: bool) -> Palette {
    if light {
        Palette { bg: Color::White, fg: Color::Black }
    } else {
        Palette { bg: Color::Reset, fg: Color::White }
    }
}

/// The body shown for a tab.
pub open spec fn body_for(tab: usize) -> TabBody {
    if tab == 0 {
        TabBody::AccountMenu
    } else if tab == 1 {
        TabBody::Cart
    } else if tab == 2 {
        TabBody::Shop
    } else {
        TabBody::Help
    }
}

impl App {
    /// A session always shows one of the four tabs and selects one of the six
    /// account entries.
    #[verifier::type_invariant]
    spec fn inv(self) -> bool {
        self.selected_tab < TAB_COUNT && self.selected_account <= LAST_ACCOUNT_ITEM
    }

    /// A new session for a terminal of `cols` x `rows`: account tab, first
    /// entry selected, dark mode.
    pub fn new(cols: u16, rows: u16) -> (app: App)
        ensures
            app@ == (AppView { cols, rows, tab: 0, account: 0, light: false }),
            app@.wf(),
    {
        App { cols, rows, selected_tab: 0, selected_account: 0, is_light_mode: false }
    }

    /// Terminal width in columns.
    pub fn cols(&self) -> (r: u16)
        ensures
            r == self@.cols,
    {
        self.cols
    }

    /// Terminal height in rows.
    pub fn rows(&self) -> (r: u16)
        ensures
            r == self@.rows,
    {
        self.rows
    }

    /// Index of the selected tab (0 account, 1 cart, 2 shop, 3 help).
    pub fn selected_tab(&self) -> (r: usize)
        ensures
            r == self@.tab,
            r < TAB_COUNT,
    {
        proof {
            use_type_invariant(self);
        }
        self.selected_tab
    }

    /// Index of the selected account menu entry.
    pub fn selected_account(&self) -> (r: usize)
        ensures
            r == self@.account,
            r <= LAST_ACCOUNT_ITEM,
    {
        proof {
            use_type_invariant(self);
        }
        self.selected_account
    }

    /// Whether the light colour scheme is on.
    pub fn is_light_mode(&self) -> (r: bool)
        ensures
            r == self@.light,
    {
        self.is_light_mode
    }

    /// Applies one key press to the screen state.
    pub fn handle_key(&mut self, code: KeyCode, modifiers: KeyModifiers)
        ensures
            final(self)@ == next_view(old(self)@, KeyEvent { code, modifiers }),
            final(self)@.wf(),
    {
        proof {
            use_type_invariant(&*self);
        }
        match code {
            KeyCode::Right => {
                self.selected_tab = (self.selected_tab + 1) % TAB_COUNT;
            },
            KeyCode::Left => {
                self.selected_tab = (self.selected_tab + 3) % TAB_COUNT;
            },
            KeyCode::Char('d') => {
                if self.selected_tab == 0 {
                    self.selected_account =
                        if self.selected_account >= LAST_ACCOUNT_ITEM {
                            0
                        } else {
                            self.selected_account + 1
                        };
                }
            },
            KeyCode::Char('a') => {
                if self.selected_tab == 0 {
                    self.selected_account =
                        if self.selected_account == 0 {
                            LAST_ACCOUNT_ITEM
                        } else {
                            self.selected_account - 1
                        };
                } else {
                    self.selected_tab = 0;
                }
            },
            KeyCode::Char('c') if !modifiers.is_control() => {
                self.selected_tab = 1;
            },
            KeyCode::Char('s') => {
                self.selected_tab = 2;
            },
            KeyCode::Char('h') => {
                self.selected_tab = 3;
            },
            KeyCode::Enter => {
                if self.selected_tab == 0 && self.selected_account == LAST_ACCOUNT_ITEM {
                    self.is_light_mode = !self.is_light_mode;
                }
            },
            _ => {},
        }
        proof {
            use_type_invariant(&*self);
        }
    }

    /// One key from the terminal: a quit key is reported (and not applied),
    /// any other key is applied.
    pub fn process_key(&mut self, e: KeyEvent) -> (quit: bool)
        ensures
            quit == is_quit_key(e),
            final(self)@ == (if quit {
                old(self)@
            } else {
                next_view(old(self)@, e)
            }),
            final(self)@.wf(),
    {
        proof {
            use_type_invariant(&*self);
        }
        if is_quit(&e) {
            true
        } else {
            self.handle_key(e.code, e.modifiers);
            false
        }
    }

    /// Decodes and applies the keys waiting in `pending` until a quit key
    /// or until no complete key is left; returns whether a quit key came.
    pub fn process_input(&mut self, pending: &mut Vec<u8>) -> (quit: bool)
        ensures
            (final(self)@, quit, final(pending)@) == feed(old(self)@, old(pending)@),
            final(self)@.wf(),
    {
        proof {
            use_type_invariant(&*self);
        }
        loop
            invariant
                self@.wf(),
                feed(self@, pending@) == feed(old(self)@, old(pending)@),
            decreases pending@.len(),
        {
            let ghost before = pending@;
            proof {
                lemma_decode_consumes_prefix(before);
            }
            match pop_key(pending) {
                None => {
                    return false;
                },
                Some(e) => {
                    if self.process_key(e) {
                        return true;
                    }
                },
            }
        }
    }

    /// Adopts the terminal size `(cols, rows)`; returns whether it differs
    /// from the size in use, in which case the screen must be resized.
    pub fn sync_viewport_from_dims(&mut self, cols: u16, rows: u16) -> (resized: bool)
        ensures
            resized == (cols != old(self)@.cols || rows != old(self)@.rows),
            final(self)@ == (AppView { cols, rows, ..old(self)@ }),
    {
        proof {
            use_type_invariant(&*self);
        }
        if cols != self.cols || rows != self.rows {
            self.cols = cols;
            self.rows = rows;
            true
        } else {
            false
        }
    }

    /// The body shown under the tab bar.
    pub fn tab_body(&self) -> (b: TabBody)
        ensures
            b == body_for(self@.tab),
    {
        if self.selected_tab == 0 {
            TabBody::AccountMenu
        } else if self.selected_tab == 1 {
            TabBody::Cart
        } else if self.selected_tab == 2 {
            TabBody::Shop
        } else {
            TabBody::Help
        }
    }

    /// The colours of the main screen.
    pub fn palette(&self) -> (p: Palette)
        ensures
            p == palette_for(self@.light),
    {
        if self.is_light_mode {
            Palette { bg: Color::White, fg: Color::Black }
        } else {
            Palette { bg: Color::Reset, fg: Color::White }
        }
    }
}

/// Decodes and drops the keys waiting in `pending` (the splash screen does not
/// react to keys) until a quit key or until no complete key is left; returns
/// whether a quit key came.
pub fn skip_pending_keys(pending: &mut Vec<u8>) -> (quit: bool)
    ensures
        (quit, final(pending)@) == skip_keys(old(pending)@),
{
    loop
        invariant
            skip_keys(pending@) == skip_keys(old(pending)@),
        decreases pending@.len(),
    {
        let ghost before = pending@;
        proof {
            lemma_decode_consumes_prefix(before);
        }
        match pop_key(pending) {
            None => {
                return false;
            },
            Some(e) => {
                if is_quit(&e) {
                    return true;
                }
            },
        }
    }
}

} // verus!
