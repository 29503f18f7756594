//! Command-line options of the server.

use vstd::prelude::*;

verus! {

/// The default bind address.
pub open spec fn default_host() -> Seq<char> {
    "0.0.0.0"@
}

/// The default host key file.
pub open spec fn default_key_path() -> Seq<char> {
    "host_key"@
}

/// The default port.
pub const DEFAULT_PORT: u16 = 22;

/// Where the server listens and where its host key lives.
#[derive(Debug)]
pub struct CliConfig {
    pub host: String,
    pub port: u16,
    pub key_path: String,
}

/// The options as contracts speak of them.
pub struct CliView {
    pub host: Seq<char>,
    pub port: u16,
    pub key_path: Seq<char>,
}

impl View for CliConfig {
    type V = CliView;

    open spec fn view(&self) -> CliView {
        CliView { host: self.host@, port: self.port, key_path: self.key_path@ }
    }
}

impl Default for CliConfig {
    /// Listen on 0.0.0.0:22 with the host key in `./host_key`.
    fn default() -> (c: CliConfig)
        ensures
            c@ == (CliView { host: default_host(), port: DEFAULT_PORT, key_path: default_key_path() }),
    {
        CliConfig { host: "0.0.0.0".to_owned(), port: DEFAULT_PORT, key_path: "host_key".to_owned() }
    }
}

/// The value of a string of decimal digits.
pub open spec fn digits_value(d: Seq<char>) -> int
    decreases d.len(),
{
    if d.len() == 0 {
        0
    } else {
        digits_value(d.drop_last()) * 10 + (d.last() as int - '0' as int)
    }
}

/// Every character is a decimal digit.
pub open spec fn all_digits(d: Seq<char>) -> bool {
    forall|i: int| 0 <= i < d.len() ==> '0' <= #[trigger] d[i] <= '9'
}

/// How a string reads as a `u16`: an optional `+`, then one or more decimal
/// digits whose value is at most 65535.
pub open spec fn parse_u16(s: Seq<char>) -> Option<u16> {
    let digits = if s.len() > 0 && s[0] == '+' {
        s.drop_first()
    } else {
        s
    };
    if digits.len() > 0 && all_digits(digits) && digits_value(digits) <= u16::MAX {
        Some(digits_value(digits) as u16)
    } else {
        None
    }
}

/// Calls `str::parse::<u16>`.  Claimed: the result is what the standard
/// library documents for unsigned integers: an optional `+` followed by at
/// least one decimal digit, within range; anything else is an error.
#[verifier::external_body]
fn parse_port(s: &str) -> (r: Option<u16>)
    ensures
        r == parse_u16(s@),
{
    s.parse::<u16>().ok()
}

/// Whether two strings hold the same characters.
pub fn text_eq(a: &str, b: &str) -> (r: bool)
    ensures
        r == (a@ == b@),
{
    let n = a.unicode_len();
    if n != b.unicode_len() {
        return false;
    }
    let mut i: usize = 0;
    while i < n
        invariant
            n == a@.len(),
            n == b@.len(),
            i <= n,
            forall|j: int| 0 <= j < i ==> a@[j] == b@[j],
        decreases n - i,
    {
        if a.get_char(i) != b.get_char(i) {
            return false;
        }
        i = i + 1;
    }
    proof {
        assert(a@ =~= b@);
    }
    true
}

/// Whether an argument asks for the local terminal instead of the server.
pub open spec fn is_local_flag(a: Seq<char>) -> bool {
    a == "--local"@ || a == "-l"@
}

/// Whether the program should run the shop on its own terminal: some
/// argument (the program name included) is `--local` or `-l`.
pub fn wants_local(args: &Vec<String>) -> (r: bool)
    ensures
        r == exists|i: int| 0 <= i < args@.len() && is_local_flag(#[trigger] args@[i]@),
{
    let mut i: usize = 0;
    while i < args.len()
        invariant
            i <= args@.len(),
            forall|j: int| 0 <= j < i ==> !is_local_flag(#[trigger] args@[j]@),
        decreases args@.len() - i,
    {
        let a = args[i].as_str();
        if text_eq(a, "--local") || text_eq(a, "-l") {
            return true;
        }
        i = i + 1;
    }
    false
}

/// The outcome of reading the command line.
pub struct ParsedCli {
    /// The options, as far as they were read.
    pub config: CliConfig,
    /// Arguments that were not understood, in order.
    pub unknown: Vec<String>,
    /// Whether help was asked for; reading stops there.
    pub help: bool,
}

/// Reading the arguments from index `i` on, with the options `c` and the
/// unknown arguments `unknown` found so far.
///
/// `--help`/`-h` stops; `--local`/`-l` is skipped; `--host`, `--key-path`
/// take the next argument when there is one; `--port` takes the next argument
/// when it reads as a port, else leaves the port and goes on with that next
/// argument; anything else is unknown.
pub open spec fn parse_from(
    args: Seq<Seq<char>>,
    i: int,
    c: CliView,
    unknown: Seq<Seq<char>>,
) -> (CliView, Seq<Seq<char>>, bool)
    decreases args.len() - i,
{
    if i >= args.len() || i < 0 {
        (c, unknown, false)
    } else {
        let a = args[i];
        if a == "--help"@ || a == "-h"@ {
            (c, unknown, true)
        } else if is_local_flag(a) {
            parse_from(args, i + 1, c, unknown)
        } else if a == "--host"@ {
            if i + 1 < args.len() {
                parse_from(args, i + 2, CliView { host: args[i + 1], ..c }, unknown)
            } else {
                parse_from(args, i + 1, c, unknown)
            }
        } else if a == "--port"@ {
            if i + 1 < args.len() && parse_u16(args[i + 1]) is Some {
                parse_from(args, i + 2, CliView { port: parse_u16(args[i + 1])->0, ..c }, unknown)
            } else {
                parse_from(args, i + 1, c, unknown)
            }
        } else if a == "--key-path"@ {
            if i + 1 < args.len() {
                parse_from(args, i + 2, CliView { key_path: args[i + 1], ..c }, unknown)
            } else {
                parse_from(args, i + 1, c, unknown)
            }
        } else {
            parse_from(args, i + 1, c, unknown.push(a))
        }
    }
}

/// Reading stops at a help request: once it is reached, arguments after it
/// change nothing, not the options and not the unknown arguments.
pub proof fn lemma_help_stops_reading(
    args: Seq<Seq<char>>,
    more: Seq<Seq<char>>,
    i: int,
    c: CliView,
    unknown: Seq<Seq<char>>,
)
    requires
        parse_from(args, i, c, unknown).2,
    ensures
        parse_from(args + more, i, c, unknown) == parse_from(args, i, c, unknown),
    decreases args.len() - i,
{
    let all = args + more;
    if 0 <= i < args.len() {
        assert(all[i] == args[i]);
        if i + 1 < args.len() {
            assert(all[i + 1] == args[i + 1]);
        }
        let a = args[i];
        if a == "--help"@ || a == "-h"@ {
        } else if is_local_flag(a) {
            lemma_help_stops_reading(args, more, i + 1, c, unknown);
        } else if a == "--host"@ {
            if i + 1 < args.len() {
                lemma_help_stops_reading(args, more, i + 2, CliView { host: args[i + 1], ..c }, unknown);
            } else {
                lemma_help_stops_reading(args, more, i + 1, c, unknown);
            }
        } else if a == "--port"@ {
            if i + 1 < args.len() && parse_u16(args[i + 1]) is Some {
                lemma_help_stops_reading(
                    args,
                    more,
                    i + 2,
                    CliView { port: parse_u16(args[i + 1])->0, ..c },
                    unknown,
                );
            } else {
                lemma_help_stops_reading(args, more, i + 1, c, unknown);
            }
        } else if a == "--key-path"@ {
            if i + 1 < args.len() {
                lemma_help_stops_reading(
                    args,
                    more,
                    i + 2,
                    CliView { key_path: args[i + 1], ..c },
                    unknown,
                );
            } else {
                lemma_help_stops_reading(args, more, i + 1, c, unknown);
            }
        } else {
            lemma_help_stops_reading(args, more, i + 1, c, unknown.push(a));
        }
    }
}

/// The options are read independently of one another: the host that comes
/// out depends on the host read so far and not on the port or key path, and
/// likewise for the port and the key path; which arguments are unknown and
/// whether help was asked for do not depend on the options at all.
pub proof fn lemma_options_independent(
    args: Seq<Seq<char>>,
    i: int,
    c1: CliView,
    c2: CliView,
    unknown: Seq<Seq<char>>,
)
    ensures
        c1.host == c2.host ==> parse_from(args, i, c1, unknown).0.host == parse_from(
            args,
            i,
            c2,
            unknown,
        ).0.host,
        c1.port == c2.port ==> parse_from(args, i, c1, unknown).0.port == parse_from(
            args,
            i,
            c2,
            unknown,
        ).0.port,
        c1.key_path == c2.key_path ==> parse_from(args, i, c1, unknown).0.key_path == parse_from(
            args,
            i,
            c2,
            unknown,
        ).0.key_path,
        parse_from(args, i, c1, unknown).1 == parse_from(args, i, c2, unknown).1,
        parse_from(args, i, c1, unknown).2 == parse_from(args, i, c2, unknown).2,
    decreases args.len() - i,
{
    if 0 <= i < args.len() {
        let a = args[i];
        if a == "--help"@ || a == "-h"@ {
        } else if is_local_flag(a) {
            lemma_options_independent(args, i + 1, c1, c2, unknown);
        } else if a == "--host"@ {
            if i + 1 < args.len() {
                lemma_options_independent(
                    args,
                    i + 2,
                    CliView { host: args[i + 1], ..c1 },
                    CliView { host: args[i + 1], ..c2 },
                    unknown,
                );
            } else {
                lemma_options_independent(args, i + 1, c1, c2, unknown);
            }
        } else if a == "--port"@ {
            if i + 1 < args.len() && parse_u16(args[i + 1]) is Some {
                lemma_options_independent(
                    args,
                    i + 2,
                    CliView { port: parse_u16(args[i + 1])->0, ..c1 },
                    CliView { port: parse_u16(args[i + 1])->0, ..c2 },
                    unknown,
                );
            } else {
                lemma_options_independent(args, i + 1, c1, c2, unknown);
            }
        } else if a == "--key-path"@ {
            if i + 1 < args.len() {
                lemma_options_independent(
                    args,
                    i + 2,
                    CliView { key_path: args[i + 1], ..c1 },
                    CliView { key_path: args[i + 1], ..c2 },
                    unknown,
                );
            } else {
                lemma_options_independent(args, i + 1, c1, c2, unknown);
            }
        } else {
            lemma_options_independent(args, i + 1, c1, c2, unknown.push(a));
        }
    }
}

/// Arguments with no `--host` among them leave the host as it was.
pub proof fn lemma_host_untouched(args: Seq<Seq<char>>, i: int, c: CliView, unknown: Seq<Seq<char>>)
    requires
        forall|j: int| i <= j < args.len() ==> #[trigger] args[j] != "--host"@,
    ensures
        parse_from(args, i, c, unknown).0.host == c.host,
    decreases args.len() - i,
{
    if 0 <= i < args.len() {
        let a = args[i];
        if a == "--help"@ || a == "-h"@ {
        } else if is_local_flag(a) {
            lemma_host_untouched(args, i + 1, c, unknown);
        } else if a == "--port"@ {
            if i + 1 < args.len() && parse_u16(args[i + 1]) is Some {
                lemma_host_untouched(args, i + 2, CliView { port: parse_u16(args[i + 1])->0, ..c }, unknown);
            } else {
                lemma_host_untouched(args, i + 1, c, unknown);
            }
        } else if a == "--key-path"@ {
            if i + 1 < args.len() {
                lemma_host_untouched(args, i + 2, CliView { key_path: args[i + 1], ..c }, unknown);
            } else {
                lemma_host_untouched(args, i + 1, c, unknown);
            }
        } else {
            lemma_host_untouched(args, i + 1, c, unknown.push(a));
        }
    }
}

/// `--host v` read with no `--host` after it makes `v` the host, whatever
/// options were read before it and whatever other options follow.
pub proof fn lemma_last_host_wins(args: Seq<Seq<char>>, i: int, c: CliView, unknown: Seq<Seq<char>>)
    requires
        0 <= i,
        i + 1 < args.len(),
        args[i] == "--host"@,
        forall|j: int| i + 1 < j < args.len() ==> #[trigger] args[j] != "--host"@,
    ensures
        parse_from(args, i, c, unknown).0.host == args[i + 1],
{
    assert("--host"@ != "--help"@ && "--host"@ != "-h"@ && !is_local_flag("--host"@)) by {
        reveal_strlit("--host");
        reveal_strlit("--help");
        reveal_strlit("-h");
        reveal_strlit("--local");
        reveal_strlit("-l");
        assert("--host"@[3] != "--help"@[3]);
        assert("--host"@.len() != "-h"@.len());
        assert("--host"@.len() != "--local"@.len());
        assert("--host"@.len() != "-l"@.len());
    }
    lemma_host_untouched(args, i + 2, CliView { host: args[i + 1], ..c }, unknown);
}

/// The views of the arguments.
pub open spec fn arg_views(args: Seq<String>) -> Seq<Seq<char>> {
    args.map_values(|s: String| s@)
}

/// Reads the command line (`args[0]` is the program name) into options,
/// starting from the defaults.
pub fn parse_cli(args: &Vec<String>) -> (p: ParsedCli)
    ensures
        (p.config@, p.unknown@.map_values(|s: String| s@), p.help) == parse_from(
            arg_views(args@),
            1,
            CliView { host: default_host(), port: DEFAULT_PORT, key_path: default_key_path() },
            Seq::empty(),
        ),
{
    let ghost views = arg_views(args@);
    let mut c = CliConfig::default();
    let mut unknown: Vec<String> = Vec::new();
    let mut i: usize = 1;
    assert(unknown@.map_values(|s: String| s@) =~= Seq::<Seq<char>>::empty());
    while i < args.len()
        invariant
            views == arg_views(args@),
            views.len() == args@.len(),
            1 <= i,
            parse_from(views, i as int, c@, unknown@.map_values(|s: String| s@)) == parse_from(
                views,
                1,
                CliView { host: default_host(), port: DEFAULT_PORT, key_path: default_key_path() },
                Seq::empty(),
            ),
        decreases args@.len() - i,
    {
        let a = args[i].as_str();
        assert(views[i as int] == a@);
        if text_eq(a, "--help") || text_eq(a, "-h") {
            return ParsedCli { config: c, unknown, help: true };
        } else if text_eq(a, "--local") || text_eq(a, "-l") {
            i = i + 1;
        } else if text_eq(a, "--host") {
            if i + 1 < args.len() {
                c.host = args[i + 1].clone();
                i = i + 2;
            } else {
                i = i + 1;
            }
        } else if text_eq(a, "--port") {
            let value = if i + 1 < args.len() {
                parse_port(args[i + 1].as_str())
            } else {
                None
            };
            match value {
                Some(port) => {
                    c.port = port;
                    i = i + 2;
                },
                None => {
                    i = i + 1;
                },
            }
        } else if text_eq(a, "--key-path") {
            if i + 1 < args.len() {
                c.key_path = args[i + 1].clone();
                i = i + 2;
            } else {
                i = i + 1;
            }
        } else {
            let ghost before = unknown@;
            unknown.push(args[i].clone());
            proof {
                assert(unknown@.map_values(|s: String| s@) =~= before.map_values(|s: String| s@).push(
                    a@,
                ));
            }
            i = i + 1;
        }
    }
    ParsedCli { config: c, unknown, help: false }
}

} // verus!
