//! The settings of a running mirror, resolved from the options it was started with.
use vstd::prelude::*;

use crate::text::decimal_text_of;

verus! {

/// How much the process logs.
#[derive(PartialEq, Eq, Structural, Clone, Copy, Debug)]
pub enum LogLevel {
    Warn,
    Info,
    Debug,
    Trace,
}

/// The options as given on the command line, each `None` when it was left out.
pub struct ConfigArgs {
    /// How many times the debug flag was given.
    pub debug: u64,
    pub git: Option<String>,
    pub index: Option<String>,
    pub upstream: Option<String>,
    pub port: Option<String>,
    pub extern_url: Option<String>,
    pub refresh: Option<String>,
    pub prefetch: Option<String>,
    pub threads: Option<String>,
    pub all: bool,
}

/// The settings, fixed for the life of the process.
#[derive(Clone, Debug)]
pub struct Config {
    pub all: bool,
    pub prefetch_path: Option<String>,
    pub index_path: String,
    pub crate_path: String,
    pub git_index_path: String,
    pub upstream: String,
    pub index: String,
    pub extern_url: String,
    pub port: u16,
    pub refresh_rate: u64,
    pub threads: u32,
    pub log_level: LogLevel,
}

pub open spec fn is_decimal_digit(c: char) -> bool {
    '0' <= c <= '9'
}

/// The number that a string of decimal digits writes.
pub open spec fn digits_value(s: Seq<char>) -> nat
    decreases s.len(),
{
    if s.len() == 0 {
        0
    } else {
        digits_value(s.drop_last()) * 10 + (s.last() as nat - '0' as nat) as nat
    }
}

/// An unsigned number as `from_str` reads it: an optional `+`, then one or more
/// decimal digits, whose number is at most `max`.
pub open spec fn unsigned_of(s: Seq<char>, max: nat) -> Option<nat> {
    let d = unsigned_digits(s);
    if d.len() > 0 && all_digits(d) && digits_value(d) <= max {
        Some(digits_value(d))
    } else {
        None
    }
}

/// `s` without the one `+` that may lead it.
pub open spec fn unsigned_digits(s: Seq<char>) -> Seq<char> {
    if s.len() > 0 && s[0] == '+' {
        s.drop_first()
    } else {
        s
    }
}

pub open spec fn all_digits(d: Seq<char>) -> bool {
    forall|i: int| 0 <= i < d.len() ==> is_decimal_digit(#[trigger] d[i])
}

proof fn lemma_digits_push(s: Seq<char>, c: char)
    ensures
        digits_value(s.push(c)) == digits_value(s) * 10 + (c as nat - '0' as nat) as nat,
{
    assert(s.push(c).drop_last() =~= s);
}

/// Reads an unsigned number no larger than `max`.
pub fn parse_unsigned(s: &str, max: u64) -> (r: Option<u64>)
    ensures
        match r {
            Some(n) => unsigned_of(s@, max as nat) == Some(n as nat),
            None => unsigned_of(s@, max as nat) is None,
        },
{
    let len = s.unicode_len();
    let start: usize = if len > 0 && s.get_char(0) == '+' {
        1
    } else {
        0
    };
    let ghost d = unsigned_digits(s@);
    assert(d =~= s@.subrange(start as int, len as int));
    let mut value: u64 = 0;
    let mut fits = true;
    let mut i = start;
    while i < len
        invariant
            len == s@.len(),
            start <= i <= len,
            d == s@.subrange(start as int, len as int),
            d == unsigned_digits(s@),
            forall|j: int| start <= j < i ==> is_decimal_digit(#[trigger] s@[j]),
            fits ==> value == digits_value(s@.subrange(start as int, i as int)),
            !fits ==> digits_value(s@.subrange(start as int, i as int)) > max,
            value <= max,
        decreases len - i,
    {
        let c = s.get_char(i);
        if c < '0' || c > '9' {
            assert(!is_decimal_digit(d[i - start]));
            return None;
        }
        proof {
            assert(s@.subrange(start as int, i + 1) =~= s@.subrange(start as int, i as int).push(c));
            lemma_digits_push(s@.subrange(start as int, i as int), c);
        }
        let digit = (c as u32 - '0' as u32) as u64;
        if fits {
            let next: u128 = value as u128 * 10 + digit as u128;
            if next > max as u128 {
                fits = false;
            } else {
                value = next as u64;
            }
        } else {
            assert(digits_value(s@.subrange(start as int, i as int)) * 10 >= digits_value(
                s@.subrange(start as int, i as int),
            )) by (nonlinear_arith);
        }
        i = i + 1;
    }
    if start < len && fits {
        Some(value)
    } else {
        None
    }
}

/// Reads `s` as an unsigned number no larger than `max`, or takes `default` when `s`
/// is absent or is no such number.
pub fn number_or(s: &Option<String>, max: u64, default: u64) -> (r: u64)
    ensures
        r == match s {
            Some(t) => match unsigned_of(t@, max as nat) {
                Some(n) => n,
                None => default as nat,
            },
            None => default as nat,
        },
{
    match s {
        Some(t) => match parse_unsigned(t.as_str(), max) {
            Some(n) => n,
            None => default,
        },
        None => default,
    }
}

/// Relies on the `Display` of `u16`: a number's decimal digits, with no leading zeros.
#[verifier::external_body]
fn port_text(n: u16) -> (r: String)
    ensures
        r@ == decimal_text_of(n as nat),
{
    n.to_string()
}

/// The level that `n` debug flags ask for.
pub fn log_level_of(n: u64) -> (r: LogLevel)
    ensures
        r == log_level_of_spec(n),
{
    if n == 0 {
        LogLevel::Warn
    } else if n == 1 {
        LogLevel::Info
    } else if n == 2 {
        LogLevel::Debug
    } else {
        LogLevel::Trace
    }
}

pub open spec fn text_opt(s: Option<String>) -> Option<Seq<char>> {
    match s {
        Some(t) => Some(t@),
        None => None,
    }
}

pub open spec fn text_or(s: Option<String>, default: Seq<char>) -> Seq<char> {
    match s {
        Some(t) => t@,
        None => default,
    }
}

fn string_or(s: &Option<String>, default: &str) -> (r: String)
    ensures
        r@ == text_or(*s, default@),
{
    match s {
        Some(t) => t.clone(),
        None => String::from_str(default),
    }
}

impl Config {
    /// The settings that `args` ask for, with `home` the user's home directory. The
    /// storage root defaults to `{home}/.crates`; without a root given and without a home
    /// there are no settings. Numbers that are absent or unreadable take their defaults:
    /// port 8080, refresh 600 seconds, 16 threads. The external URL defaults to
    /// `http://localhost:{port}`.
    pub fn init(args: &ConfigArgs, home: &Option<String>) -> (r: Option<Config>)
        ensures
            r is None <==> (args.index is None && home is None),
            r matches Some(c) ==> {
                let root = match args.index {
                    Some(i) => i@,
                    None => home->0@ + "/.crates"@,
                };
                &&& c.index_path@ == root
                &&& c.crate_path@ == root + "/crates"@
                &&& c.git_index_path@ == root + "/index"@
                &&& c.all == args.all
                &&& text_opt(c.prefetch_path) == text_opt(args.prefetch)
                &&& c.upstream@ == text_or(args.upstream, "https://static.crates.io/crates/"@)
                &&& c.index@ == text_or(
                    args.git,
                    "https://github.com/rust-lang/crates.io-index.git"@,
                )
                &&& c.port as nat == match args.port {
                    Some(t) => match unsigned_of(t@, 65535) {
                        Some(n) => n,
                        None => 8080,
                    },
                    None => 8080,
                }
                &&& c.extern_url@ == text_or(
                    args.extern_url,
                    "http://localhost:"@ + decimal_text_of(c.port as nat),
                )
                &&& c.refresh_rate as nat == match args.refresh {
                    Some(t) => match unsigned_of(t@, u64::MAX as nat) {
                        Some(n) => n,
                        None => 600,
                    },
                    None => 600,
                }
                &&& c.threads as nat == match args.threads {
                    Some(t) => match unsigned_of(t@, u32::MAX as nat) {
                        Some(n) => n,
                        None => 16,
                    },
                    None => 16,
                }
                &&& c.log_level == log_level_of_spec(args.debug)
            },
    {
        let index_path = match &args.index {
            Some(i) => i.clone(),
            None => match home {
                Some(h) => {
                    let mut p = h.clone();
                    p.append("/.crates");
                    p
                },
                None => {
                    return None;
                },
            },
        };
        let mut crate_path = index_path.clone();
        crate_path.append("/crates");
        let mut git_index_path = index_path.clone();
        git_index_path.append("/index");
        let port = number_or(&args.port, 65535, 8080) as u16;
        let extern_url = match &args.extern_url {
            Some(u) => u.clone(),
            None => {
                let mut u = String::from_str("http://localhost:");
                let digits = port_text(port);
                u.append(digits.as_str());
                u
            },
        };
        let refresh_rate = number_or(&args.refresh, u64::MAX, 600);
        let threads = number_or(&args.threads, 4294967295, 16) as u32;
        let prefetch_path = match &args.prefetch {
            Some(p) => Some(p.clone()),
            None => None,
        };
        Some(
            Config {
                all: args.all,
                prefetch_path,
                index_path,
                crate_path,
                git_index_path,
                upstream: string_or(&args.upstream, "https://static.crates.io/crates/"),
                index: string_or(&args.git, "https://github.com/rust-lang/crates.io-index.git"),
                extern_url,
                port,
                refresh_rate,
                threads,
                log_level: log_level_of(args.debug),
            },
        )
    }
}

pub open spec fn log_level_of_spec(n: u64) -> LogLevel {
    if n == 0 {
        LogLevel::Warn
    } else if n == 1 {
        LogLevel::Info
    } else if n == 2 {
        LogLevel::Debug
    } else {
        LogLevel::Trace
    }
}

} // verus!
