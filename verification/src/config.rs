//! Daemon configuration: the check interval and the low-battery
//! threshold, resolved with precedence CLI flag > environment variable
//! > config-file entry > built-in default.
//!
//! Everything here is pure: the embedding program reads the config
//! file, the environment and the argument list, and hands their raw
//! text to [`Config::resolve`].

use vstd::prelude::*;
use vstd::string::*;

use crate::text::find_char;
use crate::text::parse_u64;
use crate::text::parse_percent;
use crate::text::spec_find;
use crate::text::spec_parse_u64;
use crate::text::spec_parse_percent;
use crate::text::spec_trim;
use crate::text::str_eq;
use crate::text::trim;

verus! {

/// Default seconds between two battery polls.
pub const DEFAULT_CHECK_INTERVAL_SECS: u64 = 60;

/// Default percentage at or below which a discharging battery alerts.
pub const DEFAULT_LOW_BATTERY_THRESHOLD: u8 = 30;

/// Resolved daemon configuration, immutable for the process lifetime.
#[derive(Clone, Copy, Debug, PartialEq, Eq, Structural)]
pub struct Config {
    /// Seconds between two battery polls.
    pub check_interval: u64,
    /// Percentage at or below which a discharging battery alerts.
    pub threshold: u8,
}

/// The effect of one config-file line on the two settings: after
/// trimming, empty lines and `#` comments are skipped; a `key = value`
/// line updates `interval` or `threshold` when the key matches and the
/// value parses (a threshold is a percentage, so a value above 100 is
/// malformed); everything else is ignored.
pub open spec fn spec_apply_line(line: Seq<char>, iv: u64, tv: u8) -> (u64, u8) {
    let l = spec_trim(line);
    if l.len() == 0 || l[0] == '#' {
        (iv, tv)
    } else {
        let e = spec_find(l, '=');
        if e < 0 {
            (iv, tv)
        } else {
            let key = spec_trim(l.take(e));
            let value = spec_trim(l.skip(e + 1));
            if key == "interval"@ {
                match spec_parse_u64(value) {
                    Some(v) => (v, tv),
                    None => (iv, tv),
                }
            } else if key == "threshold"@ {
                match spec_parse_percent(value) {
                    Some(v) => (iv, v),
                    None => (iv, tv),
                }
            } else {
                (iv, tv)
            }
        }
    }
}

/// The effect of a whole config file on the two settings: the lines
/// (separated by `'\n'`) applied in order, starting from `(iv, tv)`.
pub open spec fn spec_parse_config(s: Seq<char>, iv: u64, tv: u8) -> (u64, u8)
    decreases s.len(),
{
    if s.len() == 0 {
        (iv, tv)
    } else {
        let e = spec_find(s, '\n');
        if 0 <= e < s.len() {
            let r = spec_apply_line(s.take(e), iv, tv);
            spec_parse_config(s.skip(e + 1), r.0, r.1)
        } else {
            spec_apply_line(s, iv, tv)
        }
    }
}

/// Applies one config-file line; see [`spec_apply_line`].
fn apply_line(line: &str, iv: u64, tv: u8) -> (r: (u64, u8))
    ensures
        r == spec_apply_line(line@, iv, tv),
{
    let l = trim(line);
    let n = l.unicode_len();
    if n == 0 {
        return (iv, tv);
    }
    if l.get_char(0) == '#' {
        return (iv, tv);
    }
    match find_char(l, '=') {
        None => (iv, tv),
        Some(e) => {
            let key = trim(l.substring_char(0, e));
            let value = trim(l.substring_char(e + 1, n));
            proof {
                assert(l@.subrange(0, e as int) =~= l@.take(e as int));
                assert(l@.subrange(e as int + 1, n as int) =~= l@.skip(e as int + 1));
            }
            if str_eq(key, "interval") {
                match parse_u64(value) {
                    Some(v) => (v, tv),
                    None => (iv, tv),
                }
            } else if str_eq(key, "threshold") {
                match parse_percent(value) {
                    Some(v) => (iv, v),
                    None => (iv, tv),
                }
            } else {
                (iv, tv)
            }
        },
    }
}

/// Simple `key = value` parser for the config file.
///
/// Lines are applied in order; unknown keys, malformed values
/// (including thresholds above 100), blank lines and `#` comments
/// leave the settings untouched.
pub fn parse_config_file(content: &str, interval: &mut u64, threshold: &mut u8)
    ensures
        ({
            let r = spec_parse_config(content@, *old(interval), *old(threshold));
            *final(interval) == r.0 && *final(threshold) == r.1
        }),
{
    let ghost iv0 = *interval;
    let ghost tv0 = *threshold;
    let mut iv: u64 = *interval;
    let mut tv: u8 = *threshold;
    let n = content.unicode_len();
    let mut pos: usize = 0;
    proof {
        assert(content@.skip(0) =~= content@);
    }
    while pos < n
        invariant
            n == content@.len(),
            pos <= n,
            spec_parse_config(content@, iv0, tv0) == spec_parse_config(
                content@.skip(pos as int),
                iv,
                tv,
            ),
        decreases n - pos,
    {
        let rest = content.substring_char(pos, n);
        proof {
            assert(rest@ =~= content@.skip(pos as int));
        }
        match find_char(rest, '\n') {
            Some(e) => {
                let line = rest.substring_char(0, e);
                let r = apply_line(line, iv, tv);
                iv = r.0;
                tv = r.1;
                proof {
                    assert(line@ =~= content@.skip(pos as int).take(e as int));
                    assert(rest@.skip(e as int + 1) =~= content@.skip(pos as int + e + 1));
                }
                pos = pos + e + 1;
            },
            None => {
                let r = apply_line(rest, iv, tv);
                iv = r.0;
                tv = r.1;
                pos = n;
            },
        }
    }
    proof {
        assert(content@.skip(n as int) =~= Seq::<char>::empty());
    }
    *interval = iv;
    *threshold = tv;
}

/// The effect of the command-line arguments from position `idx` on:
/// `--interval`/`-i` and `--threshold`/`-t` each take the following
/// argument as a value and update the setting when it parses (a
/// threshold above 100 does not); the value slot is skipped even when
/// it does not parse; anything else is ignored.
pub open spec fn spec_parse_cli(args: Seq<String>, idx: int, iv: u64, tv: u8) -> (u64, u8)
    decreases args.len() - idx,
{
    if idx < 0 || idx >= args.len() {
        (iv, tv)
    } else {
        let a = args[idx]@;
        if a == "--interval"@ || a == "-i"@ {
            if idx + 1 < args.len() {
                let r = match spec_parse_u64(args[idx + 1]@) {
                    Some(v) => v,
                    None => iv,
                };
                spec_parse_cli(args, idx + 2, r, tv)
            } else {
                spec_parse_cli(args, idx + 1, iv, tv)
            }
        } else if a == "--threshold"@ || a == "-t"@ {
            if idx + 1 < args.len() {
                let r = match spec_parse_percent(args[idx + 1]@) {
                    Some(v) => v,
                    None => tv,
                };
                spec_parse_cli(args, idx + 2, iv, r)
            } else {
                spec_parse_cli(args, idx + 1, iv, tv)
            }
        } else {
            spec_parse_cli(args, idx + 1, iv, tv)
        }
    }
}

/// Applies `--interval`/`-i` and `--threshold`/`-t` flags from the
/// argument list, skipping position 0 (the program name).
pub fn parse_cli_args(args: &Vec<String>, interval: &mut u64, threshold: &mut u8)
    ensures
        ({
            let r = spec_parse_cli(args@, 1, *old(interval), *old(threshold));
            *final(interval) == r.0 && *final(threshold) == r.1
        }),
{
    let ghost iv0 = *interval;
    let ghost tv0 = *threshold;
    let mut iv: u64 = *interval;
    let mut tv: u8 = *threshold;
    let n = args.len();
    let mut i: usize = 1;
    while i < n
        invariant
            n == args@.len(),
            1 <= i,
            spec_parse_cli(args@, 1, iv0, tv0) == spec_parse_cli(args@, i as int, iv, tv),
        decreases n - i,
    {
        let a = &args[i];
        if str_eq(a.as_str(), "--interval") || str_eq(a.as_str(), "-i") {
            if i + 1 < n {
                match parse_u64(args[i + 1].as_str()) {
                    Some(v) => {
                        iv = v;
                    },
                    None => {},
                }
                i = i + 2;
            } else {
                i = i + 1;
            }
        } else if str_eq(a.as_str(), "--threshold") || str_eq(a.as_str(), "-t") {
            if i + 1 < n {
                match parse_percent(args[i + 1].as_str()) {
                    Some(v) => {
                        tv = v;
                    },
                    None => {},
                }
                i = i + 2;
            } else {
                i = i + 1;
            }
        } else {
            i = i + 1;
        }
    }
    *interval = iv;
    *threshold = tv;
}

/// The view of an optional string slice.
pub open spec fn opt_str_view(s: Option<&str>) -> Option<Seq<char>> {
    match s {
        Some(x) => Some(x@),
        None => None,
    }
}

/// The resolved settings for the given raw inputs: built-in defaults,
/// overridden in turn by the config-file text, the two environment
/// variable values, and the command-line arguments.  The threshold is
/// a percentage: a value above 100 at any layer counts as unparseable
/// and the lower-precedence value stands.
pub open spec fn spec_resolve(
    file: Option<Seq<char>>,
    env_interval: Option<Seq<char>>,
    env_threshold: Option<Seq<char>>,
    args: Seq<String>,
) -> (u64, u8) {
    let f = match file {
        Some(c) => spec_parse_config(c, DEFAULT_CHECK_INTERVAL_SECS, DEFAULT_LOW_BATTERY_THRESHOLD),
        None => (DEFAULT_CHECK_INTERVAL_SECS, DEFAULT_LOW_BATTERY_THRESHOLD),
    };
    let ei = match env_interval {
        Some(s) => match spec_parse_u64(s) {
            Some(v) => v,
            None => f.0,
        },
        None => f.0,
    };
    let et = match env_threshold {
        Some(s) => match spec_parse_percent(s) {
            Some(v) => v,
            None => f.1,
        },
        None => f.1,
    };
    spec_parse_cli(args, 1, ei, et)
}

impl Config {
    /// Resolves the configuration from its raw inputs with precedence
    /// CLI > environment > config file > default.
    ///
    /// `file` is the config-file text, if one was found; the two `env`
    /// parameters are the raw values of the interval and threshold
    /// environment variables, if set; `args` is the full argument
    /// list, program name first.
    pub fn resolve(
        file: Option<&str>,
        env_interval: Option<&str>,
        env_threshold: Option<&str>,
        args: &Vec<String>,
    ) -> (c: Config)
        ensures
            ({
                let r = spec_resolve(
                    opt_str_view(file),
                    opt_str_view(env_interval),
                    opt_str_view(env_threshold),
                    args@,
                );
                c.check_interval == r.0 && c.threshold == r.1
            }),
    {
        let mut iv: u64 = DEFAULT_CHECK_INTERVAL_SECS;
        let mut tv: u8 = DEFAULT_LOW_BATTERY_THRESHOLD;
        match file {
            Some(content) => parse_config_file(content, &mut iv, &mut tv),
            None => {},
        }
        match env_interval {
            Some(s) => match parse_u64(s) {
                Some(v) => {
                    iv = v;
                },
                None => {},
            },
            None => {},
        }
        match env_threshold {
            Some(s) => match parse_percent(s) {
                Some(v) => {
                    tv = v;
                },
                None => {},
            },
            None => {},
        }
        parse_cli_args(args, &mut iv, &mut tv);
        Config { check_interval: iv, threshold: tv }
    }
}

} // verus!
