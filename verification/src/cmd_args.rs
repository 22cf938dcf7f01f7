//! What the command line of the probe gives.

use vstd::prelude::*;
use vstd::slice::slice_subrange;
use vstd::string::StringSliceAdditionalSpecFns;
use vstd::utf8::encode_utf8;
use crate::cmd_opts::{
    getopts_parsed,
    matches_declared,
    matches_opt_present,
    matches_opt_str,
    matches_present,
    matches_str,
    options_declared,
    options_new,
    options_optflag,
    options_optopt,
    options_parse,
    spec_texts,
};

verus! {

/// The number that the decimal digits `digits` spell; a byte that is no digit
/// counts as whatever it is above the digit zero.
pub open spec fn spec_digits_value(digits: Seq<u8>) -> int
    decreases digits.len(),
{
    if digits.len() == 0 {
        0
    } else {
        spec_digits_value(digits.drop_last()) * 10 + (digits.last() - 0x30)
    }
}

/// Every byte of `digits` is a decimal digit.
pub open spec fn spec_all_digits(digits: Seq<u8>) -> bool
    decreases digits.len(),
{
    if digits.len() == 0 {
        true
    } else {
        spec_all_digits(digits.drop_last()) && 0x30 <= digits.last() <= 0x39
    }
}

/// The number that the text `b` spells in decimal, as `str::parse` reads it
/// for a `u32`: digits only, after an optional plus sign, at least one of
/// them, and the number no larger than a `u32` holds.
pub open spec fn spec_parse_u32(b: Seq<u8>) -> Option<u32> {
    let digits = if b.len() > 0 && b[0] == 0x2B {
        b.skip(1)
    } else {
        b
    };
    if digits.len() > 0 && spec_all_digits(digits) && spec_digits_value(digits) <= u32::MAX {
        Some(spec_digits_value(digits) as u32)
    } else {
        None
    }
}

/// The first `k` of a run of digits are digits, and spell a number that is
/// not negative and no larger than what the whole run spells.
proof fn lemma_digits_prefix(digits: Seq<u8>, k: int)
    requires
        spec_all_digits(digits),
        0 <= k <= digits.len(),
    ensures
        spec_all_digits(digits.take(k)),
        0 <= spec_digits_value(digits.take(k)) <= spec_digits_value(digits),
    decreases digits.len(),
{
    if k == digits.len() {
        assert(digits.take(k) =~= digits);
        if k > 0 {
            lemma_digits_prefix(digits.drop_last(), k - 1);
            assert(digits.drop_last().take(k - 1) =~= digits.drop_last());
        }
    } else {
        lemma_digits_prefix(digits.drop_last(), k);
        assert(digits.drop_last().take(k) =~= digits.take(k));
    }
}

/// Reads a `u32` in decimal.
pub fn parse_u32(s: &str) -> (r: Option<u32>)
    ensures
        r == spec_parse_u32(s.spec_bytes()),
{
    let b = s.as_bytes();
    let n: usize = b.len();
    let start: usize = if n > 0 && b[0] == 0x2B {
        1
    } else {
        0
    };
    let ghost digits = b@.skip(start as int);
    assert(b@.skip(0) =~= b@);
    if start == n {
        return None;
    }
    let mut acc: u64 = 0;
    let mut i: usize = start;
    while i < n
        invariant
            start <= i <= n,
            start < n,
            n == b@.len(),
            b@ == s.spec_bytes(),
            digits == b@.skip(start as int),
            digits == (if b@.len() > 0 && b@[0] == 0x2B {
                b@.skip(1)
            } else {
                b@
            }),
            spec_all_digits(digits.take(i - start)),
            acc == spec_digits_value(digits.take(i - start)),
            acc <= u32::MAX,
        decreases n - i,
    {
        let c: u8 = b[i];
        let ghost more = digits.take(i - start + 1);
        proof {
            assert(more.drop_last() =~= digits.take(i - start));
            assert(more.last() == c);
        }
        if c < 0x30 || c > 0x39 {
            proof {
                if spec_all_digits(digits) {
                    lemma_digits_prefix(digits, i - start + 1);
                }
            }
            return None;
        }
        acc = acc * 10 + (c - 0x30) as u64;
        if acc > 0xFFFF_FFFF {
            proof {
                if spec_all_digits(digits) {
                    lemma_digits_prefix(digits, i - start + 1);
                }
            }
            return None;
        }
        i += 1;
    }
    assert(digits.take(n - start) =~= digits);
    Some(acc as u32)
}

/// The arguments of the probe: the name of the configuration file and the
/// debug level.
pub struct idsm_cmd_args {
    pub config_file: String,
    pub debug: u32,
}

/// What the arguments of the probe hold.
pub struct idsm_cmd_args_view {
    pub config_file: Seq<char>,
    pub debug: u32,
}

impl View for idsm_cmd_args {
    type V = idsm_cmd_args_view;

    open spec fn view(&self) -> idsm_cmd_args_view {
        idsm_cmd_args_view { config_file: self.config_file@, debug: self.debug }
    }
}

impl idsm_cmd_args {
    /// The options of the probe: `-f`/`--filename` and `-d`/`--debug`, each
    /// with an argument, and the flag `-h`/`--help`.
    pub open spec fn spec_options() -> Seq<(Seq<char>, Seq<char>, bool)> {
        seq![("f"@, "filename"@, true), ("d"@, "debug"@, true), ("h"@, "help"@, false)]
    }

    /// What the arguments `args` of a process give, starting from `prev`.
    /// The first is the name of the program; the rest is matched against the
    /// options.  The configuration file has to be named; the debug level
    /// stays as it was where none is given.  `None` where there is no
    /// argument at all, the arguments do not fit the options, help is asked
    /// for, no configuration file is named, or the debug level is no number.
    pub open spec fn spec_parse(prev: idsm_cmd_args_view, args: Seq<Seq<char>>) -> Option<
        idsm_cmd_args_view,
    > {
        if args.len() == 0 {
            None
        } else {
            match getopts_parsed(Self::spec_options(), args.skip(1)) {
                Some(m) => Self::spec_of_matches(prev, m),
                None => None,
            }
        }
    }

    /// What a matched command line gives, starting from `prev`.
    pub open spec fn spec_of_matches(prev: idsm_cmd_args_view, m: getopts::Matches) -> Option<
        idsm_cmd_args_view,
    > {
        if matches_present(m, "h"@) || matches_str(m, "f"@) is None {
            None
        } else if !matches_present(m, "d"@) {
            Some(
                idsm_cmd_args_view {
                    config_file: matches_str(m, "f"@).unwrap(),
                    debug: prev.debug,
                },
            )
        } else if matches_str(m, "d"@) is Some && spec_parse_u32(
            encode_utf8(matches_str(m, "d"@).unwrap()),
        ) is Some {
            Some(
                idsm_cmd_args_view {
                    config_file: matches_str(m, "f"@).unwrap(),
                    debug: spec_parse_u32(encode_utf8(matches_str(m, "d"@).unwrap())).unwrap(),
                },
            )
        } else {
            None
        }
    }

    /// No configuration file, debug level 0.
    pub fn new() -> (cmd_args: idsm_cmd_args)
        ensures
            cmd_args@ == (idsm_cmd_args_view { config_file: Seq::empty(), debug: 0 }),
    {
        idsm_cmd_args { config_file: String::new(), debug: 0 }
    }

    /// Takes configuration file and debug level from a matched command line.
    /// Returns 0; where help is asked for, no configuration file is named or
    /// the debug level is no number, returns -1 and changes nothing.
    pub fn parse_matches(&mut self, matches: &getopts::Matches) -> (ret: i32)
        requires
            matches_declared(*matches) == Self::spec_options(),
        ensures
            Self::spec_of_matches(old(self)@, *matches) is Some ==> ret == 0 && final(self)@
                == Self::spec_of_matches(old(self)@, *matches).unwrap(),
            Self::spec_of_matches(old(self)@, *matches) is None ==> ret == -1 && final(self)@
                == old(self)@,
    {
        proof {
            reveal_strlit("f");
            reveal_strlit("d");
            reveal_strlit("h");
            assert(Self::spec_options()[0].0 == "f"@);
            assert(Self::spec_options()[1].0 == "d"@);
            assert(Self::spec_options()[2].0 == "h"@);
        }
        if matches_opt_present(matches, "h") {
            return -1;
        }
        let config_file = match matches_opt_str(matches, "f") {
            Some(s) => s,
            None => {
                return -1;
            },
        };
        if matches_opt_present(matches, "d") {
            let debug_str = match matches_opt_str(matches, "d") {
                Some(s) => s,
                None => {
                    return -1;
                },
            };
            let debug = match parse_u32(debug_str.as_str()) {
                Some(v) => v,
                None => {
                    return -1;
                },
            };
            self.debug = debug;
        }
        self.config_file = config_file;

        return 0;
    }

    /// Takes configuration file and debug level from the arguments of a
    /// process.  Returns 0; where the arguments do not give them, returns -1
    /// and changes nothing.
    pub fn parse(&mut self, args: &Vec<String>) -> (ret: i32)
        ensures
            Self::spec_parse(old(self)@, spec_texts(args@)) is Some ==> ret == 0 && final(self)@
                == Self::spec_parse(old(self)@, spec_texts(args@)).unwrap(),
            Self::spec_parse(old(self)@, spec_texts(args@)) is None ==> ret == -1 && final(self)@
                == old(self)@,
    {
        if args.len() == 0 {
            return -1;
        }
        proof {
            reveal_strlit("f");
            reveal_strlit("filename");
            reveal_strlit("d");
            reveal_strlit("debug");
            reveal_strlit("h");
            reveal_strlit("help");
        }
        let mut options = options_new();
        options_optopt(&mut options, "f", "filename", "config filename", "");
        options_optopt(&mut options, "d", "debug", "debug this binary", "");
        options_optflag(&mut options, "h", "help", "shows the help");
        assert(options_declared(options) =~= Self::spec_options());

        let rest = slice_subrange(args.as_slice(), 1, args.len());
        assert(spec_texts(rest@) =~= spec_texts(args@).skip(1));
        match options_parse(&options, rest) {
            Some(m) => self.parse_matches(&m),
            None => -1,
        }
    }
}

} // verus!
