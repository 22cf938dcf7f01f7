//! What the command line of the packet generator gives.

use vstd::prelude::*;
use vstd::slice::slice_subrange;
use vstd::utf8::encode_utf8;
use crate::cmd_args::{parse_u32, spec_parse_u32};
use crate::cmd_opts::{
    getopts_parsed,
    matches_declared,
    matches_opt_present,
    matches_opt_str,
    matches_present,
    matches_str,
    options_declared,
    options_new,
    options_optflag,
    options_optopt,
    options_parse,
    spec_texts,
};

verus! {

/// The arguments of the packet generator: the name of the configuration file
/// and the debug level.
pub struct pktgen_cmd_args {
    pub config_file: String,
    pub debug: u32,
}

/// What the arguments of the packet generator hold.
pub struct pktgen_cmd_args_view {
    pub config_file: Seq<char>,
    pub debug: u32,
}

impl View for pktgen_cmd_args {
    type V = pktgen_cmd_args_view;

    open spec fn view(&self) -> pktgen_cmd_args_view {
        pktgen_cmd_args_view { config_file: self.config_file@, debug: self.debug }
    }
}

impl pktgen_cmd_args {
    /// The options of the packet generator: `-f`/`--filename` and
    /// `-d`/`--debug`, each with an argument, and the flag `-h`/`--help`.
    pub open spec fn spec_options() -> Seq<(Seq<char>, Seq<char>, bool)> {
        seq![("f"@, "filename"@, true), ("d"@, "debug"@, true), ("h"@, "help"@, false)]
    }

    /// The configuration file that a matched command line gives: the one it
    /// names, else the one of before.  `None` where the option is there
    /// without an argument.
    pub open spec fn spec_config_file(prev: Seq<char>, m: getopts::Matches) -> Option<Seq<char>> {
        if matches_present(m, "f"@) {
            matches_str(m, "f"@)
        } else {
            Some(prev)
        }
    }

    /// The debug level that a matched command line gives: the one it names,
    /// else the one of before.  `None` where the option is there without a
    /// number for an argument.
    pub open spec fn spec_debug(prev: u32, m: getopts::Matches) -> Option<u32> {
        if !matches_present(m, "d"@) {
            Some(prev)
        } else if matches_str(m, "d"@) is Some {
            spec_parse_u32(encode_utf8(matches_str(m, "d"@).unwrap()))
        } else {
            None
        }
    }

    /// What a matched command line gives, starting from `prev`.  `None` where
    /// help is asked for, or an option comes without what it needs.
    pub open spec fn spec_of_matches(prev: pktgen_cmd_args_view, m: getopts::Matches) -> Option<
        pktgen_cmd_args_view,
    > {
        if !matches_present(m, "h"@) && Self::spec_config_file(prev.config_file, m) is Some
            && Self::spec_debug(prev.debug, m) is Some {
            Some(
                pktgen_cmd_args_view {
                    config_file: Self::spec_config_file(prev.config_file, m).unwrap(),
                    debug: Self::spec_debug(prev.debug, m).unwrap(),
                },
            )
        } else {
            None
        }
    }

    /// What the arguments `args` of a process give, starting from `prev`.
    /// The first is the name of the program; the rest is matched against the
    /// options.  `None` where there is no argument at all, the arguments do
    /// not fit the options, help is asked for, or the debug level is no
    /// number.
    pub open spec fn spec_parse(prev: pktgen_cmd_args_view, args: Seq<Seq<char>>) -> Option<
        pktgen_cmd_args_view,
    > {
        if args.len() == 0 {
            None
        } else {
            match getopts_parsed(Self::spec_options(), args.skip(1)) {
                Some(m) => Self::spec_of_matches(prev, m),
                None => None,
            }
        }
    }

    /// No configuration file, debug level 0.
    pub fn new() -> (cmd_args: pktgen_cmd_args)
        ensures
            cmd_args@ == (pktgen_cmd_args_view { config_file: Seq::empty(), debug: 0 }),
    {
        pktgen_cmd_args { config_file: String::new(), debug: 0 }
    }

    /// Takes configuration file and debug level from a matched command line,
    /// each where it is given.  Returns 0; where help is asked for or an
    /// option comes without what it needs, returns -1 and changes nothing.
    pub fn parse_matches(&mut self, matches: &getopts::Matches) -> (ret: i32)
        requires
            matches_declared(*matches) == Self::spec_options(),
        ensures
            Self::spec_of_matches(old(self)@, *matches) is Some ==> ret == 0 && final(self)@
                == Self::spec_of_matches(old(self)@, *matches).unwrap(),
            Self::spec_of_matches(old(self)@, *matches) is None ==> ret == -1 && final(self)@
                == old(self)@,
    {
        proof {
            reveal_strlit("f");
            reveal_strlit("d");
            reveal_strlit("h");
            assert(Self::spec_options()[0].0 == "f"@);
            assert(Self::spec_options()[1].0 == "d"@);
            assert(Self::spec_options()[2].0 == "h"@);
        }
        // if -h is set, only the usage is wanted
        if matches_opt_present(matches, "h") {
            return -1;
        }

        // if -f is set, copy config filename
        let mut config_file: Option<String> = None;
        if matches_opt_present(matches, "f") {
            config_file = matches_opt_str(matches, "f");
            if config_file.is_none() {
                return -1;
            }
        }

        // if -d is set, copy debug value
        if matches_opt_present(matches, "d") {
            let debug_str = match matches_opt_str(matches, "d") {
                Some(s) => s,
                None => {
                    return -1;
                },
            };
            let debug = match parse_u32(debug_str.as_str()) {
                Some(v) => v,
                None => {
                    return -1;
                },
            };
            self.debug = debug;
        }
        match config_file {
            Some(s) => {
                self.config_file = s;
            },
            None => {},
        }
        return 0;
    }

    /// Takes configuration file and debug level from the arguments of a
    /// process.  Returns 0; where the arguments do not fit, returns -1 and
    /// changes nothing.
    pub fn parse(&mut self, args: &Vec<String>) -> (ret: i32)
        ensures
            Self::spec_parse(old(self)@, spec_texts(args@)) is Some ==> ret == 0 && final(self)@
                == Self::spec_parse(old(self)@, spec_texts(args@)).unwrap(),
            Self::spec_parse(old(self)@, spec_texts(args@)) is None ==> ret == -1 && final(self)@
                == old(self)@,
    {
        if args.len() == 0 {
            return -1;
        }
        proof {
            reveal_strlit("f");
            reveal_strlit("filename");
            reveal_strlit("d");
            reveal_strlit("debug");
            reveal_strlit("h");
            reveal_strlit("help");
        }
        let mut options = options_new();

        options_optopt(&mut options, "f", "filename", "config filename", "");
        options_optopt(&mut options, "d", "debug", "debug this binary", "");
        options_optflag(&mut options, "h", "help", "shows the help");
        assert(options_declared(options) =~= Self::spec_options());

        let rest = slice_subrange(args.as_slice(), 1, args.len());
        assert(spec_texts(rest@) =~= spec_texts(args@).skip(1));
        match options_parse(&options, rest) {
            Some(m) => self.parse_matches(&m),
            None => -1,
        }
    }
}

} // verus!
