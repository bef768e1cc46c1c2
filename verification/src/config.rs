//! The resolved invocation surface: the run's options, pattern and files.
//!
//! Flag parsing itself belongs to the application; this module only turns
//! the already-parsed pieces into a configuration.

use vstd::prelude::*;

verus! {

/// The three boolean options of a run.
#[derive(Clone, Copy, Debug, PartialEq, Eq, Structural)]
pub struct Flags {
    /// Match without case distinctions.
    pub ignore_case: bool,
    /// Stamp output lines with their 1-based line number.
    pub print_line_nums: bool,
    /// Highlight the matched span (and color the prefixes).
    pub use_color: bool,
}

/// A whole run's configuration: options, the pattern, and the files to scan
/// (none means standard input).
pub struct Config {
    pub flags: Flags,
    pub pattern: Option<String>,
    pub files: Vec<String>,
}

impl Config {
    /// Builds the configuration from the resolved invocation surface: the
    /// positional arguments and the three boolean options. The first
    /// positional argument is the pattern and the rest are the files; with
    /// no positional arguments there is no pattern, and no configuration.
    pub fn from_parts(
        positional: Vec<String>,
        ignore_case: bool,
        print_line_nums: bool,
        use_color: bool,
    ) -> (r: Option<Config>)
        ensures
            positional@.len() == 0 ==> r is None,
            positional@.len() > 0 ==> (r matches Some(c) && c.flags == (Flags {
                ignore_case,
                print_line_nums,
                use_color,
            }) && c.pattern == Some(positional@[0]) && c.files@ == positional@.subrange(
                1,
                positional@.len() as int,
            )),
    {
        let mut positional = positional;
        let ghost given = positional@;
        if positional.is_empty() {
            None
        } else {
            let pattern = positional.remove(0);
            proof {
                assert(positional@ =~= given.subrange(1, given.len() as int));
            }
            Some(
                Config {
                    flags: Flags { ignore_case, print_line_nums, use_color },
                    pattern: Some(pattern),
                    files: positional,
                },
            )
        }
    }
}

} // verus!
