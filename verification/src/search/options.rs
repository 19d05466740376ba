//! How search patterns are interpreted.

use crate::text::owned;
use vstd::prelude::*;

verus! {

/// Search settings: regular expressions by default, case-sensitive, not restricted to
/// whole words.
#[derive(Debug, Clone, Copy, PartialEq, Eq, Structural)]
pub struct SearchOptions {
    pub case_sensitive: bool,
    pub whole_word: bool,
    pub regex_mode: bool,
}

impl Default for SearchOptions {
    fn default() -> (r: Self)
        ensures
            r.case_sensitive,
            !r.whole_word,
            r.regex_mode,
    {
        SearchOptions { case_sensitive: true, whole_word: false, regex_mode: true }
    }
}

/// What one command-mode flag does to the settings: `i` toggles case sensitivity, `w`
/// toggles whole-word matching, `r` turns regular expressions on and `n` off (literal
/// patterns); any other character changes nothing.
pub open spec fn apply_flag(o: SearchOptions, c: char) -> SearchOptions {
    if c == 'i' {
        SearchOptions { case_sensitive: !o.case_sensitive, ..o }
    } else if c == 'w' {
        SearchOptions { whole_word: !o.whole_word, ..o }
    } else if c == 'r' {
        SearchOptions { regex_mode: true, ..o }
    } else if c == 'n' {
        SearchOptions { regex_mode: false, ..o }
    } else {
        o
    }
}

/// The settings after the flags of `command`, applied left to right.
pub open spec fn apply_flags(o: SearchOptions, command: Seq<char>) -> SearchOptions
    decreases command.len(),
{
    if command.len() == 0 {
        o
    } else {
        apply_flag(apply_flags(o, command.drop_last()), command.last())
    }
}

/// How many times `c` occurs in `s`.
pub open spec fn occurrences(s: Seq<char>, c: char) -> nat
    decreases s.len(),
{
    if s.len() == 0 {
        0
    } else {
        occurrences(s.drop_last(), c) + if s.last() == c {
            1nat
        } else {
            0nat
        }
    }
}

/// The last of the characters `r` and `n` in `s`, if either occurs.
pub open spec fn last_mode_flag(s: Seq<char>) -> Option<char>
    decreases s.len(),
{
    if s.len() == 0 {
        None
    } else if s.last() == 'r' || s.last() == 'n' {
        Some(s.last())
    } else {
        last_mode_flag(s.drop_last())
    }
}

/// What a command does to the settings: each `i` flips case sensitivity and each `w`
/// whole-word matching, so an odd number of them changes the setting and an even
/// number leaves it; `r` and `n` set the mode rather than flip it, so the last of them
/// decides (`r` regular expressions, `n` literal patterns) and without either the mode
/// stays as it was.
pub proof fn law_command_flags(o: SearchOptions, command: Seq<char>)
    ensures
        apply_flags(o, command).case_sensitive == (o.case_sensitive == (occurrences(command, 'i')
            % 2 == 0)),
        apply_flags(o, command).whole_word == (o.whole_word == (occurrences(command, 'w') % 2
            == 0)),
        apply_flags(o, command).regex_mode == match last_mode_flag(command) {
            Some(c) => c == 'r',
            None => o.regex_mode,
        },
    decreases command.len(),
{
    if command.len() > 0 {
        law_command_flags(o, command.drop_last());
    }
}

/// The status-line summary of the settings.
pub open spec fn options_summary(o: SearchOptions) -> Seq<char> {
    if o.case_sensitive {
        if o.regex_mode {
            if o.whole_word {
                "Options: case-sensitive, regex, whole word"@
            } else {
                "Options: case-sensitive, regex"@
            }
        } else {
            if o.whole_word {
                "Options: case-sensitive, literal, whole word"@
            } else {
                "Options: case-sensitive, literal"@
            }
        }
    } else {
        if o.regex_mode {
            if o.whole_word {
                "Options: ignore-case, regex, whole word"@
            } else {
                "Options: ignore-case, regex"@
            }
        } else {
            if o.whole_word {
                "Options: ignore-case, literal, whole word"@
            } else {
                "Options: ignore-case, literal"@
            }
        }
    }
}

impl SearchOptions {
    /// The default settings.
    pub open spec fn spec_default() -> Self {
        SearchOptions { case_sensitive: true, whole_word: false, regex_mode: true }
    }

    /// The settings the command line asks for, from the defaults: `ignore_case` makes
    /// searches case-insensitive, `literal` turns regular expressions off and `regex`
    /// back on, `word` restricts matches to whole words.
    pub fn from_flags(ignore_case: bool, literal: bool, regex: bool, word: bool) -> (r: Self)
        ensures
            r.case_sensitive == !ignore_case,
            r.regex_mode == (regex || !literal),
            r.whole_word == word,
    {
        let mut options = SearchOptions::default();
        if ignore_case {
            options.case_sensitive = false;
        }
        if literal {
            options.regex_mode = false;
        }
        if regex {
            options.regex_mode = true;
        }
        if word {
            options.whole_word = true;
        }
        options
    }

    /// The settings after the command-mode flags of `command` (`i`, `w`, `r`, `n`),
    /// applied left to right; other characters are ignored.
    pub fn apply_command(&self, command: &str) -> (r: Self)
        ensures
            r == apply_flags(*self, command@),
    {
        let n = command.unicode_len();
        let mut options = *self;
        let mut i: usize = 0;
        while i < n
            invariant
                n == command@.len(),
                i <= n,
                options == apply_flags(*self, command@.subrange(0, i as int)),
            decreases n - i,
        {
            let c = command.get_char(i);
            proof {
                let pre = command@.subrange(0, i as int + 1);
                assert(pre.drop_last() =~= command@.subrange(0, i as int));
                assert(pre.last() == c);
            }
            if c == 'i' {
                options.case_sensitive = !options.case_sensitive;
            } else if c == 'w' {
                options.whole_word = !options.whole_word;
            } else if c == 'r' {
                options.regex_mode = true;
            } else if c == 'n' {
                options.regex_mode = false;
            }
            i = i + 1;
        }
        assert(command@.subrange(0, n as int) =~= command@);
        options
    }

    /// A status-line summary of the settings.
    pub fn summary(&self) -> (r: String)
        ensures
            r@ == options_summary(*self),
    {
        if self.case_sensitive {
            if self.regex_mode {
                if self.whole_word {
                    owned("Options: case-sensitive, regex, whole word")
                } else {
                    owned("Options: case-sensitive, regex")
                }
            } else {
                if self.whole_word {
                    owned("Options: case-sensitive, literal, whole word")
                } else {
                    owned("Options: case-sensitive, literal")
                }
            }
        } else {
            if self.regex_mode {
                if self.whole_word {
                    owned("Options: ignore-case, regex, whole word")
                } else {
                    owned("Options: ignore-case, regex")
                }
            } else {
                if self.whole_word {
                    owned("Options: ignore-case, literal, whole word")
                } else {
                    owned("Options: ignore-case, literal")
                }
            }
        }
    }
}

} // verus!
