//! Parsing and normalization of command front-end input: the tracked
//! identity code and the helper texts of the command loop.

use vstd::prelude::*;

use crate::strutil::{
    digits_val, lemma_scan_to, nat_parses, parse_usize, scan_to, scan_to_exec, to_lowercase,
    to_uppercase, trim, lower_of, trim_of, upper_of,
};

verus! {

/// A tracked identity code: a name and a number, written `NAME#NUMBER`.
#[derive(Debug)]
pub struct NetplayCode {
    pub name: String,
    pub num: usize,
}

/// Why a string is not an identity code.
#[derive(Clone, Copy, Debug, PartialEq, Eq, Structural)]
pub enum NetplayCodeParseError {
    InvalidCode,
}

/// The identity code a string denotes, if any: exactly eight characters
/// with a `#` splitting an uppercased name from a decimal number, the
/// number read up to a second `#` if one follows.
pub open spec fn spec_parse_code(s: Seq<char>) -> Option<(Seq<char>, int)> {
    let h = scan_to(s, 0, '#');
    if s.len() != 8 || h == s.len() {
        None
    } else {
        let e = scan_to(s, h + 1, '#');
        let num_txt = s.subrange(h + 1, e);
        if nat_parses(num_txt) {
            Some((upper_of(s.subrange(0, h)), digits_val(num_txt)))
        } else {
            None
        }
    }
}

impl NetplayCode {
    /// Parses an identity code of the form `NAME#NUMBER`.
    pub fn from_str(np_str: &str) -> (r: Result<NetplayCode, NetplayCodeParseError>)
        ensures
            match r {
                Ok(c) => spec_parse_code(np_str@) matches Some(p) && c.name@ == p.0 && c.num
                    == p.1,
                Err(e) => spec_parse_code(np_str@) is None && e
                    == NetplayCodeParseError::InvalidCode,
            },
    {
        let len = np_str.unicode_len();
        let h = scan_to_exec(np_str, 0, '#');
        if len != 8 || h == len {
            return Err(NetplayCodeParseError::InvalidCode);
        }
        proof {
            lemma_scan_to(np_str@, 0, '#');
        }
        let e = scan_to_exec(np_str, h + 1, '#');
        let num_txt = np_str.substring_char(h + 1, e);
        let num = match parse_usize(num_txt) {
            Some(v) => v,
            None => {
                return Err(NetplayCodeParseError::InvalidCode);
            },
        };
        let name_part = np_str.substring_char(0, h);
        let name = to_uppercase(name_part);
        Ok(NetplayCode { name, num })
    }
}

/// Normalizes one line of user input: surrounding whitespace removed, then
/// lowercased.
pub fn format_input(arg: String) -> (r: String)
    ensures
        r@ == lower_of(trim_of(arg@)),
{
    let t = trim(arg.as_str());
    to_lowercase(t)
}

/// The text of the first `i` command names, the last one led by `and `.
pub open spec fn spec_help_items(cmds: Seq<String>, i: int) -> Seq<char>
    decreases i,
{
    if i <= 0 {
        Seq::empty()
    } else {
        spec_help_items(cmds, i - 1) + if i - 1 == cmds.len() - 1 {
            "and "@ + cmds[i - 1]@
        } else {
            cmds[i - 1]@
        }
    }
}

/// Builds the command-loop help line from the command names.
pub fn format_help_txt(cmds: Vec<String>) -> (r: String)
    ensures
        r@ == "The available commands are "@ + spec_help_items(cmds@, cmds@.len() as int),
{
    let mut help_txt = String::new();
    help_txt.append("The available commands are ");
    let n = cmds.len();
    let mut i: usize = 0;
    while i < n
        invariant
            n == cmds@.len(),
            i <= n,
            help_txt@ == "The available commands are "@ + spec_help_items(cmds@, i as int),
        decreases n - i,
    {
        if i == n - 1 {
            help_txt.append("and ");
        }
        help_txt.append(cmds[i].as_str());
        proof {
            assert(help_txt@ =~= "The available commands are "@ + spec_help_items(
                cmds@,
                i + 1,
            ));
        }
        i = i + 1;
    }
    help_txt
}

} // verus!
