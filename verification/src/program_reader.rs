//! The textual program loader: turns source lines into (address, content)
//! pairs. A line is meaningful when it starts with two hexadecimal digits,
//! a colon, any number of spaces, and four hexadecimal digits (in either
//! case); whatever follows is ignored, and so is every other line.

use vstd::prelude::*;
use vstd::string::StrSliceExecFns;

use crate::machine::ProgramLoadWord;

verus! {

/// The value of a hexadecimal digit character, upper or lower case, or
/// `None` for any other character.
pub open spec fn spec_hex_val(c: char) -> Option<u8> {
    match c {
        '0' => Some(0u8),
        '1' => Some(1u8),
        '2' => Some(2u8),
        '3' => Some(3u8),
        '4' => Some(4u8),
        '5' => Some(5u8),
        '6' => Some(6u8),
        '7' => Some(7u8),
        '8' => Some(8u8),
        '9' => Some(9u8),
        'a' | 'A' => Some(10u8),
        'b' | 'B' => Some(11u8),
        'c' | 'C' => Some(12u8),
        'd' | 'D' => Some(13u8),
        'e' | 'E' => Some(14u8),
        'f' | 'F' => Some(15u8),
        _ => None,
    }
}

/// Two hexadecimal digit values combined into one byte, high digit first.
pub open spec fn hex_byte(hi: u8, lo: u8) -> u8 {
    (hi * 16 + lo) as u8
}

/// Four hexadecimal digit values combined into one 16-bit word, high
/// digit first.
pub open spec fn hex_word(a: u8, b: u8, c: u8, d: u8) -> u16 {
    (a * 4096 + b * 256 + c * 16 + d) as u16
}

/// The content field parsed from what follows the colon: any number of
/// spaces, then four hexadecimal digits. Anything after the four digits
/// is ignored.
pub open spec fn spec_parse_content(r: Seq<char>) -> Option<u16>
    decreases r.len(),
{
    if r.len() > 0 && r[0] == ' ' {
        spec_parse_content(r.skip(1))
    } else if r.len() >= 4 && spec_hex_val(r[0]) is Some && spec_hex_val(r[1]) is Some
        && spec_hex_val(r[2]) is Some && spec_hex_val(r[3]) is Some {
        Some(
            hex_word(
                spec_hex_val(r[0]).unwrap(),
                spec_hex_val(r[1]).unwrap(),
                spec_hex_val(r[2]).unwrap(),
                spec_hex_val(r[3]).unwrap(),
            ),
        )
    } else {
        None
    }
}

/// The (address, content) pair a source line denotes: two hexadecimal
/// digits, a colon, any number of spaces and four hexadecimal digits, or
/// `None` for a line of any other shape.
pub open spec fn spec_parse_line(s: Seq<char>) -> Option<ProgramLoadWord> {
    if s.len() >= 3 && spec_hex_val(s[0]) is Some && spec_hex_val(s[1]) is Some && s[2] == ':' {
        match spec_parse_content(s.skip(3)) {
            Some(content) => Some(
                ProgramLoadWord {
                    address: hex_byte(spec_hex_val(s[0]).unwrap(), spec_hex_val(s[1]).unwrap()),
                    content,
                },
            ),
            None => None,
        }
    } else {
        None
    }
}

/// The load words denoted by a sequence of source lines, in order, with
/// the meaningless lines left out.
pub open spec fn spec_parse_lines(ls: Seq<String>) -> Seq<ProgramLoadWord>
    decreases ls.len(),
{
    if ls.len() == 0 {
        Seq::empty()
    } else {
        spec_parse_lines(ls.drop_last()) + (match spec_parse_line(ls.last()@) {
            Some(w) => seq![w],
            None => Seq::<ProgramLoadWord>::empty(),
        })
    }
}

/// The value of a hexadecimal digit character, or `None` for any other.
fn hex_val_of(c: char) -> (r: Option<u8>)
    ensures
        r == spec_hex_val(c),
        r matches Some(v) ==> v < 16,
{
    match c {
        '0' => Some(0),
        '1' => Some(1),
        '2' => Some(2),
        '3' => Some(3),
        '4' => Some(4),
        '5' => Some(5),
        '6' => Some(6),
        '7' => Some(7),
        '8' => Some(8),
        '9' => Some(9),
        'a' | 'A' => Some(10),
        'b' | 'B' => Some(11),
        'c' | 'C' => Some(12),
        'd' | 'D' => Some(13),
        'e' | 'E' => Some(14),
        'f' | 'F' => Some(15),
        _ => None,
    }
}

/// Reads program text, line by line, and parses it into load words.
pub struct ProgramReader {
    lines: Vec<String>,
}

impl ProgramReader {
    /// The lines held for parsing.
    pub closed spec fn lines_view(&self) -> Seq<String> {
        self.lines@
    }

    /// A reader holding no lines yet.
    pub fn new() -> (r: Self)
        ensures
            r.lines_view().len() == 0,
    {
        let lines: Vec<String> = Vec::new();
        Self { lines }
    }

    /// Hands the reader the program text as a vector of lines.
    pub fn load_from_vec(&mut self, lines: Vec<String>)
        ensures
            final(self).lines_view() == lines@,
    {
        self.lines = lines;
    }

    /// Parses every held line, in order, into the load words the
    /// meaningful lines denote.
    pub fn parse(&self) -> (r: Vec<ProgramLoadWord>)
        ensures
            r@ == spec_parse_lines(self.lines_view()),
    {
        let n = self.lines.len();
        let mut out: Vec<ProgramLoadWord> = Vec::new();
        let mut i: usize = 0;
        while i < n
            invariant
                n == self.lines.len(),
                i <= n,
                out@ == spec_parse_lines(self.lines@.take(i as int)),
            decreases n - i,
        {
            let parsed = self.parse_line(&self.lines[i]);
            proof {
                assert(self.lines@.take(i + 1 as int).drop_last() =~= self.lines@.take(i as int));
                assert(self.lines@.take(i + 1 as int).last() == self.lines@[i as int]);
            }
            match parsed {
                Some(w) => {
                    out.push(w);
                    proof {
                        assert(out@ =~= spec_parse_lines(self.lines@.take(i + 1 as int)));
                    }
                },
                None => {
                    proof {
                        assert(out@ =~= spec_parse_lines(self.lines@.take(i + 1 as int)));
                    }
                },
            }
            i = i + 1;
        }
        proof {
            assert(self.lines@.take(n as int) =~= self.lines@);
        }
        out
    }

    /// Parses one source line into the load word it denotes, or `None`
    /// for a line that does not match the program-text shape.
    fn parse_line(&self, line: &String) -> (r: Option<ProgramLoadWord>)
        ensures
            r == spec_parse_line(line@),
    {
        let s = line.as_str();
        let n = s.unicode_len();
        if n < 3 {
            return None;
        }
        let h0 = match hex_val_of(s.get_char(0)) {
            Some(v) => v,
            None => {
                return None;
            },
        };
        let h1 = match hex_val_of(s.get_char(1)) {
            Some(v) => v,
            None => {
                return None;
            },
        };
        if s.get_char(2) != ':' {
            return None;
        }
        let mut idx: usize = 3;
        while idx < n && s.get_char(idx) == ' '
            invariant
                3 <= idx <= n,
                n == line@.len(),
                s@ == line@,
                spec_parse_content(line@.skip(3)) == spec_parse_content(line@.skip(idx as int)),
            decreases n - idx,
        {
            proof {
                assert(line@.skip(idx as int)[0] == line@[idx as int]);
                assert(line@.skip(idx as int).skip(1) =~= line@.skip(idx + 1 as int));
            }
            idx = idx + 1;
        }
        proof {
            if idx < n {
                assert(line@.skip(idx as int)[0] == line@[idx as int]);
            }
        }
        if n - idx < 4 {
            return None;
        }
        proof {
            assert(line@.skip(idx as int)[0] == line@[idx as int]);
            assert(line@.skip(idx as int)[1] == line@[idx + 1 as int]);
            assert(line@.skip(idx as int)[2] == line@[idx + 2 as int]);
            assert(line@.skip(idx as int)[3] == line@[idx + 3 as int]);
        }
        let c0 = match hex_val_of(s.get_char(idx)) {
            Some(v) => v,
            None => {
                return None;
            },
        };
        let c1 = match hex_val_of(s.get_char(idx + 1)) {
            Some(v) => v,
            None => {
                return None;
            },
        };
        let c2 = match hex_val_of(s.get_char(idx + 2)) {
            Some(v) => v,
            None => {
                return None;
            },
        };
        let c3 = match hex_val_of(s.get_char(idx + 3)) {
            Some(v) => v,
            None => {
                return None;
            },
        };
        let address: u8 = h0 * 16 + h1;
        let content: u16 = (c0 as u16) * 4096 + (c1 as u16) * 256 + (c2 as u16) * 16 + (c3 as u16);
        Some(ProgramLoadWord { address, content })
    }
}

} // verus!
