//! The external word stream: a FIFO of pending input words and an
//! append-only log of output words, together with human-readable summaries
//! of both. The step controller pulls from and appends to it when an
//! instruction trips the I/O convention at address 0xFF.

use vstd::prelude::*;
use vstd::string::StringExecFns;

use crate::render::word_entry;
use crate::render::word_entry_string;

verus! {

/// The mathematical model of the stream: the words still pending on the
/// input side, the words logged on the output side, and the two summary
/// texts.
pub struct EnvModel {
    pub input: Seq<u16>,
    pub output: Seq<u16>,
    pub input_dump: Seq<char>,
    pub output_dump: Seq<char>,
}

/// The input summary for a pending-word sequence: `No input` when empty,
/// else `Input ` followed by the comma-separated word entries.
pub open spec fn input_dump_of(ws: Seq<u16>) -> Seq<char> {
    if ws.len() == 0 {
        "No input"@
    } else {
        "Input "@ + entries_joined(ws)
    }
}

/// The word entries rendered in order, separated by `, `.
pub open spec fn entries_joined(ws: Seq<u16>) -> Seq<char>
    decreases ws.len(),
{
    if ws.len() == 0 {
        Seq::empty()
    } else if ws.len() == 1 {
        word_entry(ws[0])
    } else {
        entries_joined(ws.drop_last()) + ", "@ + word_entry(ws.last())
    }
}

/// The output summary after one more word: `Output: ` starts it, `, `
/// separates the entries.
pub open spec fn output_dump_appended(prev: Seq<char>, w: u16) -> Seq<char> {
    if prev.len() == 0 {
        "Output: "@ + word_entry(w)
    } else {
        prev + ", "@ + word_entry(w)
    }
}

/// The external word stream around one simulation session.
pub struct ExternalEnv {
    input: Vec<u16>,
    output: Vec<u16>,
    pub input_for_dump: String,
    pub output_for_dump: String,
}

impl View for ExternalEnv {
    type V = EnvModel;

    closed spec fn view(&self) -> EnvModel {
        EnvModel {
            input: self.input@,
            output: self.output@,
            input_dump: self.input_for_dump@,
            output_dump: self.output_for_dump@,
        }
    }
}

impl ExternalEnv {
    /// A stream holding the given pending input words, an empty output
    /// log, and a summary of the input.
    pub fn new(input: Vec<u16>) -> (r: Self)
        ensures
            r@.input == input@,
            r@.output == Seq::<u16>::empty(),
            r@.input_dump == input_dump_of(input@),
            r@.output_dump == Seq::<char>::empty(),
    {
        let output: Vec<u16> = Vec::new();
        let n = input.len();
        let mut s = String::new();
        if n == 0 {
            s = String::from_str("No input");
        } else {
            s = String::from_str("Input ");
            assert(s@ =~= "Input "@ + entries_joined(input@.take(0)));
            let mut i: usize = 0;
            while i < n
                invariant
                    n == input.len(),
                    i <= n,
                    s@ == "Input "@ + entries_joined(input@.take(i as int)),
                decreases n - i,
            {
                if i > 0 {
                    s.append(", ");
                }
                s.append(word_entry_string(input[i]).as_str());
                proof {
                    let pre = input@.take(i as int);
                    let post = input@.take(i + 1 as int);
                    assert(post.drop_last() =~= pre);
                    assert(post.last() == input@[i as int]);
                    if i == 0 {
                        assert(s@ =~= "Input "@ + entries_joined(post));
                    } else {
                        assert(entries_joined(post) == entries_joined(pre) + ", "@ + word_entry(
                            input@[i as int],
                        ));
                        assert(s@ =~= "Input "@ + entries_joined(post));
                    }
                }
                i = i + 1;
            }
            proof {
                assert(input@.take(n as int) =~= input@);
            }
        }
        Self { input, output, input_for_dump: s, output_for_dump: String::new() }
    }

    /// Whether no input word is pending.
    pub fn is_end_of_input(&self) -> (r: bool)
        ensures
            r == (self@.input.len() == 0),
    {
        self.input.len() == 0
    }

    /// Pulls the next pending input word, in arrival order, or reports
    /// that the stream is exhausted; the summaries stay as they are.
    pub fn get_next_word(&mut self) -> (r: Option<u16>)
        ensures
            old(self)@.input.len() == 0 ==> r is None && final(self)@ == old(self)@,
            old(self)@.input.len() > 0 ==> r == Some(old(self)@.input[0]) && final(self)@
                == (EnvModel { input: old(self)@.input.skip(1), ..old(self)@ }),
    {
        if self.input.len() == 0 {
            return None;
        }
        let value = self.input.remove(0);
        proof {
            assert(self.input@ =~= old(self)@.input.skip(1));
        }
        Some(value)
    }

    /// Appends a word to the output log and extends the output summary
    /// with its entry.
    pub fn put_word(&mut self, word: u16)
        ensures
            final(self)@ == (EnvModel {
                output: old(self)@.output.push(word),
                output_dump: output_dump_appended(old(self)@.output_dump, word),
                ..old(self)@
            }),
    {
        if self.output_for_dump.as_str().is_empty() {
            let mut s = String::from_str("Output: ");
            s.append(word_entry_string(word).as_str());
            self.output_for_dump = s;
        } else {
            self.output_for_dump.append(", ");
            self.output_for_dump.append(word_entry_string(word).as_str());
        }
        self.output.push(word);
    }

    /// The most recently logged output word.
    pub fn peek_at_last_output(&self) -> (r: u16)
        requires
            self@.output.len() > 0,
        ensures
            r == self@.output.last(),
    {
        let last = self.output.len() - 1;
        self.output[last]
    }
}

} // verus!
