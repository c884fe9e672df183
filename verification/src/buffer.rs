//! A line-based buffer for the generated C text.
//!
//! Lines are collected in order; [`CodeBuffer::finish`] joins them with
//! newlines, adds a trailing newline when any content exists, and prefixes
//! the two fixed standard-library include lines.

use vstd::prelude::*;
use vstd::string::StringExecFns;

verus! {

/// The fixed text that opens every generated file.
pub open spec fn spec_header() -> Seq<char> {
    "#include <stdint.h>\n#include <stdbool.h>\n\n"@
}

/// `count` levels of indentation, four spaces each.
pub open spec fn spec_indent(count: nat) -> Seq<char>
    decreases count,
{
    if count == 0 {
        Seq::empty()
    } else {
        spec_indent((count - 1) as nat) + "    "@
    }
}

/// The lines joined by single newlines, with no terminator.
pub open spec fn spec_join_lines(lines: Seq<Seq<char>>) -> Seq<char>
    decreases lines.len(),
{
    if lines.len() == 0 {
        Seq::empty()
    } else if lines.len() == 1 {
        lines[0]
    } else {
        spec_join_lines(lines.drop_last()) + seq!['\n'] + lines.last()
    }
}

/// The complete output text for a sequence of lines: the header, then the
/// joined lines followed by a final newline whenever they are non-empty.
pub open spec fn spec_finish(lines: Seq<Seq<char>>) -> Seq<char> {
    let content = spec_join_lines(lines);
    if content.len() == 0 {
        spec_header()
    } else {
        spec_header() + content + seq!['\n']
    }
}

/// An ordered collection of output lines.
pub struct CodeBuffer {
    lines: Vec<String>,
}

impl View for CodeBuffer {
    type V = Seq<Seq<char>>;

    closed spec fn view(&self) -> Seq<Seq<char>> {
        self.lines.deep_view()
    }
}

impl Default for CodeBuffer {
    /// An empty buffer.
    fn default() -> (r: Self)
        ensures
            r@ == Seq::<Seq<char>>::empty(),
    {
        let r = CodeBuffer { lines: Vec::new() };
        proof {
            assert(r@ =~= Seq::<Seq<char>>::empty());
        }
        r
    }
}

impl CodeBuffer {
    /// Appends one line.
    pub fn push_line(&mut self, line: &str)
        ensures
            final(self)@ == old(self)@.push(line@),
    {
        self.lines.push(line.to_owned());
        proof {
            assert(self@ =~= old(self)@.push(line@));
        }
    }

    /// Appends one line behind `indent` levels of indentation.
    pub fn push_indented_line(&mut self, indent: usize, line: &str)
        ensures
            final(self)@ == old(self)@.push(spec_indent(indent as nat) + line@),
    {
        let mut text = String::new();
        let mut i: usize = 0;
        while i < indent
            invariant
                i <= indent,
                text@ == spec_indent(i as nat),
            decreases indent - i,
        {
            text.append("    ");
            i = i + 1;
        }
        text.append(line);
        self.lines.push(text);
        proof {
            assert(self@ =~= old(self)@.push(spec_indent(indent as nat) + line@));
        }
    }

    /// Joins the collected lines into the final output text.
    pub fn finish(self) -> (r: String)
        ensures
            r@ == spec_finish(self@),
    {
        let mut content = String::new();
        let mut i: usize = 0;
        let n = self.lines.len();
        while i < n
            invariant
                i <= n,
                n == self.lines.len(),
                content@ == spec_join_lines(self@.take(i as int)),
            decreases n - i,
        {
            if i > 0 {
                proof {
                    reveal_strlit("\n");
                }
                content.append("\n");
            }
            content.append(self.lines[i].as_str());
            proof {
                assert(self@.take(i as int + 1).drop_last() =~= self@.take(i as int));
                assert(self@.take(i as int + 1).last() == self@[i as int]);
            }
            i = i + 1;
        }
        proof {
            assert(self@.take(n as int) =~= self@);
        }
        let mut out = String::from_str("#include <stdint.h>\n#include <stdbool.h>\n\n");
        if !content.as_str().is_empty() {
            proof {
                reveal_strlit("\n");
            }
            out.append(content.as_str());
            out.append("\n");
        } else {
            proof {
                assert(spec_join_lines(self@) =~= content@);
            }
        }
        out
    }
}

} // verus!
