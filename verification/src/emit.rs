//! A minimal text sink with explicit indentation state. The indentation unit
//! is a fixed four-column whitespace block; indentation is advisory for
//! readability only and carries no semantic weight in the generated artifact.

use vstd::prelude::*;

verus! {

/// The whitespace block of `n` indentation levels.
pub open spec fn indent_text(n: nat) -> Seq<char>
    decreases n,
{
    if n == 0 {
        Seq::empty()
    } else {
        "    "@ + indent_text((n - 1) as nat)
    }
}

/// A line break followed by the current indentation.
pub open spec fn newline_text(n: nat) -> Seq<char> {
    "\n"@ + indent_text(n)
}

/// `n` consecutive line breaks with no indentation.
pub open spec fn blank_lines_text(n: nat) -> Seq<char>
    decreases n,
{
    if n == 0 {
        Seq::empty()
    } else {
        "\n"@ + blank_lines_text((n - 1) as nat)
    }
}

/// An indentation-tracked text sink; every generator writes through it.
pub struct IndentWriter {
    out: String,
    indent: usize,
}

impl IndentWriter {
    /// The text written so far.
    pub closed spec fn text(&self) -> Seq<char> {
        self.out@
    }

    /// The current indentation level.
    pub closed spec fn level(&self) -> nat {
        self.indent as nat
    }

    /// A fresh sink with no text and indentation zero.
    pub fn new() -> (r: Self)
        ensures
            r.text() == Seq::<char>::empty(),
            r.level() == 0,
    {
        IndentWriter { out: String::new(), indent: 0 }
    }

    /// Hand the accumulated text out.
    pub fn into_string(self) -> (r: String)
        ensures
            r@ == self.text(),
    {
        self.out
    }

    /// Force indentation back to zero.
    pub fn kill_indent(&mut self)
        ensures
            final(self).text() == old(self).text(),
            final(self).level() == 0,
    {
        self.indent = 0;
    }

    /// Increase indentation by one level and return a line break pre-indented
    /// to the new level.
    pub fn increase_indent(&mut self) -> (r: String)
        requires
            old(self).level() < usize::MAX,
        ensures
            final(self).text() == old(self).text(),
            final(self).level() == old(self).level() + 1,
            r@ == newline_text(final(self).level()),
    {
        self.indent = self.indent + 1;
        self.newline()
    }

    /// Decrease indentation by one level and return a line break pre-indented
    /// to the new level; decreasing below zero is a programmer error.
    pub fn decrease_indent(&mut self) -> (r: String)
        requires
            old(self).level() > 0,
        ensures
            final(self).text() == old(self).text(),
            final(self).level() == old(self).level() - 1,
            r@ == newline_text(final(self).level()),
    {
        self.indent = self.indent - 1;
        self.newline()
    }

    /// The whitespace of the current indentation level.
    pub fn tabs(&self) -> (r: String)
        ensures
            r@ == indent_text(self.level()),
    {
        let mut s = String::new();
        let mut k: usize = self.indent;
        while k > 0
            invariant
                k <= self.indent,
                s@ + indent_text(k as nat) == indent_text(self.level()),
            decreases k,
        {
            s.append("    ");
            k = k - 1;
            proof {
                assert(s@ + indent_text(k as nat) =~= indent_text(self.level()));
            }
        }
        proof {
            assert(s@ =~= indent_text(self.level()));
        }
        s
    }

    /// A line break followed by the current indentation.
    pub fn newline(&self) -> (r: String)
        ensures
            r@ == newline_text(self.level()),
    {
        let mut s = String::from_str("\n");
        s.append(self.tabs().as_str());
        s
    }

    /// Start a fresh output line pre-indented to the current level.
    pub fn start_line(&mut self)
        ensures
            final(self).text() == old(self).text() + newline_text(old(self).level()),
            final(self).level() == old(self).level(),
    {
        let nl = self.newline();
        self.out.append(nl.as_str());
    }

    /// Continue the current line with the given text.
    pub fn write_str(&mut self, s: &str)
        ensures
            final(self).text() == old(self).text() + s@,
            final(self).level() == old(self).level(),
    {
        self.out.append(s);
    }

    /// Emit `num` consecutive blank lines with no indentation.
    pub fn empty_lines(&mut self, num: usize)
        ensures
            final(self).text() == old(self).text() + blank_lines_text(num as nat),
            final(self).level() == old(self).level(),
    {
        let mut k: usize = num;
        while k > 0
            invariant
                self.indent == old(self).indent,
                self.out@ + blank_lines_text(k as nat) == old(self).out@ + blank_lines_text(
                    num as nat,
                ),
            decreases k,
        {
            self.out.append("\n");
            k = k - 1;
            proof {
                assert(self.out@ + blank_lines_text(k as nat) =~= old(self).out@
                    + blank_lines_text(num as nat));
            }
        }
        proof {
            assert(self.out@ =~= self.out@ + blank_lines_text(0));
        }
    }
}

} // verus!
