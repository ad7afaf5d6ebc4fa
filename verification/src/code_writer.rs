//! Writing generated code line by line, with the indentation of nested blocks.

use vstd::prelude::*;
use vstd::string::StringExecFns;
use crate::text::{cat, cat3, push_char};

verus! {

/// A line of generated code: a line without text is only a line break; any
/// other line starts with the indentation.
#[verifier::opaque]
pub open spec fn line_text(ind: Seq<char>, line: Seq<char>) -> Seq<char> {
    if line.len() == 0 {
        seq!['\n']
    } else {
        ind + line + seq!['\n']
    }
}

/// A line without text.
pub open spec fn empty_line() -> Seq<char> {
    seq!['\n']
}

/// The indentation inside a block: four more spaces.
pub open spec fn nested(ind: Seq<char>) -> Seq<char> {
    ind + "    "@
}

/// A block: its first line, its body (indented further), and its last line.
pub open spec fn block_text(ind: Seq<char>, first: Seq<char>, body: Seq<char>, last: Seq<char>) -> Seq<char> {
    line_text(ind, first) + body + line_text(ind, last)
}

/// A block that opens with `prefix {` and closes with `}`.
pub open spec fn expr_block_text(ind: Seq<char>, prefix: Seq<char>, body: Seq<char>) -> Seq<char> {
    block_text(ind, prefix + " {"@, body, "}"@)
}

/// A line that gives the field `name` the value `value`.
pub open spec fn field_entry_text(ind: Seq<char>, name: Seq<char>, value: Seq<char>) -> Seq<char> {
    line_text(ind, name + ": "@ + value + ","@)
}

/// The lines that open every generated file.
pub open spec fn generated_header_text(ind: Seq<char>) -> Seq<char> {
    line_text(ind, "// This file is generated. Do not edit"@)
        + line_text(ind, "// @generated"@)
        + empty_line()
        + line_text(ind, "// "@ + "https://github.com/Manishearth/rust-clippy/issues/702"@)
        + line_text(ind, "#![allow(unknown_lints)]"@)
        + line_text(ind, "#![allow(clippy)]"@)
        + empty_line()
        + line_text(ind, "#![cfg_attr(rustfmt, rustfmt_skip)]"@)
        + empty_line()
        + line_text(ind, "#![allow(box_pointers)]"@)
        + line_text(ind, "#![allow(dead_code)]"@)
        + line_text(ind, "#![allow(missing_docs)]"@)
        + line_text(ind, "#![allow(non_camel_case_types)]"@)
        + line_text(ind, "#![allow(non_snake_case)]"@)
        + line_text(ind, "#![allow(non_upper_case_globals)]"@)
        + line_text(ind, "#![allow(trivial_casts)]"@)
        + line_text(ind, "#![allow(unsafe_code)]"@)
        + line_text(ind, "#![allow(unused_imports)]"@)
        + line_text(ind, "#![allow(unused_results)]"@)
}

/// Generated code, written line by line.
pub struct CodeWriter {
    /// The code written so far.
    pub out: String,
    /// The indentation of the next line.
    pub indent: String,
}

impl CodeWriter {
    /// A writer with nothing written, at no indentation.
    pub fn new() -> (w: CodeWriter)
        ensures
            w.out@ == Seq::<char>::empty(),
            w.indent@ == Seq::<char>::empty(),
    {
        CodeWriter { out: String::new(), indent: String::new() }
    }

    /// Writes the line `line`.
    pub fn write_line(&mut self, line: &str)
        ensures
            final(self).out@ == old(self).out@ + line_text(old(self).indent@, line@),
            final(self).indent@ == old(self).indent@,
    {
        reveal(line_text);
        if line.is_empty() {
            push_char(&mut self.out, '\n');
        } else {
            self.out.append(self.indent.as_str());
            self.out.append(line);
            push_char(&mut self.out, '\n');
            assert(self.out@ =~= old(self).out@ + line_text(old(self).indent@, line@));
        }
    }

    /// Writes a line without text.
    pub fn write_empty_line(&mut self)
        ensures
            final(self).out@ == old(self).out@ + empty_line(),
            final(self).indent@ == old(self).indent@,
    {
        push_char(&mut self.out, '\n');
    }

    /// Writes the first line of a block and indents what follows; gives back
    /// the indentation to go back to.
    pub fn begin_block(&mut self, first_line: &str) -> (outer: String)
        ensures
            outer@ == old(self).indent@,
            final(self).out@ == old(self).out@ + line_text(old(self).indent@, first_line@),
            final(self).indent@ == nested(old(self).indent@),
    {
        self.write_line(first_line);
        let outer = self.indent.clone();
        self.indent.append("    ");
        outer
    }

    /// Goes back to the indentation `outer` and writes the last line of a block.
    pub fn end_block(&mut self, outer: String, last_line: &str)
        ensures
            final(self).out@ == old(self).out@ + line_text(outer@, last_line@),
            final(self).indent@ == outer@,
    {
        self.indent = outer;
        self.write_line(last_line);
    }

    /// Opens a block with the line `prefix {`.
    pub fn begin_expr_block(&mut self, prefix: &str) -> (outer: String)
        ensures
            outer@ == old(self).indent@,
            final(self).out@ == old(self).out@ + line_text(old(self).indent@, prefix@ + " {"@),
            final(self).indent@ == nested(old(self).indent@),
    {
        let first = cat(prefix, " {");
        self.begin_block(first.as_str())
    }

    /// Closes a block with the line `}`.
    pub fn end_expr_block(&mut self, outer: String)
        ensures
            final(self).out@ == old(self).out@ + line_text(outer@, "}"@),
            final(self).indent@ == outer@,
    {
        self.end_block(outer, "}");
    }

    /// Writes a line that gives the field `name` the value `value`.
    pub fn field_entry(&mut self, name: &str, value: &str)
        ensures
            final(self).out@ == old(self).out@ + field_entry_text(old(self).indent@, name@, value@),
            final(self).indent@ == old(self).indent@,
    {
        let mut l = cat3(name, ": ", value);
        l.append(",");
        self.write_line(l.as_str());
    }

    /// Writes the comment `text` as a line.
    pub fn comment(&mut self, text: &str)
        ensures
            final(self).out@ == old(self).out@ + (if text@.len() == 0 {
                line_text(old(self).indent@, "//"@)
            } else {
                line_text(old(self).indent@, "// "@ + text@)
            }),
            final(self).indent@ == old(self).indent@,
    {
        if text.is_empty() {
            self.write_line("//");
        } else {
            let l = cat("// ", text);
            self.write_line(l.as_str());
        }
    }

    /// Writes the lines that open every generated file.
    pub fn write_generated(&mut self)
        ensures
            final(self).out@ == old(self).out@ + generated_header_text(old(self).indent@),
            final(self).indent@ == old(self).indent@,
    {
        proof { reveal_strlit("https://github.com/Manishearth/rust-clippy/issues/702"); }
        self.write_line("// This file is generated. Do not edit");
        self.write_line("// @generated");
        self.write_empty_line();
        self.comment("https://github.com/Manishearth/rust-clippy/issues/702");
        self.write_line("#![allow(unknown_lints)]");
        self.write_line("#![allow(clippy)]");
        self.write_empty_line();
        self.write_line("#![cfg_attr(rustfmt, rustfmt_skip)]");
        self.write_empty_line();
        self.write_line("#![allow(box_pointers)]");
        self.write_line("#![allow(dead_code)]");
        self.write_line("#![allow(missing_docs)]");
        self.write_line("#![allow(non_camel_case_types)]");
        self.write_line("#![allow(non_snake_case)]");
        self.write_line("#![allow(non_upper_case_globals)]");
        self.write_line("#![allow(trivial_casts)]");
        self.write_line("#![allow(unsafe_code)]");
        self.write_line("#![allow(unused_imports)]");
        self.write_line("#![allow(unused_results)]");
        assert(self.out@ =~= old(self).out@ + generated_header_text(old(self).indent@));
    }
}

} // verus!
