//! Newline-delimited JSON framing: one compact JSON document per line.
use vstd::prelude::*;

verus! {

pub open spec fn has_newline(s: Seq<char>) -> bool {
    exists|i: int| 0 <= i < s.len() && s[i] == '\n'
}

/// Frames records as NDJSON lines and counts them.
#[derive(Debug)]
pub struct NdjsonWriter {
    lines: u64,
}

impl NdjsonWriter {
    /// A writer that has framed no line yet.
    pub fn new() -> (w: Self)
        ensures
            w.lines_spec() == 0,
    {
        NdjsonWriter { lines: 0 }
    }

    pub closed spec fn lines_spec(&self) -> nat {
        self.lines as nat
    }

    /// How many lines have been framed.
    pub fn lines(&self) -> (r: u64)
        ensures
            r as nat == self.lines_spec(),
    {
        self.lines
    }

    /// The line for one compact JSON document: the document and a newline.
    /// A document that holds a newline cannot stand on one line and is
    /// refused (`None`). The count of lines grows by one for each line
    /// framed, and stays at `u64::MAX` once it gets there.
    pub fn write(&mut self, json: &str) -> (r: Option<String>)
        ensures
            has_newline(json@) ==> r is None && final(self).lines_spec() == old(self).lines_spec(),
            !has_newline(json@) ==> (r matches Some(line) && line@ == json@.push('\n')),
            !has_newline(json@) ==> final(self).lines_spec() == if old(self).lines_spec()
                < u64::MAX {
                old(self).lines_spec() + 1
            } else {
                old(self).lines_spec()
            },
    {
        let n = json.unicode_len();
        let mut i: usize = 0;
        while i < n
            invariant
                n == json@.len(),
                i <= n,
                forall|j: int| 0 <= j < i ==> json@[j] != '\n',
            decreases n - i,
        {
            if json.get_char(i) == '\n' {
                return None;
            }
            i = i + 1;
        }
        if self.lines < u64::MAX {
            self.lines = self.lines + 1;
        }
        let mut line = String::from_str(json);
        line.append("\n");
        proof {
            reveal_strlit("\n");
            assert(line@ =~= json@.push('\n'));
        }
        Some(line)
    }
}

impl Default for NdjsonWriter {
    fn default() -> (w: Self)
        ensures
            w.lines_spec() == 0,
    {
        NdjsonWriter::new()
    }
}

} // verus!
