//! The fan-in sink.
//!
//! All extraction tasks forward their statements into one sink, the single
//! consumer.  For each accepted statement the sink appends its line form
//! to the output; it keeps no cross-statement state beyond that output
//! cursor.  Statements from one producer keep that producer's order;
//! statements from different producers may interleave arbitrarily, which
//! is harmless because the facts are order-independent.

use vstd::prelude::*;
use crate::encode::{enc_statement, encode_statement};
use crate::error::{ErrorV, PipelineError};
use crate::statement::{Statement, StatementV};

verus! {

/// The lines written for a sequence of statements, in order.
pub open spec fn enc_lines(stmts: Seq<StatementV>) -> Seq<Seq<char>> {
    stmts.map_values(|s: StatementV| enc_statement(s))
}

/// The single consumer of all extracted statements: serializes each to
/// one line and appends it to the output, exactly once, in arrival
/// order.
pub struct Sink {
    /// The output stream written so far, one line per statement.
    lines: Vec<String>,
    /// Whether the sink still accepts statements.
    open: bool,
}

impl Sink {
    /// The lines written so far.
    pub closed spec fn lines_view(&self) -> Seq<Seq<char>> {
        self.lines.deep_view()
    }

    /// Whether the sink still accepts statements.
    pub closed spec fn is_open_view(&self) -> bool {
        self.open
    }

    /// A fresh sink over an empty output.
    pub fn new() -> (s: Sink)
        ensures
            s.lines_view() == Seq::<Seq<char>>::empty(),
            s.is_open_view(),
    {
        let s = Sink { lines: Vec::new(), open: true };
        proof {
            assert(s.lines_view() =~= Seq::<Seq<char>>::empty());
        }
        s
    }

    /// Whether the sink still accepts statements.
    pub fn is_open(&self) -> (r: bool)
        ensures
            r == self.is_open_view(),
    {
        self.open
    }

    /// Accepts one statement: serializes it and appends its line, or
    /// reports the sink closed and leaves the output untouched.
    pub fn accept(&mut self, s: &Statement) -> (r: Result<(), PipelineError>)
        ensures
            old(self).is_open_view() ==> r.is_ok() && final(self).lines_view()
                == old(self).lines_view().push(enc_statement(s.deep_view())),
            !old(self).is_open_view() ==> r.is_err()
                && r->Err_0.deep_view() == ErrorV::SinkClosed
                && final(self).lines_view() == old(self).lines_view(),
            final(self).is_open_view() == old(self).is_open_view(),
    {
        if !self.open {
            return Err(PipelineError::SinkClosed);
        }
        let line = encode_statement(s);
        self.lines.push(line);
        proof {
            assert(self.lines_view()
                =~= old(self).lines_view().push(enc_statement(s.deep_view())));
        }
        Ok(())
    }

    /// Accepts a batch of statements in order: either the sink is open
    /// and every line is appended, or it is closed and none is.
    pub fn accept_all(&mut self, stmts: &Vec<Statement>) -> (r: Result<(), PipelineError>)
        ensures
            old(self).is_open_view() ==> r.is_ok() && final(self).lines_view()
                == old(self).lines_view() + enc_lines(stmts.deep_view()),
            !old(self).is_open_view() ==> r.is_err()
                && r->Err_0.deep_view() == ErrorV::SinkClosed
                && final(self).lines_view() == old(self).lines_view(),
            final(self).is_open_view() == old(self).is_open_view(),
    {
        if !self.open {
            return Err(PipelineError::SinkClosed);
        }
        let n = stmts.len();
        let mut i: usize = 0;
        while i < n
            invariant
                n == stmts.len(),
                i <= n,
                self.is_open_view(),
                self.lines_view() == old(self).lines_view()
                    + enc_lines(stmts.deep_view().take(i as int)),
            decreases n - i,
        {
            let ghost pre = self.lines_view();
            match self.accept(&stmts[i]) {
                Ok(()) => {}
                Err(e) => {
                    proof {
                        assert(false);
                    }
                    return Err(e);
                }
            }
            proof {
                assert(self.lines_view() =~= old(self).lines_view()
                    + enc_lines(stmts.deep_view().take(i + 1 as int)));
            }
            i = i + 1;
        }
        proof {
            assert(stmts.deep_view().take(n as int) =~= stmts.deep_view());
        }
        Ok(())
    }

    /// Closes the sink: later statements are refused, the output stands.
    pub fn close(&mut self)
        ensures
            !final(self).is_open_view(),
            final(self).lines_view() == old(self).lines_view(),
    {
        self.open = false;
    }

    /// The output written so far.
    pub fn lines(&self) -> (r: &Vec<String>)
        ensures
            r.deep_view() == self.lines_view(),
    {
        &self.lines
    }

    /// How many lines have been written.
    pub fn line_count(&self) -> (r: usize)
        ensures
            r == self.lines_view().len(),
    {
        self.lines.len()
    }
}

} // verus!
