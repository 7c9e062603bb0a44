use vstd::prelude::*;

use crate::debug::{DebugToken, TraceFormatter};

verus! {

/// A trace writer that renders each record as one line for the console.
pub struct StubDebugWriter {
    formatter: TraceFormatter,
}

impl StubDebugWriter {
    pub closed spec fn formatter(&self) -> TraceFormatter {
        self.formatter
    }

    pub fn new() -> (r: Self)
        ensures
            r.formatter().spec_instr_width() == 50,
            r.formatter().spec_value_width() == 9,
    {
        Self { formatter: TraceFormatter::new() }
    }

    /// The console line for one record.
    pub fn write(&self, tokens: &Vec<DebugToken>) -> (r: String)
        ensures
            r@ == self.formatter().line(tokens@),
    {
        self.formatter.format(tokens)
    }
}

} // verus!
