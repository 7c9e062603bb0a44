use vstd::prelude::*;

verus! {

/// Default number of lines the trace keeps.
pub const DEFAULT_TRACE_SIZE: usize = 1024;

/// The last `limit` lines of `lines`.
pub open spec fn keep_last(lines: Seq<Seq<char>>, limit: int) -> Seq<Seq<char>> {
    if lines.len() > limit {
        lines.subrange(lines.len() - limit, lines.len() as int)
    } else {
        lines
    }
}

/// A bounded log of text lines: once full, each new line evicts the oldest.
pub struct TraceLog {
    lines: Vec<String>,
    limit: usize,
    enabled: bool,
}

/// What a trace log holds: its lines, oldest first, its capacity, and whether
/// it records.
pub struct TraceView {
    pub lines: Seq<Seq<char>>,
    pub limit: int,
    pub enabled: bool,
}

impl View for TraceLog {
    type V = TraceView;

    closed spec fn view(&self) -> TraceView {
        TraceView {
            lines: self.lines@.map_values(|l: String| l@),
            limit: self.limit as int,
            enabled: self.enabled,
        }
    }
}

impl TraceLog {
    pub closed spec fn wf(&self) -> bool {
        self.lines@.len() <= self.limit
    }

    /// An empty log of capacity `limit` that does not record yet.
    pub fn new(limit: usize) -> (r: Self)
        ensures
            r.wf(),
            r@ == (TraceView { lines: Seq::empty(), limit: limit as int, enabled: false }),
    {
        let r = TraceLog { lines: Vec::new(), limit, enabled: false };
        assert(r@.lines =~= Seq::<Seq<char>>::empty());
        r
    }

    pub fn is_enabled(&self) -> (r: bool)
        ensures
            r == self@.enabled,
    {
        self.enabled
    }

    pub fn set_enabled(&mut self, enabled: bool)
        requires
            old(self).wf(),
        ensures
            final(self).wf(),
            final(self)@ == (TraceView { enabled, ..old(self)@ }),
    {
        self.enabled = enabled;
    }

    /// The lines, oldest first.
    pub fn lines(&self) -> (r: &Vec<String>)
        ensures
            r@.map_values(|l: String| l@) == self@.lines,
    {
        &self.lines
    }

    pub fn len(&self) -> (r: usize)
        ensures
            r == self@.lines.len(),
    {
        self.lines.len()
    }

    /// Drops the oldest lines until at most `limit` are left.
    fn evict(&mut self)
        ensures
            final(self).wf(),
            final(self)@ == (TraceView {
                lines: keep_last(old(self)@.lines, old(self)@.limit),
                ..old(self)@
            }),
    {
        let ghost start = self@.lines;
        while self.lines.len() > self.limit
            invariant
                self.limit == old(self).limit,
                self.enabled == old(self).enabled,
                start == old(self)@.lines,
                self@.lines.len() <= start.len(),
                self@.lines == start.subrange(start.len() - self@.lines.len(), start.len() as int),
                self@.lines.len() >= self.limit || self@.lines == start,
            decreases self.lines.len(),
        {
            let ghost before = self.lines@;
            let ghost before_view = self@.lines;
            self.lines.remove(0);
            assert(self.lines@ =~= before.subrange(1, before.len() as int));
            assert(self@.lines =~= before_view.subrange(1, before_view.len() as int));
            assert(self@.lines =~= start.subrange(
                start.len() - self@.lines.len(),
                start.len() as int,
            ));
        }
        proof {
            if start.len() <= self.limit {
                assert(start.subrange(0, start.len() as int) =~= start);
            }
        }
        assert(self@.lines =~= keep_last(start, self@.limit));
    }

    /// Appends a line, evicting the oldest one when the log is full.
    pub fn record(&mut self, line: String)
        requires
            old(self).wf(),
        ensures
            final(self).wf(),
            final(self)@ == (TraceView {
                lines: keep_last(old(self)@.lines.push(line@), old(self)@.limit),
                ..old(self)@
            }),
    {
        let ghost before = self.lines@;
        self.lines.push(line);
        assert(self@.lines =~= old(self)@.lines.push(line@));
        self.evict();
    }

    /// Sets the capacity, evicting the oldest lines that no longer fit.
    pub fn resize(&mut self, limit: usize)
        requires
            old(self).wf(),
        ensures
            final(self).wf(),
            final(self)@ == (TraceView {
                lines: keep_last(old(self)@.lines, limit as int),
                limit: limit as int,
                ..old(self)@
            }),
    {
        self.limit = limit;
        self.evict();
    }

    /// Drops every line.
    pub fn clear(&mut self)
        requires
            old(self).wf(),
        ensures
            final(self).wf(),
            final(self)@ == (TraceView { lines: Seq::empty(), ..old(self)@ }),
    {
        self.lines.clear();
        assert(self@.lines =~= Seq::<Seq<char>>::empty());
    }
}

} // verus!
