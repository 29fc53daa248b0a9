use vstd::prelude::*;

verus! {

/// The solution history of a march: one column of node values per time
/// level, kept whole because every step reads all earlier columns.
///
/// Column 0 is the terminal payoff; column `k` holds the values after `k`
/// backward steps. Columns are only ever appended, never rewritten.
pub struct SolutionMatrix<T> {
    nodes: usize,
    columns: Vec<Vec<T>>,
}

impl<T: Copy> View for SolutionMatrix<T> {
    type V = Seq<Seq<T>>;

    closed spec fn view(&self) -> Seq<Seq<T>> {
        self.columns@.map_values(|c: Vec<T>| c@)
    }
}

impl<T: Copy> SolutionMatrix<T> {
    /// Number of spatial nodes in every column.
    pub closed spec fn node_count(&self) -> nat {
        self.nodes as nat
    }

    /// Every column has one value per node.
    pub closed spec fn wf(&self) -> bool {
        &&& self.columns@.len() >= 1
        &&& forall|j: int|
            0 <= j < self.columns@.len() ==> (#[trigger] self.columns@[j])@.len() == self.nodes
    }

    /// Starts a history from the terminal column.
    pub fn new(terminal: Vec<T>) -> (r: Self)
        ensures
            r.wf(),
            r.node_count() == terminal@.len(),
            r@ == seq![terminal@],
    {
        let nodes = terminal.len();
        let mut columns: Vec<Vec<T>> = Vec::new();
        columns.push(terminal);
        let r = SolutionMatrix { nodes, columns };
        assert(r@ =~= seq![r.columns@[0]@]);
        r
    }

    /// Appends the column of the next step: the lower boundary value, the
    /// values solved for at the interior nodes, and the upper boundary value.
    pub fn push_step(&mut self, low: T, interior: Vec<T>, high: T)
        requires
            old(self).wf(),
            interior@.len() + 2 == old(self).node_count(),
        ensures
            final(self).wf(),
            final(self).node_count() == old(self).node_count(),
            final(self)@ == old(self)@.push(seq![low] + interior@ + seq![high]),
    {
        let ghost before = self.columns@;
        let mut column: Vec<T> = Vec::with_capacity(self.nodes);
        column.push(low);
        let mut i: usize = 0;
        while i < interior.len()
            invariant
                i <= interior@.len(),
                column@ == seq![low] + interior@.subrange(0, i as int),
            decreases interior@.len() - i,
        {
            column.push(interior[i]);
            i = i + 1;
            assert(column@ =~= seq![low] + interior@.subrange(0, i as int));
        }
        column.push(high);
        assert(interior@.subrange(0, interior@.len() as int) =~= interior@);
        assert(column@ =~= seq![low] + interior@ + seq![high]);
        let ghost pushed = column@;
        self.columns.push(column);
        assert(self.columns@ == before.push(self.columns@.last()));
        assert(self@ =~= old(self)@.push(pushed));
    }

    /// Number of spatial nodes in every column.
    pub fn nodes(&self) -> (r: usize)
        ensures
            r == self.node_count(),
    {
        self.nodes
    }

    /// Number of columns written so far, the terminal one included.
    pub fn levels(&self) -> (r: usize)
        ensures
            r == self@.len(),
    {
        self.columns.len()
    }

    /// The value at `node` in column `level`.
    pub fn get(&self, node: usize, level: usize) -> (r: T)
        requires
            self.wf(),
            node < self.node_count(),
            level < self@.len(),
        ensures
            r == self@[level as int][node as int],
    {
        let column = &self.columns[level];
        assert(column@.len() == self.nodes);
        column[node]
    }

    /// A copy of the most recent column: the values at the valuation date
    /// once the march is complete.
    pub fn last_column(&self) -> (r: Vec<T>)
        requires
            self.wf(),
        ensures
            r@ == self@.last(),
    {
        let column = &self.columns[self.columns.len() - 1];
        let mut out: Vec<T> = Vec::with_capacity(column.len());
        let mut i: usize = 0;
        while i < column.len()
            invariant
                i <= column@.len(),
                out@ == column@.subrange(0, i as int),
            decreases column@.len() - i,
        {
            out.push(column[i]);
            i = i + 1;
            assert(out@ =~= column@.subrange(0, i as int));
        }
        assert(column@.subrange(0, column@.len() as int) =~= column@);
        out
    }
}

} // verus!
