use vstd::prelude::*;

verus! {

/// Directed adjacency over city indices: `connect(a, b)` opens the way from
/// `a` to `b` only. A map that can be travelled both ways holds both edges.
#[derive(Debug)]
pub struct Graph {
    graph: Vec<Vec<bool>>,
}

impl Graph {
    /// Number of nodes.
    pub closed spec fn size(self) -> nat {
        self.graph@.len()
    }

    /// The matrix is square.
    #[verifier::type_invariant]
    closed spec fn square(self) -> bool {
        forall|i: int| 0 <= i < self.graph@.len() ==> (#[trigger] self.graph@[i])@.len() == self.graph@.len()
    }

    /// Whether the edge from `v1` to `v2` is there.
    pub closed spec fn edge(self, v1: int, v2: int) -> bool {
        0 <= v1 < self.graph@.len() && 0 <= v2 < self.graph@[v1]@.len() && self.graph@[v1]@[v2]
    }

    /// A graph of `sz` nodes and no edge.
    pub fn new(sz: usize) -> (g: Self)
        ensures
            g.size() == sz,
            forall|a: int, b: int| !g.edge(a, b),
    {
        let mut graph: Vec<Vec<bool>> = Vec::new();
        let mut i: usize = 0;
        while i < sz
            invariant
                i <= sz,
                graph@.len() == i,
                forall|k: int| 0 <= k < i ==> (#[trigger] graph@[k])@.len() == sz,
                forall|k: int, l: int| 0 <= k < i && 0 <= l < sz ==> !(#[trigger] graph@[k]@[l]),
            decreases sz - i,
        {
            let mut row: Vec<bool> = Vec::new();
            let mut j: usize = 0;
            while j < sz
                invariant
                    j <= sz,
                    row@.len() == j,
                    forall|l: int| 0 <= l < j ==> !(#[trigger] row@[l]),
                decreases sz - j,
            {
                row.push(false);
                j = j + 1;
            }
            graph.push(row);
            i = i + 1;
        }
        Graph { graph }
    }

    /// Number of nodes.
    pub fn len(&self) -> (n: usize)
        ensures
            n == self.size(),
    {
        self.graph.len()
    }

    /// Opens the way from `v1` to `v2`; every other edge stays as it was.
    pub fn connect(&mut self, v1: usize, v2: usize)
        requires
            v1 < old(self).size(),
            v2 < old(self).size(),
        ensures
            final(self).size() == old(self).size(),
            forall|a: int, b: int|
                final(self).edge(a, b) == ((a == v1 && b == v2) || old(self).edge(a, b)),
    {
        proof {
            use_type_invariant(&*self);
        }
        let mut matrix: Vec<Vec<bool>> = Vec::new();
        std::mem::swap(&mut matrix, &mut self.graph);
        matrix[v1][v2] = true;
        self.graph = matrix;
    }

    pub fn connected(&self, v1: usize, v2: usize) -> (yes: bool)
        requires
            v1 < self.size(),
            v2 < self.size(),
        ensures
            yes == self.edge(v1 as int, v2 as int),
    {
        proof {
            use_type_invariant(self);
        }
        self.graph[v1][v2]
    }
}

impl Default for Graph {
    fn default() -> (g: Self)
        ensures
            g.size() == 0,
            forall|a: int, b: int| !g.edge(a, b),
    {
        Graph { graph: Vec::new() }
    }
}

} // verus!
