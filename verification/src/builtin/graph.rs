//! The build graph: named nodes, dependency edges between them, and the
//! schedule that visits every node once when the graph is executed.
//!
//! The graph itself is a `petgraph` directed graph whose nodes carry no
//! weight; node `i` is the `i`-th node added. What a node does when it runs
//! is kept by the caller, indexed by the node's number.

use vstd::prelude::*;
use crate::registry::Builtin;
use vstd::string::*;
use petgraph::graph::Graph;
use petgraph::Directed;

verus! {

#[verifier::external_type_specification]
#[verifier::external_body]
#[verifier::reject_recursive_types(N)]
#[verifier::reject_recursive_types(E)]
#[verifier::reject_recursive_types(Ty)]
#[verifier::reject_recursive_types(Ix)]
pub struct ExGraph<N, E, Ty, Ix>(Graph<N, E, Ty, Ix>);

#[verifier::external_type_specification]
#[verifier::external_body]
pub struct ExDirected(Directed);

/// How many nodes a petgraph graph holds.
pub uninterp spec fn graph_node_count(g: Graph<(), (), Directed, u32>) -> nat;

/// The edges of a petgraph graph, as (source, target) node numbers in the
/// order in which they were added.
pub uninterp spec fn graph_edges(g: Graph<(), (), Directed, u32>) -> Seq<(usize, usize)>;

/// The targets of the edges that leave `a`, in the order of addition.
pub open spec fn targets_from(edges: Seq<(usize, usize)>, a: usize) -> Seq<usize>
    decreases edges.len(),
{
    if edges.len() == 0 {
        seq![]
    } else {
        let rest = targets_from(edges.drop_last(), a);
        if edges.last().0 == a {
            rest.push(edges.last().1)
        } else {
            rest
        }
    }
}

/// `v` occurs in `order`.
pub open spec fn occurs(order: Seq<usize>, v: usize) -> bool {
    exists|i: int| 0 <= i < order.len() && order[i] == v
}

/// `order` lists every node number below `n` exactly once.
pub open spec fn is_node_permutation(n: nat, order: Seq<usize>) -> bool {
    &&& order.len() == n
    &&& forall|i: int| 0 <= i < n ==> order[i] < n
    &&& forall|i: int, j: int| 0 <= i < j < n ==> order[i] != order[j]
    &&& forall|v: usize| v < n ==> #[trigger] occurs(order, v)
}

/// The source of edge `e` comes before its target in `order`.
pub open spec fn edge_forward(order: Seq<usize>, e: (usize, usize)) -> bool {
    exists|i: int, j: int|
        #![trigger order[i], order[j]]
        0 <= i < j < order.len() && order[i] == e.0 && order[j] == e.1
}

/// `order` is a topological order of the graph: a permutation of its nodes
/// in which the source of every edge comes before its target.
pub open spec fn is_topological_order(n: nat, edges: Seq<(usize, usize)>, order: Seq<usize>) -> bool {
    &&& is_node_permutation(n, order)
    &&& forall|k: int| 0 <= k < edges.len() ==> edge_forward(order, #[trigger] edges[k])
}

/// A graph is acyclic when it has a topological order.
pub open spec fn is_acyclic(n: nat, edges: Seq<(usize, usize)>) -> bool {
    exists|order: Seq<usize>| is_topological_order(n, edges, order)
}

/// `Graph::new`: a graph with no nodes and no edges.
#[verifier::external_body]
fn graph_new() -> (g: Graph<(), (), Directed, u32>)
    ensures
        graph_node_count(g) == 0,
        graph_edges(g) == Seq::<(usize, usize)>::empty(),
{
    Graph::new()
}

/// `Graph::add_node`: the new node gets the next number; the edges stay.
/// It panics when the node count reaches `u32::MAX`, hence the bound.
#[verifier::external_body]
fn graph_add_node(g: &mut Graph<(), (), Directed, u32>) -> (i: usize)
    requires
        graph_node_count(*old(g)) < u32::MAX,
    ensures
        i == graph_node_count(*old(g)),
        graph_node_count(*final(g)) == graph_node_count(*old(g)) + 1,
        graph_edges(*final(g)) == graph_edges(*old(g)),
{
    g.add_node(()).index()
}

/// `Graph::add_edge`: appends the edge `a -> b` (parallel edges allowed).
/// It panics when a node does not exist or the edge count reaches
/// `u32::MAX`, hence the bounds.
#[verifier::external_body]
fn graph_add_edge(g: &mut Graph<(), (), Directed, u32>, a: usize, b: usize)
    requires
        a < graph_node_count(*old(g)),
        b < graph_node_count(*old(g)),
        graph_edges(*old(g)).len() < u32::MAX,
    ensures
        graph_node_count(*final(g)) == graph_node_count(*old(g)),
        graph_edges(*final(g)) == graph_edges(*old(g)).push((a, b)),
{
    g.add_edge(petgraph::graph::NodeIndex::new(a), petgraph::graph::NodeIndex::new(b), ());
}

/// `Graph::neighbors` of a directed graph: the targets of the edges leaving
/// `a`, the most recently added edge first.
#[verifier::external_body]
fn graph_neighbors(g: &Graph<(), (), Directed, u32>, a: usize) -> (res: Vec<usize>)
    requires
        a < graph_node_count(*g),
    ensures
        res@ == targets_from(graph_edges(*g), a).reverse(),
{
    g.neighbors(petgraph::graph::NodeIndex::new(a)).map(|n| n.index()).collect()
}

/// `petgraph::algo::toposort`: a topological order of all nodes, or an
/// error (carrying a node number) when the graph has a cycle. Which of the
/// topological orders comes back is not stated.
#[verifier::external_body]
fn graph_toposort(g: &Graph<(), (), Directed, u32>) -> (res: Result<Vec<usize>, usize>)
    ensures
        res matches Ok(order) ==> is_topological_order(graph_node_count(*g), graph_edges(*g), order@),
        res is Err ==> !is_acyclic(graph_node_count(*g), graph_edges(*g)),
{
    petgraph::algo::toposort(g, None).map(|v| v.iter().map(|n| n.index()).collect()).map_err(
        |c| c.node_id().index(),
    )
}

/// The node that carries `name`: the most recently added node of that name,
/// as a later node with a name takes the name over.
pub open spec fn spec_lookup(names: Seq<Seq<char>>, name: Seq<char>) -> Option<nat>
    decreases names.len(),
{
    if names.len() == 0 {
        None
    } else if names.last() == name {
        Some((names.len() - 1) as nat)
    } else {
        spec_lookup(names.drop_last(), name)
    }
}

/// Errors of the build graph.
#[derive(Debug)]
pub enum GraphError {
    /// No node carries the name.
    NodeNotFound { name: String },
    /// The graph has a cycle, so it has no order to run in.
    Cycle,
}

/// The message of a missing node.
pub open spec fn node_not_found_message(name: Seq<char>) -> Seq<char> {
    "Node '"@ + name + "' not found"@
}

impl GraphError {
    /// The message that accompanies the error.
    pub fn message(&self) -> (res: String)
        ensures
            res@ == (match self {
                GraphError::NodeNotFound { name } => node_not_found_message(name@),
                GraphError::Cycle => "the build graph has a cycle"@,
            }),
    {
        match self {
            GraphError::NodeNotFound { name } => {
                let mut res = "Node '".to_owned();
                res.append(name.as_str());
                res.append("' not found");
                res
            },
            GraphError::Cycle => "the build graph has a cycle".to_owned(),
        }
    }
}

/// The abstract build graph: the name of each node (node `i` is the `i`-th
/// added) and the dependency edges in the order they were added.
pub struct GraphModel {
    pub names: Seq<Seq<char>>,
    pub edges: Seq<(usize, usize)>,
}

/// Nodes with names, and dependency edges between them.
pub struct BuildGraph {
    graph: Graph<(), (), Directed, u32>,
    names: Vec<String>,
}

impl View for BuildGraph {
    type V = GraphModel;

    closed spec fn view(&self) -> GraphModel {
        GraphModel { names: self.names.deep_view(), edges: graph_edges(self.graph) }
    }
}

impl BuildGraph {
    /// The petgraph graph has one node per name and every edge joins
    /// existing nodes.
    pub closed spec fn wf(&self) -> bool {
        &&& graph_node_count(self.graph) == self.names.len()
        &&& forall|k: int|
            0 <= k < graph_edges(self.graph).len() ==> (#[trigger] graph_edges(self.graph)[k]).0
                < self.names.len() && graph_edges(self.graph)[k].1 < self.names.len()
    }

    /// An empty graph.
    pub fn new() -> (g: BuildGraph)
        ensures
            g.wf(),
            g@.names == Seq::<Seq<char>>::empty(),
            g@.edges == Seq::<(usize, usize)>::empty(),
    {
        let g = BuildGraph { graph: graph_new(), names: Vec::new() };
        assert(g.names.deep_view() =~= Seq::<Seq<char>>::empty());
        g
    }

    /// The number of nodes.
    pub fn len(&self) -> (n: usize)
        requires
            self.wf(),
        ensures
            n == self@.names.len(),
    {
        self.names.len()
    }

    /// Adds a node named `name` and returns its number. The node takes the
    /// name over from any earlier node of the same name.
    pub fn add_node(&mut self, name: String) -> (i: usize)
        requires
            old(self).wf(),
            old(self)@.names.len() < u32::MAX,
        ensures
            final(self).wf(),
            i == old(self)@.names.len(),
            final(self)@.names == old(self)@.names.push(name@),
            final(self)@.edges == old(self)@.edges,
            spec_lookup(final(self)@.names, name@) == Some(i as nat),
    {
        let ghost before = self.names.deep_view();
        let i = graph_add_node(&mut self.graph);
        self.names.push(name);
        assert(self.names.deep_view() =~= before.push(self.names[i as int]@));
        i
    }

    /// The node that carries `name`.
    pub fn node_index(&self, name: &String) -> (res: Result<usize, GraphError>)
        requires
            self.wf(),
        ensures
            match spec_lookup(self@.names, name@) {
                Some(i) => res == Ok::<usize, GraphError>(i as usize),
                None => res matches Err(GraphError::NodeNotFound { name: n }) && n@ == name@,
            },
    {
        let mut i = self.names.len();
        assert(self@.names.subrange(0, i as int) =~= self@.names);
        while i > 0
            invariant
                i <= self.names.len(),
                spec_lookup(self@.names, name@) == spec_lookup(self@.names.subrange(0, i as int), name@),
            decreases i,
        {
            let ghost pre = self@.names.subrange(0, i as int);
            assert(pre.drop_last() =~= self@.names.subrange(0, i - 1));
            assert(pre.last() == self.names[i - 1]@);
            if self.names[i - 1] == *name {
                return Ok(i - 1);
            }
            i = i - 1;
        }
        Err(GraphError::NodeNotFound { name: name.clone() })
    }

    /// Makes `b` depend on `a`: adds the edge from the node named `a` to the
    /// node named `b`. Fails, changing nothing, when a name is unknown
    /// (`a` is looked up first).
    pub fn add_dependency(&mut self, a: &String, b: &String) -> (res: Result<(), GraphError>)
        requires
            old(self).wf(),
            old(self)@.edges.len() < u32::MAX,
        ensures
            final(self).wf(),
            final(self)@.names == old(self)@.names,
            match (spec_lookup(old(self)@.names, a@), spec_lookup(old(self)@.names, b@)) {
                (Some(ia), Some(ib)) => res is Ok && final(self)@.edges == old(self)@.edges.push(
                    (ia as usize, ib as usize),
                ),
                (None, _) => final(self)@.edges == old(self)@.edges && (res matches Err(
                    GraphError::NodeNotFound { name: n },
                ) && n@ == a@),
                (Some(_), None) => final(self)@.edges == old(self)@.edges && (res matches Err(
                    GraphError::NodeNotFound { name: n },
                ) && n@ == b@),
            },
    {
        proof {
            lemma_lookup_in_range(self@.names, a@);
            lemma_lookup_in_range(self@.names, b@);
        }
        let ia = match self.node_index(a) {
            Ok(i) => i,
            Err(e) => return Err(e),
        };
        let ib = match self.node_index(b) {
            Ok(i) => i,
            Err(e) => return Err(e),
        };
        graph_add_edge(&mut self.graph, ia, ib);
        Ok(())
    }

    /// Starts a run over the graph: fails when the graph has a cycle,
    /// otherwise every node is still to be visited.
    pub fn exec(&self) -> (res: Result<UpdateRun, GraphError>)
        requires
            self.wf(),
        ensures
            res is Err <==> !is_acyclic(self@.names.len(), self@.edges),
            res matches Err(e) ==> e is Cycle,
            res matches Ok(run) ==> run.wf() && run.node_count() == self@.names.len()
                && run.stack() == Seq::<usize>::empty() && run.position() == 0
                && is_topological_order(self@.names.len(), self@.edges, run.order())
                && forall|v: int| 0 <= v < self@.names.len() ==> !run.visited()[v]
                && count_visited(run.visited()) == 0,
    {
        match graph_toposort(&self.graph) {
            Ok(order) => {
                let n = self.names.len();
                let mut visited: Vec<bool> = Vec::new();
                let mut k: usize = 0;
                while k < n
                    invariant
                        k <= n,
                        visited.len() == k,
                        forall|v: int| 0 <= v < k ==> !visited[v],
                    decreases n - k,
                {
                    visited.push(false);
                    k = k + 1;
                }
                proof {
                    lemma_count_bounds(visited@);
                }
                let run = UpdateRun { order, next: 0, stack: Vec::new(), visited };
                Ok(run)
            },
            Err(_) => Err(GraphError::Cycle),
        }
    }
}

/// A found name belongs to an existing node.
pub proof fn lemma_lookup_in_range(names: Seq<Seq<char>>, name: Seq<char>)
    ensures
        spec_lookup(names, name) matches Some(i) ==> i < names.len() && names[i as int] == name,
    decreases names.len(),
{
    if names.len() > 0 && names.last() != name {
        lemma_lookup_in_range(names.drop_last(), name);
    }
}

/// Read after write: after adding a node named `name`, `name` finds the new
/// node and every other name finds what it found before.
pub proof fn lemma_lookup_after_add(names: Seq<Seq<char>>, added: Seq<char>, other: Seq<char>)
    ensures
        spec_lookup(names.push(added), added) == Some(names.len()),
        other != added ==> spec_lookup(names.push(added), other) == spec_lookup(names, other),
{
    assert(names.push(added).drop_last() =~= names);
}

/// The last stack entry that has not been visited, or -1.
pub open spec fn last_unvisited(stack: Seq<usize>, visited: Seq<bool>) -> int
    decreases stack.len(),
{
    if stack.len() == 0 {
        -1
    } else if !visited[stack.last() as int] {
        stack.len() - 1
    } else {
        last_unvisited(stack.drop_last(), visited)
    }
}

/// The first position at or after `from` whose node has not been visited,
/// or the length of `order`.
pub open spec fn first_unvisited(order: Seq<usize>, visited: Seq<bool>, from: int) -> int
    decreases order.len() - from,
{
    if from >= order.len() {
        order.len() as int
    } else if !visited[order[from] as int] {
        from
    } else {
        first_unvisited(order, visited, from + 1)
    }
}

/// How many nodes have been visited.
pub open spec fn count_visited(visited: Seq<bool>) -> nat
    decreases visited.len(),
{
    if visited.len() == 0 {
        0
    } else {
        count_visited(visited.drop_last()) + if visited.last() {
            1nat
        } else {
            0nat
        }
    }
}

/// Marking one unvisited node visited adds one to the count.
proof fn lemma_count_mark(visited: Seq<bool>, v: int)
    requires
        0 <= v < visited.len(),
        !visited[v],
    ensures
        count_visited(visited.update(v, true)) == count_visited(visited) + 1,
    decreases visited.len(),
{
    let after = visited.update(v, true);
    if v == visited.len() - 1 {
        assert(after.drop_last() =~= visited.drop_last());
    } else {
        assert(after.drop_last() =~= visited.drop_last().update(v, true));
        lemma_count_mark(visited.drop_last(), v);
    }
}

/// The count is the number of nodes when all are visited, and zero when
/// none is.
proof fn lemma_count_bounds(visited: Seq<bool>)
    ensures
        (forall|v: int| 0 <= v < visited.len() ==> visited[v]) ==> count_visited(visited)
            == visited.len(),
        (forall|v: int| 0 <= v < visited.len() ==> !visited[v]) ==> count_visited(visited) == 0,
    decreases visited.len(),
{
    if visited.len() > 0 {
        let init = visited.drop_last();
        lemma_count_bounds(init);
        assert(forall|v: int| 0 <= v < init.len() ==> init[v] == visited[v]);
    }
}

/// One execution of the build graph, taken a node at a time.
///
/// Nodes are taken in topological order; when a node turns out to be dirty
/// (its action ran), the targets of its edges are visited next, depth first,
/// before the order goes on. Every node is visited exactly once.
pub struct UpdateRun {
    order: Vec<usize>,
    next: usize,
    stack: Vec<usize>,
    visited: Vec<bool>,
}

impl UpdateRun {
    pub closed spec fn node_count(&self) -> nat {
        self.visited@.len()
    }

    /// The topological order the run follows.
    pub closed spec fn order(&self) -> Seq<usize> {
        self.order@
    }

    /// How far the run has gone through the order.
    pub closed spec fn position(&self) -> nat {
        self.next as nat
    }

    /// The nodes still to visit because a dirty node leads to them; the
    /// last one is visited first.
    pub closed spec fn stack(&self) -> Seq<usize> {
        self.stack@
    }

    /// Which nodes have been visited.
    pub closed spec fn visited(&self) -> Seq<bool> {
        self.visited@
    }

    pub closed spec fn wf(&self) -> bool {
        &&& is_node_permutation(self.visited.len() as nat, self.order@)
        &&& self.next <= self.order.len()
        &&& forall|j: int| 0 <= j < self.next ==> self.visited@[#[trigger] self.order@[j] as int]
        &&& forall|k: int| 0 <= k < self.stack.len() ==> #[trigger] self.stack@[k] < self.visited.len()
    }

    /// The next node to visit, which is then marked visited; `None` when
    /// every node has been visited.
    pub fn next_node(&mut self) -> (res: Option<usize>)
        requires
            old(self).wf(),
        ensures
            final(self).wf(),
            final(self).node_count() == old(self).node_count(),
            final(self).order() == old(self).order(),
            last_unvisited(old(self).stack(), old(self).visited()) >= 0 ==> {
                let k = last_unvisited(old(self).stack(), old(self).visited());
                &&& res == Some(old(self).stack()[k])
                &&& final(self).stack() == old(self).stack().subrange(0, k)
                &&& final(self).position() == old(self).position()
            },
            last_unvisited(old(self).stack(), old(self).visited()) < 0 ==> {
                let j = first_unvisited(old(self).order(), old(self).visited(), old(self).position() as int);
                &&& final(self).stack() == Seq::<usize>::empty()
                &&& j < old(self).node_count() ==> res == Some(old(self).order()[j]) && final(self).position() == j + 1
                &&& j >= old(self).node_count() ==> res is None && final(self).position() == old(self).node_count()
            },
            res matches Some(v) ==> v < old(self).node_count() && !old(self).visited()[v as int]
                && final(self).visited() == old(self).visited().update(v as int, true),
            res is None ==> final(self).visited() == old(self).visited() && forall|v: int|
                0 <= v < old(self).node_count() ==> final(self).visited()[v],
            res is Some ==> count_visited(final(self).visited()) == count_visited(old(self).visited()) + 1,
            res is None ==> count_visited(final(self).visited()) == final(self).node_count(),
    {
        let ghost old_stack = old(self).stack@;
        while self.stack.len() > 0
            invariant
                self.wf(),
                old_stack == old(self).stack@,
                self.visited@ == old(self).visited@,
                self.order@ == old(self).order@,
                self.next == old(self).next,
                self.stack@ == old_stack.subrange(0, self.stack@.len() as int),
                self.stack@.len() <= old_stack.len(),
                last_unvisited(old_stack, self.visited@) == last_unvisited(self.stack@, self.visited@),
            decreases self.stack.len(),
        {
            let ghost pre = self.stack@;
            let top = self.stack.pop().unwrap();
            assert(pre.drop_last() =~= self.stack@);
            assert(pre.last() == top);
            assert(old_stack[pre.len() - 1] == pre[pre.len() - 1]);
            if !self.visited[top] {
                assert(last_unvisited(pre, self.visited@) == pre.len() - 1);
                proof {
                    lemma_count_mark(self.visited@, top as int);
                }
                self.visited.set(top, true);
                assert(self.stack@ =~= old_stack.subrange(0, pre.len() - 1));
                return Some(top);
            }
            assert(self.stack@ =~= old_stack.subrange(0, self.stack@.len() as int));
        }
        while self.next < self.order.len()
            invariant
                self.wf(),
                self.visited@ == old(self).visited@,
                self.order@ == old(self).order@,
                self.stack@.len() == 0,
                last_unvisited(old_stack, old(self).visited@) == -1,
                old_stack == old(self).stack@,
                old(self).next <= self.next,
                first_unvisited(self.order@, self.visited@, old(self).next as int) == first_unvisited(
                    self.order@,
                    self.visited@,
                    self.next as int,
                ),
            decreases self.order.len() - self.next,
        {
            let v = self.order[self.next];
            let ghost cur = self.next as int;
            self.next = self.next + 1;
            if !self.visited[v] {
                assert(first_unvisited(self.order@, self.visited@, cur) == cur);
                proof {
                    lemma_count_mark(self.visited@, v as int);
                }
                self.visited.set(v, true);
                return Some(v);
            }
        }
        proof {
            assert forall|v: int| 0 <= v < old(self).node_count() implies self.visited@[v] by {
                assert(occurs(self.order@, v as usize));
                let i = choose|i: int| 0 <= i < self.order@.len() && self.order@[i] == v as usize;
                assert(self.visited@[self.order@[i] as int]);
            }
            lemma_count_bounds(self.visited@);
        }
        None
    }

    /// Records that `node`, just visited, was dirty: the targets of its
    /// edges are to be visited next, in the order in which `graph.neighbors`
    /// lists them.
    pub fn node_was_dirty(&mut self, graph: &BuildGraph, node: usize)
        requires
            old(self).wf(),
            graph.wf(),
            old(self).node_count() == graph@.names.len(),
            node < graph@.names.len(),
        ensures
            final(self).wf(),
            final(self).node_count() == old(self).node_count(),
            final(self).order() == old(self).order(),
            final(self).position() == old(self).position(),
            final(self).visited() == old(self).visited(),
            final(self).stack() == old(self).stack() + targets_from(graph@.edges, node),
    {
        let nb = graph_neighbors(&graph.graph, node);
        proof {
            lemma_targets_in_range(graph@.edges, node, graph@.names.len());
        }
        let ghost targets = targets_from(graph@.edges, node);
        let mut i = nb.len();
        while i > 0
            invariant
                i <= nb.len(),
                nb@ == targets.reverse(),
                forall|k: int| 0 <= k < targets.len() ==> #[trigger] targets[k] < self.visited.len(),
                self.stack@ == old(self).stack@ + targets.subrange(0, nb.len() - i),
                self.visited@ == old(self).visited@,
                self.order@ == old(self).order@,
                self.next == old(self).next,
                self.wf(),
            decreases i,
        {
            let ghost pre = self.stack@;
            assert(nb@[i - 1] == targets[nb.len() - i]);
            self.stack.push(nb[i - 1]);
            assert(targets.subrange(0, nb.len() - i + 1) =~= targets.subrange(0, nb.len() - i).push(
                targets[nb.len() - i],
            ));
            i = i - 1;
        }
        assert(targets.subrange(0, nb.len() as int) =~= targets);
    }
}

/// The targets of edges that join existing nodes are existing nodes.
proof fn lemma_targets_in_range(edges: Seq<(usize, usize)>, a: usize, n: nat)
    requires
        forall|k: int| 0 <= k < edges.len() ==> (#[trigger] edges[k]).1 < n,
    ensures
        forall|k: int|
            0 <= k < targets_from(edges, a).len() ==> #[trigger] targets_from(edges, a)[k] < n,
    decreases edges.len(),
{
    if edges.len() > 0 {
        let init = edges.drop_last();
        assert forall|k: int| 0 <= k < init.len() implies (#[trigger] init[k]).1 < n by {
            assert(init[k] == edges[k]);
        }
        lemma_targets_in_range(init, a, n);
        assert(edges[edges.len() - 1].1 < n);
        let rest = targets_from(init, a);
        let t = targets_from(edges, a);
        assert forall|k: int| 0 <= k < t.len() implies #[trigger] t[k] < n by {
            if k < rest.len() {
                assert(t[k] == rest[k]);
            }
        }
    }
}

/// The builtins of this module, in the order they are bound.
pub fn register() -> (res: Vec<Builtin>)
    ensures
        res@ == seq![Builtin::BuildGraph],
{
    vec![Builtin::BuildGraph]
}

} // verus!
