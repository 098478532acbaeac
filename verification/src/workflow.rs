use vstd::prelude::*;

use crate::errors::PlanError;
use crate::graph::{
    graph_add_edge, graph_add_node, graph_edge_list, graph_edges, graph_node_count,
    graph_with_capacity,
};
use crate::actions::Data;
use crate::engine::clone_frame;
use crate::plans::{InputSide, Link, Plan};
use crate::tool::{action_matches, tool_config_fails, Tool};

use datafusion::dataframe::DataFrame;

verus! {

/// The input slot a link feeds, as an edge weight: 0 is the primary
/// (left) slot, 1 the secondary (right) slot.
pub open spec fn link_slot(side: InputSide) -> int {
    if side == InputSide::right {
        1
    } else {
        0
    }
}

/// How many input relations a plan node consumes: none for an import, one
/// for a unary transform or an export, two for a join, union or set
/// operation.
pub open spec fn spec_plan_frames(t: crate::plans::Tool) -> int {
    match t {
        crate::plans::Tool::import(_) => 0,
        crate::plans::Tool::export(_) => 1,
        crate::plans::Tool::distinct(_) => 1,
        crate::plans::Tool::filter(_) => 1,
        crate::plans::Tool::map(_) => 1,
        crate::plans::Tool::select(_) => 1,
        crate::plans::Tool::sort(_) => 1,
        crate::plans::Tool::summarize(_) => 1,
        crate::plans::Tool::difference(_) => 2,
        crate::plans::Tool::intersect(_) => 2,
        crate::plans::Tool::join(_) => 2,
        crate::plans::Tool::union(_) => 2,
    }
}

/// The executable dependency graph of one plan: one tool per node, one
/// directed edge per link, the link's input slot as edge weight.  Built
/// once, validated, and read-only afterwards.
#[derive(Debug)]
pub struct Workflow {
    pub id: String,
    pub name: String,
    pub tools: Vec<Tool>,
    pub graph: petgraph::graph::Graph<u64, u8, petgraph::Directed, u32>,
}

impl Workflow {
    /// How many nodes the workflow has.
    pub open spec fn n(self) -> int {
        self.tools@.len() as int
    }

    /// The edges of the dependency graph, in link order: (source node,
    /// target node, input slot).
    pub closed spec fn edges(self) -> Seq<(int, int, int)> {
        graph_edges(self.graph)
    }

    /// How many input relations node `i` consumes.
    pub open spec fn arity(self, i: int) -> int {
        self.tools@[i].action.spec_frames()
    }

    /// Whether node `i` hands a result downstream: true for every node
    /// but an export, which consumes its input and produces nothing.
    pub open spec fn produces(self, i: int) -> bool {
        self.tools@[i].action.spec_frames() != 1 || !self.tools@[i].action.spec_is_async()
    }

    /// One edge is sound: endpoints in range, the slot a real slot of the
    /// target (no edge into a source, a secondary edge only into a binary
    /// node).
    pub open spec fn edge_ok(self, e: (int, int, int)) -> bool {
        &&& 0 <= e.0 < self.n()
        &&& 0 <= e.1 < self.n()
        &&& e.2 == 0 || e.2 == 1
        &&& self.arity(e.1) >= 1
        &&& e.2 == 1 ==> self.arity(e.1) == 2
    }

    /// The graph is sound: every edge is, no two edges feed the same slot
    /// of the same node, and every tool's configuration is internally
    /// consistent.
    pub open spec fn wf(self) -> bool {
        &&& forall|k: int| 0 <= k < self.edges().len() ==> self.edge_ok(#[trigger] self.edges()[k])
        &&& forall|k1: int, k2: int|
            0 <= k1 < k2 < self.edges().len() ==> !((#[trigger] self.edges()[k1]).1 == (
            #[trigger] self.edges()[k2]).1 && self.edges()[k1].2 == self.edges()[k2].2)
        &&& forall|i: int| 0 <= i < self.n() ==> (#[trigger] self.tools@[i]).action.wf()
    }

    /// A link resolves to an edge: the edge's endpoints are the (unique)
    /// tools declaring the link's identifiers, its weight the link's slot.
    pub open spec fn link_resolved(self, link: Link, e: (int, int, int)) -> bool {
        &&& 0 <= e.0 < self.n() && self.tools@[e.0].id@ == link.src@
        &&& 0 <= e.1 < self.n() && self.tools@[e.1].id@ == link.dst@
        &&& e.2 == link_slot(link.input)
    }
}

/// The position of the tool declaring `id`, if any.
fn find_tool(tools: &Vec<Tool>, id: &String) -> (r: Option<usize>)
    ensures
        match r {
            Some(ix) => 0 <= ix < tools@.len() && tools@[ix as int].id@ == id@,
            None => forall|i: int| 0 <= i < tools@.len() ==> (#[trigger] tools@[i]).id@ != id@,
        },
{
    let n = tools.len();
    let mut i: usize = 0;
    while i < n
        invariant
            0 <= i <= n,
            n == tools@.len(),
            forall|j: int| 0 <= j < i ==> (#[trigger] tools@[j]).id@ != id@,
        decreases n - i,
    {
        if tools[i].id == *id {
            return Some(i);
        }
        i = i + 1;
    }
    None
}

/// Why `Workflow::new` rejects a plan, by error kind.  Each kind names a
/// defect that the plan really has.
pub open spec fn plan_defect(plan: Plan, e: PlanError) -> bool {
    match e {
        PlanError::InvalidExpression => exists|i: int|
            0 <= i < plan.tools@.len() && tool_config_fails(#[trigger] plan.tools@[i]),
        PlanError::DuplicateToolId(_) => exists|i: int, j: int|
            0 <= i < j < plan.tools@.len() && (#[trigger] plan.tools@[i]).spec_id() == (
            #[trigger] plan.tools@[j]).spec_id(),
        PlanError::UnknownEndpoint(_) => exists|k: int|
            0 <= k < plan.links@.len() && ((forall|i: int|
                0 <= i < plan.tools@.len() ==> (#[trigger] plan.tools@[i]).spec_id() != (
                #[trigger] plan.links@[k]).src@) || (forall|i: int|
                0 <= i < plan.tools@.len() ==> (#[trigger] plan.tools@[i]).spec_id() != (
                #[trigger] plan.links@[k]).dst@)),
        PlanError::InvalidLink(_) => exists|k: int, i: int|
            0 <= k < plan.links@.len() && 0 <= i < plan.tools@.len() && (
            #[trigger] plan.tools@[i]).spec_id() == (#[trigger] plan.links@[k]).dst@ && (
            spec_plan_frames(plan.tools@[i]) == 0 || (link_slot(plan.links@[k].input) == 1
                && spec_plan_frames(plan.tools@[i]) != 2)),
        PlanError::DuplicateSlot(_) => exists|k1: int, k2: int|
            0 <= k1 < k2 < plan.links@.len() && (#[trigger] plan.links@[k1]).dst@ == (
            #[trigger] plan.links@[k2]).dst@ && link_slot(plan.links@[k1].input) == link_slot(
            plan.links@[k2].input),
        _ => false,
    }
}

impl Workflow {
    /// Compile a plan into its executable dependency graph.
    ///
    /// Allocates one graph node per tool, in plan order, and one edge per
    /// link, with the link's input slot as weight.  Rejects, before
    /// anything runs: a tool whose configuration is ill-formed
    /// (`InvalidExpression`), two tools sharing an identifier
    /// (`DuplicateToolId`), a link naming an undeclared tool
    /// (`UnknownEndpoint`), a link feeding a slot its target does not
    /// have (`InvalidLink`), and two links feeding the same slot of the
    /// same node (`DuplicateSlot`).
    pub fn new(plan: &Plan) -> (r: Result<Workflow, PlanError>)
        requires
            plan.tools@.len() < 0xffff_fffe,
            plan.links@.len() < 0xffff_ffff,
        ensures
            match r {
                Ok(w) => {
                    &&& w.id == plan.id
                    &&& w.name == plan.name
                    &&& w.n() == plan.tools@.len()
                    &&& forall|i: int|
                        0 <= i < plan.tools@.len() ==> (#[trigger] w.tools@[i]).id@
                            == plan.tools@[i].spec_id() && action_matches(
                            plan.tools@[i],
                            w.tools@[i].action,
                        )
                    &&& forall|i: int, j: int|
                        0 <= i < j < w.n() ==> (#[trigger] w.tools@[i]).id@ != (
                        #[trigger] w.tools@[j]).id@
                    &&& w.edges().len() == plan.links@.len()
                    &&& forall|k: int|
                        0 <= k < plan.links@.len() ==> w.link_resolved(
                            #[trigger] plan.links@[k],
                            w.edges()[k],
                        )
                    &&& w.wf()
                },
                Err(e) => plan_defect(*plan, e),
            },
    {
        let n = plan.tools.len();
        // One executable unit per tool, in plan order.
        let mut tools: Vec<Tool> = Vec::new();
        let mut i: usize = 0;
        while i < n
            invariant
                0 <= i <= n,
                n == plan.tools@.len(),
                tools@.len() == i,
                forall|k: int|
                    0 <= k < i ==> (#[trigger] tools@[k]).id@ == plan.tools@[k].spec_id()
                        && action_matches(plan.tools@[k], tools@[k].action)
                        && tools@[k].action.wf(),
            decreases n - i,
        {
            match Tool::new(&plan.tools[i]) {
                Ok(t) => tools.push(t),
                Err(e) => {
                    return Err(e);
                },
            }
            i = i + 1;
        }
        // No two tools may share an identifier.
        let mut i: usize = 0;
        while i < n
            invariant
                0 <= i <= n,
                n == tools@.len(),
                n == plan.tools@.len(),
                forall|k: int|
                    0 <= k < n ==> (#[trigger] tools@[k]).id@ == plan.tools@[k].spec_id(),
                forall|a: int, b: int|
                    0 <= a < b < tools@.len() && a < i ==> (#[trigger] tools@[a]).id@ != (
                    #[trigger] tools@[b]).id@,
            decreases n - i,
        {
            let mut j: usize = i + 1;
            while j < n
                invariant
                    0 <= i < j <= n,
                    n == tools@.len(),
                    n == plan.tools@.len(),
                    forall|k: int|
                        0 <= k < n ==> (#[trigger] tools@[k]).id@ == plan.tools@[k].spec_id(),
                    forall|b: int| i < b < j ==> (#[trigger] tools@[b]).id@ != tools@[i as int].id@,
                decreases n - j,
            {
                if tools[i].id == tools[j].id {
                    proof {
                        assert(plan.tools@[i as int].spec_id() == plan.tools@[j as int].spec_id());
                    }
                    return Err(PlanError::DuplicateToolId(tools[j].id.clone()));
                }
                j = j + 1;
            }
            i = i + 1;
        }
        // One graph node per tool; the node index equals the tool's
        // position.
        let mut graph = graph_with_capacity(n, plan.links.len());
        let mut i: usize = 0;
        while i < n
            invariant
                0 <= i <= n,
                n == tools@.len(),
                n < 0xffff_fffe,
                graph_node_count(graph) == i,
                graph_edges(graph) == Seq::<(int, int, int)>::empty(),
            decreases n - i,
        {
            let _ix = graph_add_node(&mut graph, i as u64);
            i = i + 1;
        }
        // One edge per link, each endpoint resolved to its tool, each
        // slot checked against its target's arity and against the links
        // already placed.
        let m = plan.links.len();
        let mut placed: Vec<(usize, usize, u8)> = Vec::new();
        let mut k: usize = 0;
        while k < m
            invariant
                0 <= k <= m,
                m == plan.links@.len(),
                m < 0xffff_ffff,
                n == tools@.len(),
                n == plan.tools@.len(),
                forall|q: int|
                    0 <= q < n ==> (#[trigger] tools@[q]).id@ == plan.tools@[q].spec_id()
                        && action_matches(plan.tools@[q], tools@[q].action),
                graph_node_count(graph) == n,
                placed@.len() == k,
                graph_edges(graph).len() == k,
                forall|q: int|
                    0 <= q < k ==> graph_edges(graph)[q] == ((#[trigger] placed@[q]).0 as int,
                    placed@[q].1 as int, placed@[q].2 as int),
                forall|q: int|
                    0 <= q < k ==> 0 <= (#[trigger] placed@[q]).0 < n && 0 <= placed@[q].1 < n && (
                    placed@[q].2 == 0 || placed@[q].2 == 1),
                forall|q: int|
                    0 <= q < k ==> tools@[(#[trigger] placed@[q]).0 as int].id@
                        == plan.links@[q].src@ && tools@[placed@[q].1 as int].id@
                        == plan.links@[q].dst@ && placed@[q].2 as int == link_slot(
                        plan.links@[q].input,
                    ),
                forall|q: int|
                    0 <= q < k ==> tools@[(#[trigger] placed@[q]).1 as int].action.spec_frames()
                        >= 1 && (placed@[q].2 == 1
                        ==> tools@[placed@[q].1 as int].action.spec_frames() == 2),
                forall|q1: int, q2: int|
                    0 <= q1 < q2 < k ==> !((#[trigger] placed@[q1]).1 == (#[trigger] placed@[q2]).1 && placed@[q1].2 == placed@[q2].2),
            decreases m - k,
        {
            let link = &plan.links[k];
            let src = match find_tool(&tools, &link.src) {
                Some(ix) => ix,
                None => {
                    proof {
                        assert forall|i: int|
                            0 <= i < plan.tools@.len() implies (#[trigger] plan.tools@[i]).spec_id()
                            != plan.links@[k as int].src@ by {
                            assert(tools@[i].id@ != link.src@);
                        }
                    }
                    return Err(PlanError::UnknownEndpoint(link.src.clone()));
                },
            };
            let dst = match find_tool(&tools, &link.dst) {
                Some(ix) => ix,
                None => {
                    proof {
                        assert forall|i: int|
                            0 <= i < plan.tools@.len() implies (#[trigger] plan.tools@[i]).spec_id()
                            != plan.links@[k as int].dst@ by {
                            assert(tools@[i].id@ != link.dst@);
                        }
                    }
                    return Err(PlanError::UnknownEndpoint(link.dst.clone()));
                },
            };
            let slot: u8 = match link.input {
                InputSide::left => 0,
                InputSide::right => 1,
            };
            let frames = tools[dst].action.frames();
            if frames == 0 || (slot == 1 && frames != 2) {
                proof {
                    assert(plan.tools@[dst as int].spec_id() == plan.links@[k as int].dst@);
                    assert(spec_plan_frames(plan.tools@[dst as int]) == tools@[dst as int].action.spec_frames());
                }
                return Err(PlanError::InvalidLink(link.dst.clone()));
            }
            // No second producer for one slot of one node.
            let mut q: usize = 0;
            while q < k
                invariant
                    0 <= q <= k,
                    k == placed@.len(),
                    k < m,
                    m == plan.links@.len(),
                    n == tools@.len(),
                    0 <= dst < n,
                    tools@[dst as int].id@ == plan.links@[k as int].dst@,
                    slot as int == link_slot(plan.links@[k as int].input),
                    forall|p: int|
                        0 <= p < k ==> 0 <= (#[trigger] placed@[p]).1 < n,
                    forall|p: int|
                        0 <= p < k ==> tools@[(#[trigger] placed@[p]).1 as int].id@
                            == plan.links@[p].dst@ && placed@[p].2 as int == link_slot(
                            plan.links@[p].input,
                        ),
                    forall|p: int|
                        0 <= p < q ==> !((#[trigger] placed@[p]).1 == dst && placed@[p].2 == slot),
                decreases k - q,
            {
                if placed[q].1 == dst && placed[q].2 == slot {
                    proof {
                        assert(plan.links@[q as int].dst@ == plan.links@[k as int].dst@);
                        assert(link_slot(plan.links@[q as int].input) == link_slot(
                            plan.links@[k as int].input,
                        ));
                    }
                    return Err(PlanError::DuplicateSlot(link.dst.clone()));
                }
                q = q + 1;
            }
            graph_add_edge(&mut graph, src, dst, slot);
            placed.push((src, dst, slot));
            k = k + 1;
        }
        let w = Workflow { id: plan.id.clone(), name: plan.name.clone(), tools, graph };
        proof {
            assert forall|p: int| 0 <= p < w.edges().len() implies w.edge_ok(
                #[trigger] w.edges()[p],
            ) by {
                assert(w.edges()[p] == (placed@[p].0 as int, placed@[p].1 as int, placed@[p].2 as int));
            }
            assert forall|k0: int| 0 <= k0 < plan.links@.len() implies w.link_resolved(
                #[trigger] plan.links@[k0],
                w.edges()[k0],
            ) by {
                assert(w.edges()[k0] == (placed@[k0].0 as int, placed@[k0].1 as int, placed@[k0].2 as int));
            }
            assert forall|q1: int, q2: int|
                0 <= q1 < q2 < w.edges().len() implies !((#[trigger] w.edges()[q1]).1 == (
            #[trigger] w.edges()[q2]).1 && w.edges()[q1].2 == w.edges()[q2].2) by {
                assert(w.edges()[q1] == (placed@[q1].0 as int, placed@[q1].1 as int, placed@[q1].2 as int));
                assert(w.edges()[q2] == (placed@[q2].0 as int, placed@[q2].1 as int, placed@[q2].2 as int));
            }
        }
        Ok(w)
    }
}

/// The node positions a queue holds, as a set.
pub open spec fn idx_set(s: Seq<usize>) -> Set<int> {
    Set::new(|i: int| exists|k: int| 0 <= k < s.len() && s[k] as int == i)
}

impl Workflow {
    /// Whether some edge feeds slot `slot` of node `d` from a node that
    /// has already fanned out a result.
    pub open spec fn delivered(self, produced: Set<int>, d: int, slot: int) -> bool {
        exists|k: int|
            0 <= k < self.edges().len() && (#[trigger] self.edges()[k]).1 == d
                && self.edges()[k].2 == slot && produced.contains(self.edges()[k].0)
    }

    /// Whether every input slot node `i` requires has been delivered.
    pub open spec fn slots_done(self, produced: Set<int>, i: int) -> bool {
        &&& self.arity(i) >= 1 ==> self.delivered(produced, i, 0)
        &&& self.arity(i) == 2 ==> self.delivered(produced, i, 1)
    }
}

/// One run of a workflow: the readiness-driven scheduler state between
/// synchronization waves.  The ready queue holds the nodes whose inputs
/// are all in; the pending buffers hold results delivered to nodes that
/// have not executed yet.  The ghost sets record which nodes have been
/// handed out for execution, which have fanned their result out, and
/// which produced one.
pub struct Run {
    pub pending: Vec<Data>,
    pub ready: Vec<usize>,
    pub edges: Vec<(usize, usize, u8)>,
    pub executed: Ghost<Set<int>>,
    pub fanned: Ghost<Set<int>>,
    pub produced: Ghost<Set<int>>,
}

impl Run {
    /// The scheduler's invariant, against its workflow:
    /// - the buffers cover the nodes, and the edge list mirrors the graph;
    /// - a queued node is in range, unexecuted, queued once, and ready:
    ///   its populated slots equal its arity;
    /// - an unexecuted node's slot is populated exactly when some producer
    ///   fanned a result into it; an executed node's buffer is consumed;
    /// - results fan out only after execution, and every executed node had
    ///   all its required slots delivered;
    /// - completeness: every unexecuted node whose populated slots already
    ///   satisfy its arity is in the queue.
    pub open spec fn inv(self, wf: Workflow) -> bool {
        &&& wf.wf()
        &&& self.pending@.len() == wf.n()
        &&& self.edges@.len() == wf.edges().len()
        &&& forall|k: int|
            0 <= k < self.edges@.len() ==> ((#[trigger] self.edges@[k]).0 as int,
            self.edges@[k].1 as int, self.edges@[k].2 as int) == wf.edges()[k]
        &&& forall|i: int| self.executed@.contains(i) ==> 0 <= i < wf.n()
        &&& self.produced@.subset_of(self.fanned@)
        &&& self.fanned@.subset_of(self.executed@)
        &&& forall|k: int| 0 <= k < self.ready@.len() ==> 0 <= (#[trigger] self.ready@[k]) < wf.n()
        &&& forall|k: int|
            0 <= k < self.ready@.len() ==> !self.executed@.contains(
                (#[trigger] self.ready@[k]) as int,
            )
        &&& forall|k: int|
            0 <= k < self.ready@.len() ==> wf.tools@[(#[trigger] self.ready@[k]) as int
                ].spec_is_ready(self.pending@[self.ready@[k] as int])
        &&& forall|k1: int, k2: int|
            0 <= k1 < k2 < self.ready@.len() ==> (#[trigger] self.ready@[k1]) != (
            #[trigger] self.ready@[k2])
        &&& forall|i: int|
            0 <= i < wf.n() && !self.executed@.contains(i) ==> ((#[trigger] self.pending@[i].left)
                is Some <==> wf.delivered(self.produced@, i, 0))
        &&& forall|i: int|
            0 <= i < wf.n() && !self.executed@.contains(i) ==> ((#[trigger] self.pending@[i].right)
                is Some <==> wf.delivered(self.produced@, i, 1))
        &&& forall|i: int|
            self.executed@.contains(i) ==> (#[trigger] self.pending@[i].left) is None
        &&& forall|i: int|
            self.executed@.contains(i) ==> (#[trigger] self.pending@[i].right) is None
        &&& forall|i: int|
            #[trigger] self.executed@.contains(i) ==> wf.slots_done(self.produced@, i)
        &&& forall|i: int|
            0 <= i < wf.n() && !self.executed@.contains(i) && wf.tools@[i].spec_is_ready(
                #[trigger] self.pending@[i],
            ) ==> idx_set(self.ready@).contains(i)
    }

    /// Whether the run is over: no node is ready, so no wave can run.
    pub fn is_done(&self) -> (r: bool)
        ensures
            r == (self.ready@.len() == 0),
    {
        self.ready.len() == 0
    }
}

impl Workflow {
    /// Begin a run: every source node (arity 0) is ready, in node order;
    /// nothing is buffered, executed or fanned out yet.
    pub fn start(&self) -> (r: Run)
        requires
            self.wf(),
        ensures
            r.inv(*self),
            r.executed@ == Set::<int>::empty(),
            r.fanned@ == Set::<int>::empty(),
            r.produced@ == Set::<int>::empty(),
            forall|k: int|
                0 <= k < r.ready@.len() ==> self.arity((#[trigger] r.ready@[k]) as int) == 0,
            forall|i: int|
                0 <= i < self.n() && self.arity(i) == 0 ==> idx_set(r.ready@).contains(i),
            forall|k1: int, k2: int|
                0 <= k1 < k2 < r.ready@.len() ==> (#[trigger] r.ready@[k1]) < (
                #[trigger] r.ready@[k2]),
            forall|i: int| 0 <= i < self.n() ==> (#[trigger] r.pending@[i].left) is None,
            forall|i: int| 0 <= i < self.n() ==> (#[trigger] r.pending@[i].right) is None,
    {
        let n = self.tools.len();
        let mut pending: Vec<Data> = Vec::new();
        let mut i: usize = 0;
        while i < n
            invariant
                0 <= i <= n,
                pending@.len() == i,
                forall|j: int| 0 <= j < i ==> (#[trigger] pending@[j].left) is None,
                forall|j: int| 0 <= j < i ==> (#[trigger] pending@[j].right) is None,
            decreases n - i,
        {
            pending.push(Data::empty());
            i = i + 1;
        }
        let mut ready: Vec<usize> = Vec::new();
        let mut i: usize = 0;
        while i < n
            invariant
                0 <= i <= n,
                n == self.tools@.len(),
                forall|k: int| 0 <= k < ready@.len() ==> 0 <= (#[trigger] ready@[k]) < i,
                forall|k: int|
                    0 <= k < ready@.len() ==> self.arity((#[trigger] ready@[k]) as int) == 0,
                forall|j: int|
                    0 <= j < i && self.arity(j) == 0 ==> exists|k: int|
                        0 <= k < ready@.len() && (#[trigger] ready@[k]) as int == j,
                forall|k1: int, k2: int|
                    0 <= k1 < k2 < ready@.len() ==> (#[trigger] ready@[k1]) < (
                    #[trigger] ready@[k2]),
            decreases n - i,
        {
            let ghost prev = ready@;
            if self.tools[i].action.frames() == 0 {
                ready.push(i);
            }
            proof {
                assert forall|j: int| 0 <= j < i + 1 && self.arity(j) == 0 implies exists|k: int|
                    0 <= k < ready@.len() && (#[trigger] ready@[k]) as int == j by {
                    if j < i {
                        let k = choose|k: int|
                            0 <= k < prev.len() && (#[trigger] prev[k]) as int == j;
                        assert(ready@[k] as int == j);
                    } else {
                        assert(ready@[ready@.len() - 1] as int == j);
                    }
                }
            }
            i = i + 1;
        }
        let edges = graph_edge_list(&self.graph);
        let ghost queued = ready@;
        let ghost buffers = pending@;
        let r = Run {
            pending,
            ready,
            edges,
            executed: Ghost(Set::empty()),
            fanned: Ghost(Set::empty()),
            produced: Ghost(Set::empty()),
        };
        proof {
            assert forall|i: int|
                0 <= i < self.n() && !r.executed@.contains(i) && self.tools@[i].spec_is_ready(
                    #[trigger] r.pending@[i],
                ) implies idx_set(r.ready@).contains(i) by {
                assert(r.pending@ == buffers);
                assert(buffers[i].left is None);
                assert(self.arity(i) == 0);
                assert(r.ready@ == queued);
                let k = choose|k: int|
                    0 <= k < queued.len() && (#[trigger] queued[k]) as int == i;
                assert(r.ready@[k] as int == i);
            }
            assert forall|d: int, c: int| !self.delivered(r.produced@, d, c) by {
                if self.delivered(r.produced@, d, c) {
                    let k = choose|k: int|
                        0 <= k < self.edges().len() && (#[trigger] self.edges()[k]).1 == d
                            && self.edges()[k].2 == c && r.produced@.contains(
                            self.edges()[k].0,
                        );
                    assert(!r.produced@.contains(self.edges()[k].0));
                    assert(false);
                }
            }
        }
        r
    }
}

impl Run {
    /// Drain the ready queue into one wave's batch: each ready node,
    /// in queue order, paired with its buffered inputs, which it consumes.
    ///
    /// Readiness law: a node is handed out only with its inputs all in --
    /// a unary node or a sink with its primary input, a binary node with
    /// both, a source with nothing to wait for.
    pub fn take_batch(&mut self, wf: &Workflow) -> (batch: Vec<(usize, Data)>)
        requires
            old(self).inv(*wf),
        ensures
            final(self).inv(*wf),
            final(self).ready@.len() == 0,
            final(self).edges@ == old(self).edges@,
            final(self).fanned@ == old(self).fanned@,
            final(self).produced@ == old(self).produced@,
            final(self).executed@ == old(self).executed@.union(idx_set(old(self).ready@)),
            batch@.len() == old(self).ready@.len(),
            forall|k: int|
                0 <= k < batch@.len() ==> (#[trigger] batch@[k]).0 == old(self).ready@[k],
            forall|k: int|
                0 <= k < batch@.len() ==> (#[trigger] batch@[k]).1 == old(self).pending@[batch@[k].0 as int],
            forall|k: int|
                0 <= k < batch@.len() ==> {
                    let ix = (#[trigger] batch@[k]).0 as int;
                    &&& 0 <= ix < wf.n()
                    &&& !old(self).executed@.contains(ix)
                    &&& (wf.arity(ix) >= 1 ==> batch@[k].1.left is Some)
                    &&& (wf.arity(ix) == 2 ==> batch@[k].1.right is Some)
                },
            forall|i: int|
                0 <= i < wf.n() && !idx_set(old(self).ready@).contains(i) ==> final(self).pending@[i] == old(self).pending@[i],
    {
        let ghost prior = *self;
        let mut batch: Vec<(usize, Data)> = Vec::new();
        let count = self.ready.len();
        let mut k: usize = 0;
        while k < count
            invariant
                0 <= k <= count,
                count == prior.ready@.len(),
                self.ready@ == prior.ready@,
                self.edges@ == prior.edges@,
                self.executed@ == prior.executed@,
                self.fanned@ == prior.fanned@,
                self.produced@ == prior.produced@,
                self.pending@.len() == prior.pending@.len(),
                prior.inv(*wf),
                batch@.len() == k,
                forall|q: int| 0 <= q < k ==> (#[trigger] batch@[q]).0 == prior.ready@[q],
                forall|q: int|
                    0 <= q < k ==> (#[trigger] batch@[q]).1 == prior.pending@[batch@[q].0 as int],
                forall|q: int|
                    0 <= q < k ==> (#[trigger] self.pending@[prior.ready@[q] as int]).left is None
                        && self.pending@[prior.ready@[q] as int].right is None,
                forall|i: int|
                    0 <= i < prior.pending@.len() && !(exists|q: int|
                        0 <= q < k && (#[trigger] prior.ready@[q]) as int == i) ==> (
                    #[trigger] self.pending@[i]) == prior.pending@[i],
            decreases count - k,
        {
            let ix = self.ready[k];
            proof {
                assert(0 <= ix < wf.n());
            }
            let left = self.pending[ix].left.take();
            let right = self.pending[ix].right.take();
            batch.push((ix, Data { left, right }));
            k = k + 1;
        }
        self.ready.clear();
        proof {
            self.executed@ = prior.executed@.union(idx_set(prior.ready@));
        }
        batch
    }
}


/// Splitting a fan-out: after `ix` fans out, a slot counts as delivered
/// exactly if it already was, or an edge from `ix` feeds it.
proof fn lemma_delivered_insert(wf: Workflow, produced: Set<int>, ix: int, d: int, slot: int)
    ensures
        wf.delivered(produced.insert(ix), d, slot) <==> (wf.delivered(produced, d, slot) || exists|
            k: int,
        |
            0 <= k < wf.edges().len() && (#[trigger] wf.edges()[k]) == (ix, d, slot)),
{
    if wf.delivered(produced.insert(ix), d, slot) {
        let k = choose|k: int|
            0 <= k < wf.edges().len() && (#[trigger] wf.edges()[k]).1 == d && wf.edges()[k].2
                == slot && produced.insert(ix).contains(wf.edges()[k].0);
        if produced.contains(wf.edges()[k].0) {
            assert(wf.delivered(produced, d, slot));
        } else {
            assert(wf.edges()[k] == (ix, d, slot));
        }
    }
    if wf.delivered(produced, d, slot) {
        let k = choose|k: int|
            0 <= k < wf.edges().len() && (#[trigger] wf.edges()[k]).1 == d && wf.edges()[k].2
                == slot && produced.contains(wf.edges()[k].0);
        assert(produced.insert(ix).contains(wf.edges()[k].0));
        assert(wf.delivered(produced.insert(ix), d, slot));
    }
    if exists|k: int| 0 <= k < wf.edges().len() && (#[trigger] wf.edges()[k]) == (ix, d, slot) {
        let k = choose|k: int|
            0 <= k < wf.edges().len() && (#[trigger] wf.edges()[k]) == (ix, d, slot);
        assert(produced.insert(ix).contains(ix));
        assert(wf.delivered(produced.insert(ix), d, slot));
    }
}

impl Run {
    /// Fan one node's completed execution out to its consumers.
    ///
    /// With a result, every outgoing edge of `ix` delivers an equal
    /// handle of it into its target's slot, and each target whose inputs
    /// are now all in joins the ready queue, behind the nodes already
    /// there; a node that produced nothing (a sink) is only marked
    /// finished.  A node fans out at most once, after it has executed.
    pub fn deliver(&mut self, wf: &Workflow, ix: usize, df: Option<DataFrame>)
        requires
            old(self).inv(*wf),
            0 <= ix < wf.n(),
            old(self).executed@.contains(ix as int),
            !old(self).fanned@.contains(ix as int),
        ensures
            final(self).inv(*wf),
            final(self).edges@ == old(self).edges@,
            final(self).executed@ == old(self).executed@,
            final(self).fanned@ == old(self).fanned@.insert(ix as int),
            df is Some ==> final(self).produced@ == old(self).produced@.insert(ix as int),
            df is None ==> final(self).produced@ == old(self).produced@ && final(self).pending@
                == old(self).pending@ && final(self).ready@ == old(self).ready@,
            df matches Some(v) ==> forall|k: int|
                0 <= k < wf.edges().len() && (#[trigger] wf.edges()[k]).0 == ix as int ==> {
                    let d = wf.edges()[k].1;
                    &&& (wf.edges()[k].2 == 0 ==> final(self).pending@[d].left == Some(v))
                    &&& (wf.edges()[k].2 == 1 ==> final(self).pending@[d].right == Some(v))
                },
            forall|i: int|
                0 <= i < wf.n() && !(exists|k: int|
                    0 <= k < wf.edges().len() && (#[trigger] wf.edges()[k]).0 == ix as int
                        && wf.edges()[k].1 == i) ==> final(self).pending@[i] == old(self).pending@[i],
            forall|k: int|
                0 <= k < old(self).ready@.len() ==> final(self).ready@[k] == old(self).ready@[k],
            final(self).ready@.len() >= old(self).ready@.len(),
    {
        let ghost prior = *self;
        match df {
            None => {
                proof {
                    self.fanned@ = prior.fanned@.insert(ix as int);
                    assert forall|i: int|
                        0 <= i < wf.n() && !self.executed@.contains(i) && wf.tools@[i].spec_is_ready(#[trigger] self.pending@[i]) implies idx_set(
                        self.ready@,
                    ).contains(i) by {
                        assert(self.pending@[i] == prior.pending@[i]);
                        assert(idx_set(prior.ready@).contains(i));
                    }
                }
            },
            Some(v) => {
                proof {
                    self.fanned@ = prior.fanned@.insert(ix as int);
                    self.produced@ = prior.produced@.insert(ix as int);
                    assert forall|d: int, slot: int|
                        wf.delivered(self.produced@, d, slot) implies (wf.delivered(
                        prior.produced@,
                        d,
                        slot,
                    ) || exists|k: int|
                        0 <= k < wf.edges().len() && (#[trigger] wf.edges()[k]) == (
                        ix as int,
                        d,
                        slot,
                    )) by {
                        lemma_delivered_insert(*wf, prior.produced@, ix as int, d, slot);
                    }
                }
                let m = self.edges.len();
                let mut k: usize = 0;
                while k < m
                    invariant
                        0 <= k <= m,
                        prior.inv(*wf),
                        0 <= ix < wf.n(),
                        prior.executed@.contains(ix as int),
                        !prior.fanned@.contains(ix as int),
                        m == self.edges@.len(),
                        self.edges@ == prior.edges@,
                        self.executed@ == prior.executed@,
                        self.fanned@ == prior.fanned@.insert(ix as int),
                        self.produced@ == prior.produced@.insert(ix as int),
                        self.pending@.len() == prior.pending@.len(),
                        // the slots already fanned out hold the result
                        forall|q: int|
                            0 <= q < k && (#[trigger] wf.edges()[q]).0 == ix as int ==> {
                                let d = wf.edges()[q].1;
                                &&& (wf.edges()[q].2 == 0 ==> self.pending@[d].left == Some(v))
                                &&& (wf.edges()[q].2 == 1 ==> self.pending@[d].right == Some(v))
                            },
                        // every other slot is as it was
                        forall|i: int|
                            0 <= i < wf.n() && !(exists|q: int|
                                0 <= q < k && (#[trigger] wf.edges()[q]) == (ix as int, i, 0int))
                                ==> (#[trigger] self.pending@[i]).left == prior.pending@[i].left,
                        forall|i: int|
                            0 <= i < wf.n() && !(exists|q: int|
                                0 <= q < k && (#[trigger] wf.edges()[q]) == (ix as int, i, 1int))
                                ==> (#[trigger] self.pending@[i]).right == prior.pending@[i].right,
                        // queue: the old entries stand, new entries are sound
                        forall|q: int|
                            0 <= q < prior.ready@.len() ==> (#[trigger] self.ready@[q])
                                == prior.ready@[q],
                        self.ready@.len() >= prior.ready@.len(),
                        forall|q: int|
                            0 <= q < self.ready@.len() ==> 0 <= (#[trigger] self.ready@[q])
                                < wf.n(),
                        forall|q: int|
                            0 <= q < self.ready@.len() ==> !self.executed@.contains(
                                (#[trigger] self.ready@[q]) as int,
                            ),
                        forall|q: int|
                            0 <= q < self.ready@.len() ==> wf.tools@[(#[trigger] self.ready@[q])
                                as int].spec_is_ready(self.pending@[self.ready@[q] as int]),
                        forall|q1: int, q2: int|
                            0 <= q1 < q2 < self.ready@.len() ==> (#[trigger] self.ready@[q1]) != (
                            #[trigger] self.ready@[q2]),
                        // buffer/delivery correspondence, over the prefix
                        forall|i: int|
                            0 <= i < wf.n() && !self.executed@.contains(i) ==> ((
                            #[trigger] self.pending@[i].left) is Some <==> (wf.delivered(
                                prior.produced@,
                                i,
                                0,
                            ) || exists|q: int|
                                0 <= q < k && (#[trigger] wf.edges()[q]) == (ix as int, i, 0int))),
                        forall|i: int|
                            0 <= i < wf.n() && !self.executed@.contains(i) ==> ((
                            #[trigger] self.pending@[i].right) is Some <==> (wf.delivered(
                                prior.produced@,
                                i,
                                1,
                            ) || exists|q: int|
                                0 <= q < k && (#[trigger] wf.edges()[q]) == (ix as int, i, 1int))),
                        forall|i: int|
                            self.executed@.contains(i) ==> (#[trigger] self.pending@[i].left)
                                is None && self.pending@[i].right is None,
                        forall|i: int|
                            0 <= i < wf.n() && !self.executed@.contains(i) && wf.tools@[i].spec_is_ready(#[trigger] self.pending@[i]) ==> idx_set(
                                self.ready@,
                            ).contains(i),
                    decreases m - k,
                {
                    let ghost ready_pre = self.ready@;
                    let ghost pending_pre = self.pending@;
                    let (src, dst, slot) = (self.edges[k].0, self.edges[k].1, self.edges[k].2);
                    proof {
                        assert(((self.edges@[k as int]).0 as int, self.edges@[k as int].1 as int,
                        self.edges@[k as int].2 as int) == wf.edges()[k as int]);
                    }
                    if src == ix {
                        proof {
                            assert(wf.edge_ok(wf.edges()[k as int]));
                            // the target cannot have executed: its slots were
                            // all delivered before it ran, and this edge is
                            // the only producer of this slot, yet `ix` had
                            // not fanned out
                            if self.executed@.contains(dst as int) {
                                assert(wf.slots_done(prior.produced@, dst as int));
                                assert(wf.delivered(prior.produced@, dst as int, slot as int));
                                let q = choose|q: int|
                                    0 <= q < wf.edges().len() && (#[trigger] wf.edges()[q]).1
                                        == dst as int && wf.edges()[q].2 == slot as int
                                        && prior.produced@.contains(wf.edges()[q].0);
                                if q < k as int {
                                    assert(wf.edges()[q].1 == wf.edges()[k as int].1);
                                } else if q > k as int {
                                    assert(wf.edges()[q].1 == wf.edges()[k as int].1);
                                }
                                assert(q == k as int);
                                assert(prior.produced@.contains(ix as int));
                                assert(prior.fanned@.contains(ix as int));
                                assert(false);
                            }
                            // this slot is still empty: this edge is its only
                            // producer, and `ix` had not fanned out
                            if slot == 0 && self.pending@[dst as int].left is Some {
                                if wf.delivered(prior.produced@, dst as int, 0) {
                                    let q = choose|q: int|
                                        0 <= q < wf.edges().len() && (#[trigger] wf.edges()[q]).1
                                            == dst as int && wf.edges()[q].2 == 0
                                            && prior.produced@.contains(wf.edges()[q].0);
                                    assert(q == k as int);
                                    assert(prior.fanned@.contains(ix as int));
                                } else {
                                    let q = choose|q: int|
                                        0 <= q < k && (#[trigger] wf.edges()[q]) == (ix as int, dst as int, 0int);
                                    assert(wf.edges()[q].1 == wf.edges()[k as int].1);
                                }
                                assert(false);
                            }
                            if slot == 1 && self.pending@[dst as int].right is Some {
                                if wf.delivered(prior.produced@, dst as int, 1) {
                                    let q = choose|q: int|
                                        0 <= q < wf.edges().len() && (#[trigger] wf.edges()[q]).1
                                            == dst as int && wf.edges()[q].2 == 1
                                            && prior.produced@.contains(wf.edges()[q].0);
                                    assert(q == k as int);
                                    assert(prior.fanned@.contains(ix as int));
                                } else {
                                    let q = choose|q: int|
                                        0 <= q < k && (#[trigger] wf.edges()[q]) == (ix as int, dst as int, 1int);
                                    assert(wf.edges()[q].1 == wf.edges()[k as int].1);
                                }
                                assert(false);
                            }
                        }
                        let ghost was_ready = wf.tools@[dst as int].spec_is_ready(
                            self.pending@[dst as int],
                        );
                        let copy = clone_frame(&v);
                        let side = if slot == 1 {
                            InputSide::right
                        } else {
                            InputSide::left
                        };
                        self.pending[dst].set(side, copy);
                        proof {
                            assert(!was_ready);
                        }
                        let now_ready = self.tools_ready(wf, dst);
                        if now_ready {
                            self.ready.push(dst);
                        }
                        proof {
                            assert forall|i: int|
                                0 <= i < wf.n() && !self.executed@.contains(i) && wf.tools@[i].spec_is_ready(#[trigger] self.pending@[i]) implies idx_set(
                                self.ready@,
                            ).contains(i) by {
                                if i == dst as int {
                                    assert(now_ready);
                                    assert(self.ready@[self.ready@.len() - 1] as int == i);
                                } else {
                                    assert(self.pending@[i] == pending_pre[i]);
                                    assert(idx_set(ready_pre).contains(i));
                                    let kq = choose|kq: int|
                                        0 <= kq < ready_pre.len() && (#[trigger] ready_pre[kq])
                                            as int == i;
                                    assert(self.ready@[kq] as int == i);
                                }
                            }
                        }
                    }
                    k = k + 1;
                }
                proof {
                    assert forall|d: int, slot: int|
                        (wf.delivered(prior.produced@, d, slot) || exists|q: int|
                            0 <= q < wf.edges().len() && (#[trigger] wf.edges()[q]) == (
                            ix as int,
                            d,
                            slot,
                        )) implies wf.delivered(self.produced@, d, slot) by {
                        lemma_delivered_insert(*wf, prior.produced@, ix as int, d, slot);
                    }
                    assert forall|i: int|
                        #[trigger] self.executed@.contains(i) implies wf.slots_done(
                        self.produced@,
                        i,
                    ) by {
                        assert(wf.slots_done(prior.produced@, i));
                        if wf.arity(i) >= 1 {
                            lemma_delivered_insert(*wf, prior.produced@, ix as int, i, 0);
                        }
                        if wf.arity(i) == 2 {
                            lemma_delivered_insert(*wf, prior.produced@, ix as int, i, 1);
                        }
                    }
                }
            },
        }
    }

    /// Whether node `dst`'s buffered inputs now satisfy its arity.
    fn tools_ready(&self, wf: &Workflow, dst: usize) -> (r: bool)
        requires
            0 <= dst < wf.n(),
            self.pending@.len() == wf.n(),
        ensures
            r == wf.tools@[dst as int].spec_is_ready(self.pending@[dst as int]),
    {
        wf.tools[dst].is_ready(&self.pending[dst])
    }
}


/// Law (readiness): in any reachable run state, a node that has not yet
/// executed and whose required inputs have all been fanned out sits in the
/// ready queue.  Together with `take_batch`, which hands out exactly the
/// queue and only nodes whose buffered inputs satisfy their arity, a node
/// executes exactly when, and only when, its inputs are all in; a source
/// waits for nothing.
pub proof fn lemma_ready_complete(run: Run, wf: Workflow, i: int)
    requires
        run.inv(wf),
        0 <= i < wf.n(),
        !run.executed@.contains(i),
        wf.slots_done(run.produced@, i),
    ensures
        idx_set(run.ready@).contains(i),
{
    if wf.arity(i) >= 1 {
        assert(run.pending@[i].left is Some);
    }
    if wf.arity(i) == 2 {
        assert(run.pending@[i].right is Some);
    }
    assert(wf.tools@[i].spec_is_ready(run.pending@[i]));
}

/// The set of positions marked done.
pub open spec fn done_set(s: Seq<bool>) -> Set<int> {
    Set::new(|i: int| 0 <= i < s.len() && s[i])
}

/// How many positions are marked done.
pub open spec fn count_trues(s: Seq<bool>) -> int
    decreases s.len(),
{
    if s.len() == 0 {
        0
    } else {
        count_trues(s.drop_last()) + if s.last() {
            1int
        } else {
            0int
        }
    }
}

proof fn lemma_count_trues_bounds(s: Seq<bool>)
    ensures
        0 <= count_trues(s) <= s.len(),
    decreases s.len(),
{
    if s.len() > 0 {
        lemma_count_trues_bounds(s.drop_last());
    }
}

proof fn lemma_count_trues_update(s: Seq<bool>, i: int)
    requires
        0 <= i < s.len(),
        !s[i],
    ensures
        count_trues(s.update(i, true)) == count_trues(s) + 1,
    decreases s.len(),
{
    if i == s.len() - 1 {
        assert(s.update(i, true).drop_last() =~= s.drop_last());
    } else {
        assert(s.update(i, true).drop_last() =~= s.drop_last().update(i, true));
        lemma_count_trues_update(s.drop_last(), i);
    }
}

impl Workflow {
    /// The nodes of `s` that hand a result downstream.
    pub open spec fn producers(self, s: Set<int>) -> Set<int> {
        Set::new(|i: int| s.contains(i) && self.produces(i))
    }

    /// The wave that runs next, once the nodes of `done` have run: every
    /// node not yet run whose required inputs have all been produced.
    pub open spec fn wave_of(self, done: Set<int>) -> Set<int> {
        Set::new(
            |i: int|
                0 <= i < self.n() && !done.contains(i) && self.slots_done(
                    self.producers(done),
                    i,
                ),
        )
    }

    /// The nodes that have run once `w` waves have completed.
    pub open spec fn executed_upto(self, w: nat) -> Set<int>
        decreases w,
    {
        if w == 0 {
            Set::empty()
        } else {
            self.executed_upto((w - 1) as nat).union(
                self.wave_of(self.executed_upto((w - 1) as nat)),
            )
        }
    }

    /// The nodes that run in wave `w`.
    pub open spec fn wave_at(self, w: nat) -> Set<int> {
        self.wave_of(self.executed_upto(w))
    }

    /// Whether node `i` hands a result downstream.
    fn node_produces(&self, i: usize) -> (r: bool)
        requires
            0 <= i < self.tools@.len(),
        ensures
            r == self.produces(i as int),
    {
        self.tools[i].action.frames() != 1 || !self.tools[i].action.is_async()
    }

    /// Whether slot `slot` of node `d` has been fed by a finished
    /// producer.
    fn slot_delivered(
        &self,
        edges: &Vec<(usize, usize, u8)>,
        done: &Vec<bool>,
        d: usize,
        slot: u8,
    ) -> (r: bool)
        requires
            self.wf(),
            done@.len() == self.n(),
            edges@.len() == self.edges().len(),
            forall|k: int|
                0 <= k < edges@.len() ==> ((#[trigger] edges@[k]).0 as int, edges@[k].1 as int,
                edges@[k].2 as int) == self.edges()[k],
        ensures
            r == self.delivered(self.producers(done_set(done@)), d as int, slot as int),
    {
        let m = edges.len();
        let mut q: usize = 0;
        while q < m
            invariant
                0 <= q <= m,
                m == edges@.len(),
                self.wf(),
                done@.len() == self.n(),
                edges@.len() == self.edges().len(),
                forall|k: int|
                    0 <= k < edges@.len() ==> ((#[trigger] edges@[k]).0 as int, edges@[k].1 as int,
                    edges@[k].2 as int) == self.edges()[k],
                forall|k: int|
                    0 <= k < q ==> !((#[trigger] self.edges()[k]).1 == d as int && self.edges()[k].2 == slot as int && self.producers(done_set(done@)).contains(
                        self.edges()[k].0,
                    )),
            decreases m - q,
        {
            let (src, dst, w) = (edges[q].0, edges[q].1, edges[q].2);
            if dst == d && w == slot {
                proof {
                    assert(self.edge_ok(self.edges()[q as int]));
                }
                if done[src] && self.node_produces(src) {
                    proof {
                        assert(self.producers(done_set(done@)).contains(
                            self.edges()[q as int].0,
                        ));
                    }
                    return true;
                }
            }
            q = q + 1;
        }
        false
    }

    /// Whether node `i` belongs in the next wave: not yet run, its
    /// required inputs all produced.
    fn node_in_wave(
        &self,
        edges: &Vec<(usize, usize, u8)>,
        done: &Vec<bool>,
        i: usize,
    ) -> (r: bool)
        requires
            self.wf(),
            0 <= i < self.n(),
            done@.len() == self.n(),
            edges@.len() == self.edges().len(),
            forall|k: int|
                0 <= k < edges@.len() ==> ((#[trigger] edges@[k]).0 as int, edges@[k].1 as int,
                edges@[k].2 as int) == self.edges()[k],
        ensures
            r == self.wave_of(done_set(done@)).contains(i as int),
    {
        if done[i] {
            return false;
        }
        let frames = self.tools[i].action.frames();
        if frames >= 1 && !self.slot_delivered(edges, done, i, 0) {
            return false;
        }
        if frames == 2 && !self.slot_delivered(edges, done, i, 1) {
            return false;
        }
        true
    }

    /// The run's waves, computed without running anything: wave for wave,
    /// which nodes execute, until no node can.  The run itself executes
    /// exactly these nodes in exactly these waves.
    ///
    /// Termination law: for a well-formed plan the number of waves is
    /// finite, at most the number of nodes; `lemma_waves_follow_levels`
    /// states the exact count for acyclic, fully wired plans.
    pub fn waves(&self) -> (r: Vec<Vec<usize>>)
        requires
            self.wf(),
        ensures
            forall|w: int| 0 <= w < r@.len() ==> idx_set((#[trigger] r@[w])@) == self.wave_at(w as nat),
            forall|w: int| 0 <= w < r@.len() ==> (#[trigger] r@[w])@.len() > 0,
            forall|w: int, a: int, b: int|
                0 <= w < r@.len() && 0 <= a < b < r@[w]@.len() ==> #[trigger] r@[w]@[a]
                    < #[trigger] r@[w]@[b],
            r@.len() <= self.n(),
            self.wave_at(r@.len() as nat) == Set::<int>::empty(),
    {
        let n = self.tools.len();
        let edges = graph_edge_list(&self.graph);
        let mut done: Vec<bool> = Vec::new();
        let mut i: usize = 0;
        while i < n
            invariant
                0 <= i <= n,
                done@.len() == i,
                forall|j: int| 0 <= j < i ==> !(#[trigger] done@[j]),
            decreases n - i,
        {
            done.push(false);
            i = i + 1;
        }
        proof {
            assert(done_set(done@) =~= Set::<int>::empty());
            assert forall|j: int| 0 <= j < done@.len() implies !done@[j] by {}
            lemma_count_trues_zero(done@);
        }
        let mut out: Vec<Vec<usize>> = Vec::new();
        let mut finished: usize = 0;
        loop
            invariant
                self.wf(),
                n == self.tools@.len(),
                done@.len() == n,
                edges@.len() == self.edges().len(),
                forall|k: int|
                    0 <= k < edges@.len() ==> ((#[trigger] edges@[k]).0 as int, edges@[k].1 as int,
                    edges@[k].2 as int) == self.edges()[k],
                finished as int == count_trues(done@),
                finished <= n,
                done_set(done@) == self.executed_upto(out@.len() as nat),
                out@.len() <= finished,
                forall|w: int|
                    0 <= w < out@.len() ==> idx_set((#[trigger] out@[w])@) == self.wave_at(w as nat),
                forall|w: int| 0 <= w < out@.len() ==> (#[trigger] out@[w])@.len() > 0,
                forall|w: int, a: int, b: int|
                    0 <= w < out@.len() && 0 <= a < b < out@[w]@.len() ==> #[trigger] out@[w]@[a]
                        < #[trigger] out@[w]@[b],
            ensures
                self.wave_at(out@.len() as nat) == Set::<int>::empty(),
                out@.len() <= n,
            decreases n - finished,
        {
            // collect the next wave
            let mut wave: Vec<usize> = Vec::new();
            let mut i: usize = 0;
            while i < n
                invariant
                    0 <= i <= n,
                    self.wf(),
                    n == self.tools@.len(),
                    done@.len() == n,
                    edges@.len() == self.edges().len(),
                    forall|k: int|
                        0 <= k < edges@.len() ==> ((#[trigger] edges@[k]).0 as int, edges@[k].1
                            as int, edges@[k].2 as int) == self.edges()[k],
                    forall|a: int, b: int|
                        0 <= a < b < wave@.len() ==> (#[trigger] wave@[a]) < (#[trigger] wave@[b]),
                    forall|a: int|
                        0 <= a < wave@.len() ==> 0 <= (#[trigger] wave@[a]) < i,
                    forall|a: int|
                        0 <= a < wave@.len() ==> self.wave_of(done_set(done@)).contains(
                            (#[trigger] wave@[a]) as int,
                        ),
                    forall|j: int|
                        0 <= j < i && self.wave_of(done_set(done@)).contains(j) ==> exists|a: int|
                            0 <= a < wave@.len() && (#[trigger] wave@[a]) as int == j,
                decreases n - i,
            {
                let ghost prev = wave@;
                let grow = self.node_in_wave(&edges, &done, i);
                if grow {
                    wave.push(i);
                }
                proof {
                    assert forall|j: int|
                        0 <= j < i + 1 && self.wave_of(done_set(done@)).contains(j) implies exists|
                        a: int,
                    |
                        0 <= a < wave@.len() && (#[trigger] wave@[a]) as int == j by {
                        if j < i {
                            let a = choose|a: int|
                                0 <= a < prev.len() && (#[trigger] prev[a]) as int == j;
                            assert(wave@[a] as int == j);
                        } else {
                            assert(wave@[wave@.len() - 1] as int == j);
                        }
                    }
                }
                i = i + 1;
            }
            proof {
                assert(idx_set(wave@) =~= self.wave_of(done_set(done@)));
            }
            if wave.len() == 0 {
                proof {
                    assert(self.wave_of(done_set(done@)) =~= Set::<int>::empty());
                }
                break;
            }
            // mark the wave done
            let ghost done_before = done@;
            let ghost finished_before = finished as int;
            let wl = wave.len();
            let mut a: usize = 0;
            while a < wl
                invariant
                    0 <= a <= wl,
                    wl == wave@.len(),
                    done@.len() == n,
                    finished as int == count_trues(done@),
                    finished as int == finished_before + a,
                    finished <= n,
                    forall|x: int, y: int|
                        0 <= x < y < wave@.len() ==> (#[trigger] wave@[x]) < (#[trigger] wave@[y]),
                    forall|x: int|
                        0 <= x < wave@.len() ==> 0 <= (#[trigger] wave@[x]) < n,
                    forall|x: int|
                        0 <= x < wave@.len() ==> !done_before[(#[trigger] wave@[x]) as int],
                    forall|j: int|
                        0 <= j < n ==> (#[trigger] done@[j] <==> (done_before[j] || exists|x: int|
                            0 <= x < a && (#[trigger] wave@[x]) as int == j)),
                decreases wl - a,
            {
                let j = wave[a];
                proof {
                    if done@[j as int] {
                        if !done_before[j as int] {
                            let x = choose|x: int|
                                0 <= x < a && (#[trigger] wave@[x]) as int == j as int;
                            assert(wave@[x] < wave@[a as int]);
                        }
                        assert(false);
                    }
                    lemma_count_trues_update(done@, j as int);
                    lemma_count_trues_bounds(done@.update(j as int, true));
                }
                done[j] = true;
                finished = finished + 1;
                a = a + 1;
            }
            proof {
                assert(done_set(done@) =~= done_set(done_before).union(idx_set(wave@)));
                assert(self.executed_upto((out@.len() + 1) as nat) == self.executed_upto(
                    out@.len() as nat,
                ).union(self.wave_at(out@.len() as nat)));
            }
            out.push(wave);
        }
        out
    }
}

proof fn lemma_count_trues_zero(s: Seq<bool>)
    requires
        forall|j: int| 0 <= j < s.len() ==> !(#[trigger] s[j]),
    ensures
        count_trues(s) == 0,
    decreases s.len(),
{
    if s.len() > 0 {
        lemma_count_trues_zero(s.drop_last());
    }
}


impl Workflow {
    /// A level assignment for an acyclic, fully wired plan: every source
    /// sits at level 0, every edge climbs, every non-source sits one
    /// level above its highest producer, every required slot is wired,
    /// and every wired producer hands a result on.  `lvl[i]` is then the
    /// length of the longest producer chain from a source down to `i`.
    pub open spec fn level_ok(self, lvl: Map<int, int>) -> bool {
        &&& forall|i: int| 0 <= i < self.n() ==> lvl.dom().contains(i)
        &&& forall|i: int| 0 <= i < self.n() ==> lvl[i] >= 0
        &&& forall|i: int| 0 <= i < self.n() ==> (self.arity(i) == 0 <==> lvl[i] == 0)
        &&& forall|k: int|
            0 <= k < self.edges().len() ==> lvl[(#[trigger] self.edges()[k]).0] < lvl[self.edges()[k].1]
        &&& forall|i: int|
            0 <= i < self.n() && self.arity(i) >= 1 ==> exists|k: int|
                0 <= k < self.edges().len() && (#[trigger] self.edges()[k]).1 == i && lvl[self.edges()[k].0] == lvl[i] - 1
        &&& forall|i: int|
            0 <= i < self.n() && self.arity(i) >= 1 ==> exists|k: int|
                0 <= k < self.edges().len() && (#[trigger] self.edges()[k]).1 == i
                    && self.edges()[k].2 == 0
        &&& forall|i: int|
            0 <= i < self.n() && self.arity(i) == 2 ==> exists|k: int|
                0 <= k < self.edges().len() && (#[trigger] self.edges()[k]).1 == i
                    && self.edges()[k].2 == 1
        &&& forall|k: int|
            0 <= k < self.edges().len() ==> self.produces((#[trigger] self.edges()[k]).0)
    }

    /// The nodes sitting at level `l`.
    pub open spec fn level_nodes(self, lvl: Map<int, int>, l: int) -> Set<int> {
        Set::new(|i: int| 0 <= i < self.n() && lvl[i] == l)
    }

    /// The nodes sitting below level `l`.
    pub open spec fn below_level(self, lvl: Map<int, int>, l: int) -> Set<int> {
        Set::new(|i: int| 0 <= i < self.n() && lvl[i] < l)
    }
}

/// Each wave is one level: once the nodes below level `w` have run, the
/// nodes that can run are exactly those at level `w`.
proof fn lemma_wave_is_level(wf: Workflow, lvl: Map<int, int>, w: nat)
    requires
        wf.wf(),
        wf.level_ok(lvl),
    ensures
        wf.executed_upto(w) == wf.below_level(lvl, w as int),
        wf.wave_at(w) == wf.level_nodes(lvl, w as int),
    decreases w,
{
    if w > 0 {
        lemma_wave_is_level(wf, lvl, (w - 1) as nat);
        assert(wf.executed_upto(w) =~= wf.below_level(lvl, w as int));
    } else {
        assert(wf.executed_upto(0) =~= wf.below_level(lvl, 0));
    }
    let done = wf.below_level(lvl, w as int);
    // every node at level w can run now
    assert forall|i: int|
        0 <= i < wf.n() && lvl[i] == w as int implies wf.wave_of(done).contains(i) by {
        if wf.arity(i) >= 1 {
            let k0 = choose|k: int|
                0 <= k < wf.edges().len() && (#[trigger] wf.edges()[k]).1 == i && wf.edges()[k].2
                    == 0;
            assert(wf.edge_ok(wf.edges()[k0]));
            assert(lvl[wf.edges()[k0].0] < lvl[i]);
            assert(wf.producers(done).contains(wf.edges()[k0].0));
            assert(wf.delivered(wf.producers(done), i, 0));
            if wf.arity(i) == 2 {
                let k1 = choose|k: int|
                    0 <= k < wf.edges().len() && (#[trigger] wf.edges()[k]).1 == i && wf.edges()[k].2 == 1;
                assert(wf.edge_ok(wf.edges()[k1]));
                assert(wf.producers(done).contains(wf.edges()[k1].0));
                assert(wf.delivered(wf.producers(done), i, 1));
            }
        }
    }
    // no node above level w can: its highest producer has not run
    assert forall|i: int|
        wf.wave_of(done).contains(i) implies lvl[i] == w as int by {
        assert(0 <= i < wf.n());
        assert(lvl[i] >= w as int);
        if lvl[i] > w as int {
            assert(wf.arity(i) >= 1);
            let kw = choose|k: int|
                0 <= k < wf.edges().len() && (#[trigger] wf.edges()[k]).1 == i && lvl[wf.edges()[k].0] == lvl[i] - 1;
            let c = wf.edges()[kw].2;
            assert(wf.edge_ok(wf.edges()[kw]));
            assert(wf.delivered(wf.producers(done), i, c)) by {
                if c == 0 {
                    assert(wf.delivered(wf.producers(done), i, 0));
                } else {
                    assert(wf.arity(i) == 2);
                    assert(wf.delivered(wf.producers(done), i, 1));
                }
            }
            let kd = choose|k: int|
                0 <= k < wf.edges().len() && (#[trigger] wf.edges()[k]).1 == i && wf.edges()[k].2
                    == c && wf.producers(done).contains(wf.edges()[k].0);
            // only one edge feeds this slot, so the delivering producer is
            // the level witness -- which has not run
            if kd < kw {
                assert(wf.edges()[kd].1 == wf.edges()[kw].1);
            } else if kd > kw {
                assert(wf.edges()[kd].1 == wf.edges()[kw].1);
            }
            assert(kd == kw);
            assert(done.contains(wf.edges()[kw].0));
            assert(lvl[wf.edges()[kw].0] < w as int);
            assert(false);
        }
    }
    assert(wf.wave_at(w) =~= wf.level_nodes(lvl, w as int));
}

/// Every level from 0 up to an inhabited level is inhabited: each
/// non-source sits one level above some producer.
proof fn lemma_levels_inhabited(wf: Workflow, lvl: Map<int, int>, i: int, l: int)
    requires
        wf.wf(),
        wf.level_ok(lvl),
        0 <= i < wf.n(),
        0 <= l <= lvl[i],
    ensures
        exists|j: int| 0 <= j < wf.n() && lvl[j] == l,
    decreases lvl[i] - l,
{
    if lvl[i] == l {
        assert(0 <= i < wf.n() && lvl[i] == l);
    } else {
        assert(lvl[i] > 0);
        assert(wf.arity(i) >= 1) by {
            if wf.arity(i) == 0 {
                assert(lvl[i] == 0);
            }
        }
        let kw = choose|k: int|
            0 <= k < wf.edges().len() && (#[trigger] wf.edges()[k]).1 == i && lvl[wf.edges()[k].0] == lvl[i] - 1;
        assert(wf.edge_ok(wf.edges()[kw]));
        lemma_levels_inhabited(wf, lvl, wf.edges()[kw].0, l);
    }
}

/// Law (wave count): a well-formed acyclic plan runs in exactly one wave
/// per level: wave `w` executes exactly the nodes whose longest producer
/// chain from a source has length `w`, every wave up to the deepest
/// level runs something, and the wave after the deepest level runs
/// nothing -- the run ends after `maxl + 1` waves, one more than the
/// longest path from a source to the farthest reachable node.
pub proof fn lemma_waves_follow_levels(wf: Workflow, lvl: Map<int, int>, maxl: int)
    requires
        wf.wf(),
        wf.level_ok(lvl),
        maxl >= 0,
        forall|i: int| 0 <= i < wf.n() ==> lvl[i] <= maxl,
        exists|i: int| 0 <= i < wf.n() && lvl[i] == maxl,
    ensures
        forall|w: nat| wf.wave_at(w) == wf.level_nodes(lvl, w as int),
        forall|w: nat| w <= maxl ==> wf.wave_at(w) != Set::<int>::empty(),
        forall|w: nat| w > maxl ==> wf.wave_at(w) == Set::<int>::empty(),
{
    assert forall|w: nat| wf.wave_at(w) == wf.level_nodes(lvl, w as int) by {
        lemma_wave_is_level(wf, lvl, w);
    }
    let top = choose|i: int| 0 <= i < wf.n() && lvl[i] == maxl;
    assert forall|w: nat| w <= maxl implies wf.wave_at(w) != Set::<int>::empty() by {
        lemma_levels_inhabited(wf, lvl, top, w as int);
        let j = choose|j: int| 0 <= j < wf.n() && lvl[j] == w as int;
        assert(wf.level_nodes(lvl, w as int).contains(j));
    }
    assert forall|w: nat| w > maxl implies wf.wave_at(w) == Set::<int>::empty() by {
        assert(wf.level_nodes(lvl, w as int) =~= Set::<int>::empty());
    }
}

} // verus!
