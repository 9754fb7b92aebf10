//! Update graph: the releases an upstream service knows and the edges that
//! say which release can be updated to which.

use vstd::prelude::*;
use vstd::string::*;

verus! {

/// One update payload, identified by its version.
#[derive(Debug, PartialEq, Eq)]
pub struct Release {
    pub version: String,
    pub payload: String,
}

/// What a [`Release`] says: its two texts.
pub struct ReleaseView {
    pub version: Seq<char>,
    pub payload: Seq<char>,
}

impl View for Release {
    type V = ReleaseView;

    open spec fn view(&self) -> ReleaseView {
        ReleaseView { version: self.version@, payload: self.payload@ }
    }
}

impl Clone for Release {
    fn clone(&self) -> (r: Self)
        ensures
            r == *self,
    {
        Release { version: self.version.clone(), payload: self.payload.clone() }
    }
}

impl Release {
    pub fn new(version: String, payload: String) -> (r: Self)
        ensures
            r.version == version,
            r.payload == payload,
    {
        Release { version, payload }
    }

    /// The version this release is known by.
    pub fn version(&self) -> (v: &String)
        ensures
            v == self.version,
    {
        &self.version
    }

    /// Whether two releases say the same.
    pub fn same_as(&self, other: &Release) -> (same: bool)
        ensures
            same == (self@ == other@),
    {
        self.version == other.version && self.payload == other.payload
    }
}

/// The views of a sequence of releases, in order.
pub open spec fn release_views(releases: Seq<Release>) -> Seq<ReleaseView> {
    releases.map_values(|r: Release| r@)
}

/// The view of a release that may be absent.
pub open spec fn release_option_view(release: Option<Release>) -> Option<ReleaseView> {
    match release {
        Some(r) => Some(r@),
        None => None,
    }
}

/// What a [`Graph`] holds: its releases, and its edges as pairs of
/// positions among them, source first.
pub struct GraphView {
    pub nodes: Seq<ReleaseView>,
    pub edges: Seq<(usize, usize)>,
}

impl GraphView {
    /// Every edge joins two releases of the graph.
    pub open spec fn well_formed(self) -> bool {
        forall|i: int|
            0 <= i < self.edges.len() ==> (#[trigger] self.edges[i]).0 < self.nodes.len()
                && self.edges[i].1 < self.nodes.len()
    }

    /// Some release of the graph has this version.
    pub open spec fn has_version(self, version: Seq<char>) -> bool {
        exists|i: int| 0 <= i < self.nodes.len() && (#[trigger] self.nodes[i]).version == version
    }

    /// `id` is the first release that has this version.
    pub open spec fn is_first_with_version(self, version: Seq<char>, id: int) -> bool {
        &&& 0 <= id < self.nodes.len()
        &&& self.nodes[id].version == version
        &&& forall|j: int| 0 <= j < id ==> (#[trigger] self.nodes[j]).version != version
    }

    /// The position of the first release with this version, if any has it.
    pub open spec fn find_by_version(self, version: Seq<char>) -> Option<int> {
        if self.has_version(version) {
            Some(choose|id: int| self.is_first_with_version(version, id))
        } else {
            None
        }
    }

    /// The graph with only its first `n` edges.
    pub open spec fn upto(self, n: int) -> GraphView {
        GraphView { nodes: self.nodes, edges: self.edges.take(n) }
    }

    /// The releases that an edge leads to from `source`, in the order of
    /// the edges.
    pub open spec fn next_releases(self, source: int) -> Seq<ReleaseView> {
        self.edges.filter(|e: (usize, usize)| e.0 == source).map_values(
            |e: (usize, usize)| self.nodes[e.1 as int],
        )
    }
}

/// Taking one more edge into account either leaves the releases after
/// `source` as they were, or adds the target of that edge at the end.
pub proof fn lemma_next_releases_step(graph: GraphView, source: int, n: int)
    requires
        0 <= n < graph.edges.len(),
    ensures
        graph.upto(n + 1).next_releases(source) == if graph.edges[n].0 == source {
            graph.upto(n).next_releases(source).push(graph.nodes[graph.edges[n].1 as int])
        } else {
            graph.upto(n).next_releases(source)
        },
{
    let more = graph.upto(n + 1);
    let less = graph.upto(n);
    let from_source = |e: (usize, usize)| e.0 == source;
    assert(more.edges.drop_last() =~= less.edges);
    assert(more.edges.last() == graph.edges[n]);
    reveal(Seq::filter);
    assert(more.edges.filter(from_source) == if graph.edges[n].0 == source {
        less.edges.filter(from_source).push(graph.edges[n])
    } else {
        less.edges.filter(from_source)
    });
    if graph.edges[n].0 == source {
        assert(more.next_releases(source) =~= less.next_releases(source).push(
            graph.nodes[graph.edges[n].1 as int],
        ));
    } else {
        assert(more.next_releases(source) =~= less.next_releases(source));
    }
}

/// Where a version appears in a graph, it has exactly one first position.
pub proof fn lemma_first_with_version_is_unique(
    graph: GraphView,
    version: Seq<char>,
    a: int,
    b: int,
)
    requires
        graph.is_first_with_version(version, a),
        graph.is_first_with_version(version, b),
    ensures
        a == b,
{
    if a < b {
        assert(graph.nodes[a].version != version);
    } else if b < a {
        assert(graph.nodes[b].version != version);
    }
}

/// A graph of releases whose edges all stay inside it.
#[derive(Debug, PartialEq, Eq)]
pub struct Graph {
    nodes: Vec<Release>,
    edges: Vec<(usize, usize)>,
}

impl View for Graph {
    type V = GraphView;

    closed spec fn view(&self) -> GraphView {
        GraphView { nodes: release_views(self.nodes@), edges: self.edges@ }
    }
}

impl Graph {
    #[verifier::type_invariant]
    spec fn edges_in_range(self) -> bool {
        self@.well_formed()
    }

    /// Builds a graph from its releases and edges. An edge that names a
    /// position outside `nodes` makes the whole graph unusable.
    pub fn new(nodes: Vec<Release>, edges: Vec<(usize, usize)>) -> (graph: Option<Graph>)
        ensures
            match graph {
                Some(g) => g@ == (GraphView { nodes: release_views(nodes@), edges: edges@ })
                    && g@.well_formed(),
                None => !(GraphView { nodes: release_views(nodes@), edges: edges@ }).well_formed(),
            },
    {
        let ghost view = GraphView { nodes: release_views(nodes@), edges: edges@ };
        let mut i: usize = 0;
        while i < edges.len()
            invariant
                i <= edges.len(),
                view == (GraphView { nodes: release_views(nodes@), edges: edges@ }),
                forall|k: int|
                    0 <= k < i ==> (#[trigger] edges@[k]).0 < nodes@.len() && edges@[k].1
                        < nodes@.len(),
            decreases edges.len() - i,
        {
            if edges[i].0 >= nodes.len() || edges[i].1 >= nodes.len() {
                assert(!(view.edges[i as int].0 < view.nodes.len() && view.edges[i as int].1
                    < view.nodes.len()));
                return None;
            }
            i += 1;
        }
        Some(Graph { nodes, edges })
    }

    /// The position of the first release known by `version`.
    pub fn find_by_version(&self, version: &str) -> (id: Option<usize>)
        ensures
            self@.well_formed(),
            match id {
                Some(i) => self@.find_by_version(version@) == Some(i as int)
                    && self@.is_first_with_version(version@, i as int),
                None => self@.find_by_version(version@) is None,
            },
    {
        proof {
            use_type_invariant(self);
        }
        let wanted = String::from_str(version);
        let mut i: usize = 0;
        while i < self.nodes.len()
            invariant
                i <= self.nodes.len(),
                self@.well_formed(),
                wanted@ == version@,
                forall|j: int| 0 <= j < i ==> (#[trigger] self@.nodes[j]).version != version@,
            decreases self.nodes.len() - i,
        {
            if self.nodes[i].version == wanted {
                proof {
                    assert(self@.nodes[i as int].version == version@);
                    assert(self@.is_first_with_version(version@, i as int));
                    let chosen = choose|id: int| self@.is_first_with_version(version@, id);
                    lemma_first_with_version_is_unique(self@, version@, chosen, i as int);
                }
                return Some(i);
            }
            i += 1;
        }
        None
    }

    /// The releases that an edge leads to from the release at `source`, in
    /// the order of the edges.
    pub fn next_releases(&self, source: usize) -> (next: Vec<Release>)
        ensures
            release_views(next@) == self@.next_releases(source as int),
    {
        proof {
            use_type_invariant(self);
        }
        let mut next: Vec<Release> = Vec::new();
        let mut i: usize = 0;
        proof {
            assert(self@.upto(0).edges =~= Seq::<(usize, usize)>::empty());
            reveal(Seq::filter);
        }
        while i < self.edges.len()
            invariant
                i <= self.edges.len(),
                self@.well_formed(),
                self@.edges == self.edges@,
                self@.nodes == release_views(self.nodes@),
                release_views(next@) =~= self@.upto(i as int).next_releases(source as int),
            decreases self.edges.len() - i,
        {
            let edge = self.edges[i];
            proof {
                lemma_next_releases_step(self@, source as int, i as int);
                assert(self@.edges[i as int] == edge);
            }
            if edge.0 == source {
                let release = self.nodes[edge.1].clone();
                next.push(release);
            }
            i += 1;
        }
        assert(self@.upto(i as int).edges =~= self@.edges);
        next
    }
}

} // verus!
