//! The topology store: a directed multigraph of hosts with weighted links,
//! kept in a `petgraph` graph, and the mathematical vocabulary of walks over it.

use vstd::prelude::*;
use petgraph::graph::Graph;
use petgraph::graph::NodeIndex;
use petgraph::Directed;
use crate::host::Host;
use crate::host::HostView;

verus! {

/// `petgraph`'s adjacency-list graph, opaque to the verifier.
#[verifier::external_type_specification]
#[verifier::external_body]
#[verifier::reject_recursive_types(N)]
#[verifier::reject_recursive_types(E)]
#[verifier::reject_recursive_types(Ty)]
#[verifier::reject_recursive_types(Ix)]
pub struct ExGraph<N, E, Ty, Ix>(Graph<N, E, Ty, Ix>);

/// `petgraph`'s marker for directed edges.
#[verifier::external_type_specification]
#[verifier::external_body]
pub struct ExDirected(Directed);

/// The hosts a graph holds, by node index (insertion order).
pub uninterp spec fn graph_hosts(g: Graph<Host, u32, Directed, u32>) -> Seq<HostView>;

/// The links a graph holds, by edge index (insertion order): source node,
/// target node and cost of each.
pub uninterp spec fn graph_links(g: Graph<Host, u32, Directed, u32>) -> Seq<(u32, u32, u32)>;

/// The number of nodes, and of edges, that a graph indexed by `u32` cannot exceed.
pub const INDEX_LIMIT: usize = 0xffff_ffff;

/// A walk is a sequence of edge indices; this says that `walk` leads from
/// node `from` to node `to` along links that follow one another.
pub open spec fn is_walk(links: Seq<(u32, u32, u32)>, walk: Seq<int>, from: int, to: int) -> bool
    decreases walk.len(),
{
    if walk.len() == 0 {
        from == to
    } else {
        &&& 0 <= walk[0] < links.len()
        &&& links[walk[0]].0 == from
        &&& is_walk(links, walk.drop_first(), links[walk[0]].1 as int, to)
    }
}

/// The sum of the costs of the links of a walk.
pub open spec fn walk_cost(links: Seq<(u32, u32, u32)>, walk: Seq<int>) -> int
    decreases walk.len(),
{
    if walk.len() == 0 {
        0
    } else {
        links[walk[0]].2 + walk_cost(links, walk.drop_first())
    }
}

/// The nodes that a walk starting at `from` passes, `from` included.
pub open spec fn walk_nodes(links: Seq<(u32, u32, u32)>, walk: Seq<int>, from: int) -> Seq<int>
    decreases walk.len(),
{
    if walk.len() == 0 {
        seq![from]
    } else {
        seq![from] + walk_nodes(links, walk.drop_first(), links[walk[0]].1 as int)
    }
}

/// Whether some walk leads from `from` to `to`.
pub open spec fn reachable(links: Seq<(u32, u32, u32)>, from: int, to: int) -> bool {
    exists|walk: Seq<int>| is_walk(links, walk, from, to)
}

/// The sum of the costs of all links.
pub open spec fn total_cost(links: Seq<(u32, u32, u32)>) -> int
    decreases links.len(),
{
    if links.len() == 0 {
        0
    } else {
        total_cost(links.drop_last()) + links.last().2
    }
}

/// Whether `walk` leads from node `from` to node `to`, and `to` holds a host
/// at `addr`.
pub open spec fn arrives_at(
    hosts: Seq<HostView>,
    links: Seq<(u32, u32, u32)>,
    walk: Seq<int>,
    from: int,
    to: int,
    addr: Seq<char>,
) -> bool {
    &&& 0 <= to < hosts.len()
    &&& hosts[to].addr == addr
    &&& is_walk(links, walk, from, to)
}

/// Whether some walk leads from `from` to a node that holds a host at `addr`.
pub open spec fn address_reachable(
    hosts: Seq<HostView>,
    links: Seq<(u32, u32, u32)>,
    from: int,
    addr: Seq<char>,
) -> bool {
    exists|walk: Seq<int>, to: int| arrives_at(hosts, links, walk, from, to, addr)
}

/// Whether no walk from `from` to a node that holds a host at `addr` costs
/// less than `cost`.
pub open spec fn is_least_cost(
    hosts: Seq<HostView>,
    links: Seq<(u32, u32, u32)>,
    from: int,
    addr: Seq<char>,
    cost: int,
) -> bool {
    forall|walk: Seq<int>, to: int| #[trigger]
        arrives_at(hosts, links, walk, from, to, addr) ==> cost <= walk_cost(links, walk)
}

/// Whether `route`, with total `cost`, is a cheapest way from `from` to a host
/// at `addr`: the nodes of a walk to such a host that no other such walk
/// undercuts.
pub open spec fn is_cheapest_route(
    hosts: Seq<HostView>,
    links: Seq<(u32, u32, u32)>,
    from: int,
    addr: Seq<char>,
    cost: int,
    route: Seq<int>,
) -> bool {
    &&& exists|walk: Seq<int>, to: int|
        {
            &&& #[trigger] arrives_at(hosts, links, walk, from, to, addr)
            &&& walk_nodes(links, walk, from) == route
            &&& walk_cost(links, walk) == cost
        }
    &&& is_least_cost(hosts, links, from, addr, cost)
}

/// Whether `path` is what the hosts along a cheapest walk from `from` to a
/// host at `addr` read, the two ends included.
pub open spec fn is_cheapest_path(
    hosts: Seq<HostView>,
    links: Seq<(u32, u32, u32)>,
    from: int,
    addr: Seq<char>,
    path: Seq<HostView>,
) -> bool {
    exists|walk: Seq<int>, to: int|
        {
            &&& #[trigger] arrives_at(hosts, links, walk, from, to, addr)
            &&& path == walk_nodes(links, walk, from).map_values(|n: int| hosts[n])
            &&& is_least_cost(hosts, links, from, addr, walk_cost(links, walk))
        }
}

/// Whether every link joins two of the first `nodes` nodes.
pub open spec fn links_within(links: Seq<(u32, u32, u32)>, nodes: int) -> bool {
    forall|i: int|
        0 <= i < links.len() ==> (#[trigger] links[i]).0 < nodes && links[i].1 < nodes
}

/// A walk passes one node more than it has links, and stays among the nodes
/// that the links join.
pub proof fn lemma_walk_nodes_within(
    links: Seq<(u32, u32, u32)>,
    walk: Seq<int>,
    from: int,
    to: int,
    nodes: int,
)
    requires
        is_walk(links, walk, from, to),
        links_within(links, nodes),
        0 <= from < nodes,
    ensures
        walk_nodes(links, walk, from).len() == walk.len() + 1,
        walk_nodes(links, walk, from)[0] == from,
        walk_nodes(links, walk, from).last() == to,
        forall|k: int|
            0 <= k <= walk.len() ==> 0 <= #[trigger] walk_nodes(links, walk, from)[k] < nodes,
    decreases walk.len(),
{
    if walk.len() > 0 {
        let next = links[walk[0]].1 as int;
        lemma_walk_nodes_within(links, walk.drop_first(), next, to, nodes);
        let rest = walk_nodes(links, walk.drop_first(), next);
        assert forall|k: int| 0 <= k <= walk.len() implies 0 <= #[trigger] walk_nodes(
            links,
            walk,
            from,
        )[k] < nodes by {
            if k > 0 {
                assert(walk_nodes(links, walk, from)[k] == rest[k - 1]);
            }
        }
    }
}

/// A walk between two different nodes ends in a link into the second.
pub proof fn lemma_walk_arrives_by_link(
    links: Seq<(u32, u32, u32)>,
    walk: Seq<int>,
    from: int,
    to: int,
)
    requires
        is_walk(links, walk, from, to),
        from != to,
    ensures
        exists|i: int| 0 <= i < links.len() && (#[trigger] links[i]).1 == to,
    decreases walk.len(),
{
    let next = links[walk[0]].1 as int;
    if next != to {
        lemma_walk_arrives_by_link(links, walk.drop_first(), next, to);
    }
}

/// A walk between two different nodes starts with a link out of the first.
pub proof fn lemma_walk_departs_by_link(
    links: Seq<(u32, u32, u32)>,
    walk: Seq<int>,
    from: int,
    to: int,
)
    requires
        is_walk(links, walk, from, to),
        from != to,
    ensures
        exists|i: int| 0 <= i < links.len() && (#[trigger] links[i]).0 == from,
{
}

/// From a node that no link leaves, no host at another address can be reached.
pub proof fn lemma_no_way_out(
    hosts: Seq<HostView>,
    links: Seq<(u32, u32, u32)>,
    from: int,
    addr: Seq<char>,
)
    requires
        0 <= from < hosts.len(),
        hosts[from].addr != addr,
        forall|i: int| 0 <= i < links.len() ==> (#[trigger] links[i]).0 != from,
    ensures
        !address_reachable(hosts, links, from, addr),
{
    assert forall|walk: Seq<int>, to: int| !arrives_at(hosts, links, walk, from, to, addr) by {
        if arrives_at(hosts, links, walk, from, to, addr) {
            lemma_walk_departs_by_link(links, walk, from, to);
        }
    }
}

/// Once a link from `from` to `to` is added, `to` can be reached from `from`.
pub proof fn lemma_link_makes_reachable(links: Seq<(u32, u32, u32)>, from: u32, to: u32, cost: u32)
    ensures
        reachable(links.push((from, to, cost)), from as int, to as int),
{
    let grown = links.push((from, to, cost));
    let walk = seq![links.len() as int];
    assert(walk.drop_first() =~= Seq::<int>::empty());
    assert(is_walk(grown, walk.drop_first(), to as int, to as int));
    assert(is_walk(grown, walk, from as int, to as int));
}

/// `Graph::new`: a graph without nodes or edges.
#[verifier::external_body]
pub(crate) fn graph_empty() -> (g: Graph<Host, u32, Directed, u32>)
    ensures
        graph_hosts(g) == Seq::<HostView>::empty(),
        graph_links(g) == Seq::<(u32, u32, u32)>::empty(),
{
    Graph::new()
}

/// `Graph::node_count`: the number of nodes.
#[verifier::external_body]
pub(crate) fn graph_node_count(g: &Graph<Host, u32, Directed, u32>) -> (n: usize)
    ensures
        n == graph_hosts(*g).len(),
{
    g.node_count()
}

/// `Graph::edge_count`: the number of edges.
#[verifier::external_body]
pub(crate) fn graph_edge_count(g: &Graph<Host, u32, Directed, u32>) -> (n: usize)
    ensures
        n == graph_links(*g).len(),
{
    g.edge_count()
}

/// `Graph::add_node`: appends a node holding `host` and returns its index, the
/// number of nodes before the call. It panics at the index type's limit, which
/// the precondition keeps away. Edges are untouched.
#[verifier::external_body]
pub(crate) fn graph_add_node(g: &mut Graph<Host, u32, Directed, u32>, host: Host) -> (index: u32)
    requires
        graph_hosts(*old(g)).len() < INDEX_LIMIT,
    ensures
        graph_hosts(*final(g)) == graph_hosts(*old(g)).push(host@),
        graph_links(*final(g)) == graph_links(*old(g)),
        index == graph_hosts(*old(g)).len(),
{
    g.add_node(host).index() as u32
}

/// `Graph::add_edge`: appends a directed edge from node `from` to node `to`
/// with weight `cost`; parallel edges are kept. It panics when an endpoint is
/// missing or at the index type's limit, which the preconditions keep away.
/// Nodes are untouched.
#[verifier::external_body]
pub(crate) fn graph_add_edge(g: &mut Graph<Host, u32, Directed, u32>, from: u32, to: u32, cost: u32)
    requires
        from < graph_hosts(*old(g)).len(),
        to < graph_hosts(*old(g)).len(),
        graph_links(*old(g)).len() < INDEX_LIMIT,
    ensures
        graph_links(*final(g)) == graph_links(*old(g)).push((from, to, cost)),
        graph_hosts(*final(g)) == graph_hosts(*old(g)),
{
    g.add_edge(NodeIndex::new(from as usize), NodeIndex::new(to as usize), cost);
}

/// `Graph::node_weight`: the host held at node `index`, or nothing when the
/// graph has no such node.
#[verifier::external_body]
pub(crate) fn graph_node_weight(g: &Graph<Host, u32, Directed, u32>, index: u32) -> (host: Option<&Host>)
    ensures
        index < graph_hosts(*g).len() ==> host is Some && host->Some_0@ == graph_hosts(*g)[index as int],
        index >= graph_hosts(*g).len() ==> host is None,
{
    g.node_weight(NodeIndex::new(index as usize))
}

/// `petgraph::algo::astar` with "holds a host at `addr`" as the goal, the
/// link cost as the only metric and an estimate of zero everywhere, which
/// makes it a uniform-cost search. It returns the total cost and the nodes,
/// start to goal, of a cheapest walk from `start` to a node that holds a host
/// at `addr`, or nothing when no walk leads to such a node. Which of several
/// cheapest walks comes back is left open. The search adds a link's cost to
/// the cost of a cheapest walk that does not use that link, so it stays
/// within `u32` when all costs together do.
#[verifier::external_body]
pub(crate) fn graph_astar(g: &Graph<Host, u32, Directed, u32>, start: u32, addr: &String) -> (found: Option<(u32, Vec<u32>)>)
    requires
        start < graph_hosts(*g).len(),
        total_cost(graph_links(*g)) <= u32::MAX,
    ensures
        match found {
            Some((cost, route)) => is_cheapest_route(
                graph_hosts(*g),
                graph_links(*g),
                start as int,
                addr@,
                cost as int,
                route@.map_values(|n: u32| n as int),
            ),
            None => !address_reachable(graph_hosts(*g), graph_links(*g), start as int, addr@),
        },
{
    let found = petgraph::algo::astar(g, NodeIndex::new(start as usize), |n| g[n].is_at(addr), |e| *e.weight(), |_| 0u32);
    found.map(|(cost, route)| (cost, route.into_iter().map(|n| n.index() as u32).collect()))
}

} // verus!
