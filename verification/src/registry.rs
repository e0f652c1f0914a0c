//! The host registry: the one topology graph of this process, with the local
//! host as its designated node.

use vstd::prelude::*;
use petgraph::graph::Graph;
use petgraph::Directed;
use crate::host::Host;
use crate::host::HostView;
use crate::host::host_views;
use crate::topology::graph_add_edge;
use crate::topology::graph_add_node;
use crate::topology::graph_edge_count;
use crate::topology::graph_empty;
use crate::topology::graph_hosts;
use crate::topology::graph_links;
use crate::topology::graph_node_count;
use crate::topology::graph_node_weight;
use crate::topology::graph_astar;
use crate::topology::is_cheapest_path;
use crate::topology::address_reachable;
use crate::topology::arrives_at;
use crate::topology::lemma_walk_arrives_by_link;
use crate::topology::lemma_walk_nodes_within;
use crate::topology::links_within;
use crate::topology::total_cost;
use crate::topology::walk_cost;
use crate::topology::walk_nodes;
use crate::topology::INDEX_LIMIT;

verus! {

/// Why the registry refused a change.
#[derive(Clone, Copy, Debug, PartialEq, Eq, Structural)]
pub enum RegistryError {
    /// The graph cannot index another node or link.
    Full,
    /// A link names a node that was never registered.
    UnknownNode,
    /// The link's cost would take the sum of all link costs beyond `u32`.
    CostOverflow,
}

/// Why the planner has no route to offer.
#[derive(Clone, Copy, Debug, PartialEq, Eq, Structural)]
pub enum PathError {
    /// No chain of links leads from the local host to the target.
    NotFound,
}

/// The cost of the link that an acknowledged host gets from the local host.
pub const LINK_COST: u32 = 0;

/// The topology as this process sees it. Nodes are added and never removed, so
/// a node's index is a stable handle.
pub struct FederationService {
    graph: Graph<Host, u32, Directed, u32>,
    me: u32,
    spent: u32,
}

/// Whether node `index` is the first that holds a host at `addr`.
pub open spec fn is_first_at(hosts: Seq<HostView>, addr: Seq<char>, index: int) -> bool {
    &&& 0 <= index < hosts.len()
    &&& hosts[index].addr == addr
    &&& forall|j: int| 0 <= j < index ==> hosts[j].addr != addr
}

/// Whether some node holds a host at `addr`.
pub open spec fn knows(hosts: Seq<HostView>, addr: Seq<char>) -> bool {
    exists|i: int| 0 <= i < hosts.len() && hosts[i].addr == addr
}

impl FederationService {
    /// Every known host, by node index.
    pub closed spec fn hosts(&self) -> Seq<HostView> {
        graph_hosts(self.graph)
    }

    /// Every link, by insertion: source node, target node, cost.
    pub closed spec fn links(&self) -> Seq<(u32, u32, u32)> {
        graph_links(self.graph)
    }

    /// The node of the local host.
    pub closed spec fn origin(&self) -> int {
        self.me as int
    }

    /// What [`FederationService::link`] answers: the first reason to refuse the
    /// link, or success.
    pub open spec fn link_outcome(&self, from: u32, to: u32, cost: u32) -> Result<(), RegistryError> {
        if from >= self.hosts().len() || to >= self.hosts().len() {
            Err(RegistryError::UnknownNode)
        } else if self.links().len() >= INDEX_LIMIT {
            Err(RegistryError::Full)
        } else if total_cost(self.links()) + cost > u32::MAX {
            Err(RegistryError::CostOverflow)
        } else {
            Ok(())
        }
    }

    /// The registry's invariant: the local host is a node, every link joins
    /// two nodes, and the costs of all links together fit in `u32`.
    pub closed spec fn wf(&self) -> bool {
        &&& self.me < self.hosts().len() <= INDEX_LIMIT
        &&& self.links().len() <= INDEX_LIMIT
        &&& links_within(self.links(), self.hosts().len() as int)
        &&& self.spent == total_cost(self.links())
    }

    /// What the invariant gives: the local host is one of the nodes, the graph
    /// is within what its indices reach, every link joins two nodes, and the
    /// costs of all links together fit in `u32`.
    pub proof fn lemma_invariant(&self)
        requires
            self.wf(),
        ensures
            0 <= self.origin() < self.hosts().len() <= INDEX_LIMIT,
            self.links().len() <= INDEX_LIMIT,
            links_within(self.links(), self.hosts().len() as int),
            total_cost(self.links()) <= u32::MAX,
    {
    }

    /// A registry that knows the local host alone.
    pub fn new(host: Host) -> (service: FederationService)
        ensures
            service.wf(),
            service.hosts() == seq![host@],
            service.links() == Seq::<(u32, u32, u32)>::empty(),
            service.origin() == 0,
    {
        let mut graph = graph_empty();
        let me = graph_add_node(&mut graph, host);
        proof {
            assert(graph_hosts(graph) =~= seq![host@]);
        }
        FederationService { graph, me, spent: 0 }
    }

    /// The handle of the local host's node.
    pub fn self_handle(&self) -> (handle: u32)
        requires
            self.wf(),
        ensures
            handle == self.origin(),
            handle < self.hosts().len(),
    {
        self.me
    }

    /// Inserts `host` as a new node and returns its handle. An address that is
    /// already known gets a second node. Fails only when the graph is full.
    pub fn register(&mut self, host: Host) -> (handle: Result<u32, RegistryError>)
        requires
            old(self).wf(),
        ensures
            final(self).wf(),
            final(self).links() == old(self).links(),
            final(self).origin() == old(self).origin(),
            match handle {
                Ok(index) => {
                    &&& old(self).hosts().len() < INDEX_LIMIT
                    &&& index == old(self).hosts().len()
                    &&& final(self).hosts() == old(self).hosts().push(host@)
                },
                Err(e) => {
                    &&& e == RegistryError::Full
                    &&& old(self).hosts().len() == INDEX_LIMIT
                    &&& final(self).hosts() == old(self).hosts()
                },
            },
    {
        if graph_node_count(&self.graph) >= INDEX_LIMIT {
            return Err(RegistryError::Full);
        }
        let index = graph_add_node(&mut self.graph, host);
        Ok(index)
    }

    /// Inserts a directed link from node `from` to node `to` at `cost`.
    /// Parallel links are kept. Nothing changes when the link is refused.
    pub fn link(&mut self, from: u32, to: u32, cost: u32) -> (done: Result<(), RegistryError>)
        requires
            old(self).wf(),
        ensures
            final(self).wf(),
            final(self).hosts() == old(self).hosts(),
            final(self).origin() == old(self).origin(),
            done == old(self).link_outcome(from, to, cost),
            done is Ok ==> final(self).links() == old(self).links().push((from, to, cost)),
            done is Err ==> final(self).links() == old(self).links(),
    {
        let nodes = graph_node_count(&self.graph);
        if from as usize >= nodes || to as usize >= nodes {
            return Err(RegistryError::UnknownNode);
        }
        if graph_edge_count(&self.graph) >= INDEX_LIMIT {
            return Err(RegistryError::Full);
        }
        if cost > u32::MAX - self.spent {
            return Err(RegistryError::CostOverflow);
        }
        let ghost before = graph_links(self.graph);
        graph_add_edge(&mut self.graph, from, to, cost);
        self.spent = self.spent + cost;
        proof {
            assert(before.push((from, to, cost)).drop_last() =~= before);
        }
        Ok(())
    }

    /// The first node that holds a host at `addr`, if any does.
    pub fn lookup(&self, addr: &String) -> (found: Option<u32>)
        requires
            self.wf(),
        ensures
            match found {
                Some(index) => is_first_at(self.hosts(), addr@, index as int),
                None => !knows(self.hosts(), addr@),
            },
    {
        let nodes = graph_node_count(&self.graph);
        let mut index: u32 = 0;
        while (index as usize) < nodes
            invariant
                nodes == self.hosts().len() <= INDEX_LIMIT,
                index <= nodes,
                forall|j: int| 0 <= j < index ==> self.hosts()[j].addr != addr@,
            decreases nodes - index,
        {
            match graph_node_weight(&self.graph, index) {
                Some(host) => {
                    if host.is_at(addr) {
                        return Some(index);
                    }
                },
                None => {},
            }
            index = index + 1;
        }
        None
    }

    /// Every known host, in insertion order.
    pub fn snapshot_hosts(&self) -> (all: Vec<Host>)
        requires
            self.wf(),
        ensures
            host_views(all@) == self.hosts(),
    {
        let nodes = graph_node_count(&self.graph);
        let mut all: Vec<Host> = Vec::new();
        let mut index: u32 = 0;
        while (index as usize) < nodes
            invariant
                nodes == self.hosts().len() <= INDEX_LIMIT,
                index <= nodes,
                all@.len() == index,
                forall|j: int| 0 <= j < index ==> all@[j]@ == self.hosts()[j],
            decreases nodes - index,
        {
            match graph_node_weight(&self.graph, index) {
                Some(host) => {
                    all.push(host.clone());
                },
                None => {},
            }
            index = index + 1;
        }
        proof {
            assert(host_views(all@) =~= self.hosts());
        }
        all
    }

    /// Registers `host` as a new node, links the local host to it at
    /// [`LINK_COST`], and returns every known host, the new one last. Nothing
    /// changes when the graph cannot take both the node and the link.
    pub fn acknowledge(&mut self, host: Host) -> (known: Result<Vec<Host>, RegistryError>)
        requires
            old(self).wf(),
        ensures
            final(self).wf(),
            final(self).origin() == old(self).origin(),
            match known {
                Ok(all) => {
                    &&& old(self).hosts().len() < INDEX_LIMIT
                    &&& old(self).links().len() < INDEX_LIMIT
                    &&& final(self).hosts() == old(self).hosts().push(host@)
                    &&& final(self).links() == old(self).links().push(
                        (old(self).origin() as u32, old(self).hosts().len() as u32, LINK_COST),
                    )
                    &&& host_views(all@) == final(self).hosts()
                },
                Err(e) => {
                    &&& e == RegistryError::Full
                    &&& (old(self).hosts().len() == INDEX_LIMIT || old(self).links().len()
                        == INDEX_LIMIT)
                    &&& final(self).hosts() == old(self).hosts()
                    &&& final(self).links() == old(self).links()
                },
            },
    {
        if graph_node_count(&self.graph) >= INDEX_LIMIT || graph_edge_count(&self.graph)
            >= INDEX_LIMIT {
            return Err(RegistryError::Full);
        }
        let ghost before = graph_links(self.graph);
        let me = self.me;
        let node = graph_add_node(&mut self.graph, host);
        graph_add_edge(&mut self.graph, me, node, LINK_COST);
        proof {
            assert(before.push((me, node, LINK_COST)).drop_last() =~= before);
        }
        Ok(self.snapshot_hosts())
    }

    /// The hosts at the given nodes, in order.
    fn hosts_along(&self, nodes: &Vec<u32>) -> (path: Vec<Host>)
        requires
            self.wf(),
            forall|k: int| 0 <= k < nodes@.len() ==> nodes@[k] < self.hosts().len(),
        ensures
            host_views(path@) == nodes@.map_values(|n: u32| self.hosts()[n as int]),
    {
        let mut path: Vec<Host> = Vec::new();
        let mut k: usize = 0;
        while k < nodes.len()
            invariant
                self.wf(),
                k <= nodes@.len(),
                path@.len() == k,
                forall|j: int| 0 <= j < nodes@.len() ==> nodes@[j] < self.hosts().len(),
                forall|j: int| 0 <= j < k ==> path@[j]@ == self.hosts()[nodes@[j] as int],
            decreases nodes@.len() - k,
        {
            match graph_node_weight(&self.graph, nodes[k]) {
                Some(host) => {
                    path.push(host.clone());
                },
                None => {},
            }
            k = k + 1;
        }
        proof {
            assert(host_views(path@) =~= nodes@.map_values(|n: u32| self.hosts()[n as int]));
        }
        path
    }

    /// The cheapest route from the local host to a host at `target`'s address,
    /// both ends included. A target at an unknown address is first registered
    /// as a new node, as far as the graph has room; nothing leads to it then.
    /// Which of several cheapest routes comes back is left open.
    pub fn request_path(&mut self, target: Host) -> (route: Result<Vec<Host>, PathError>)
        requires
            old(self).wf(),
        ensures
            final(self).wf(),
            final(self).links() == old(self).links(),
            final(self).origin() == old(self).origin(),
            final(self).hosts() == if knows(old(self).hosts(), target@.addr) || old(
                self,
            ).hosts().len() >= INDEX_LIMIT {
                old(self).hosts()
            } else {
                old(self).hosts().push(target@)
            },
            match route {
                Ok(path) => is_cheapest_path(
                    old(self).hosts(),
                    old(self).links(),
                    old(self).origin(),
                    target@.addr,
                    host_views(path@),
                ),
                Err(e) => e == PathError::NotFound && !address_reachable(
                    old(self).hosts(),
                    old(self).links(),
                    old(self).origin(),
                    target@.addr,
                ),
            },
    {
        let ghost before = self.hosts();
        let ghost links = self.links();
        let ghost from = self.me as int;
        let addr = target.addr.clone();
        let seen = self.lookup(&addr);
        if seen.is_none() {
            if graph_node_count(&self.graph) >= INDEX_LIMIT {
                return Err(PathError::NotFound);
            }
            graph_add_node(&mut self.graph, target);
        }
        let found = graph_astar(&self.graph, self.me, &addr);
        match found {
            Some((_, nodes)) => {
                let ghost route = nodes@.map_values(|n: u32| n as int);
                let ghost (walk, to) = choose|walk: Seq<int>, to: int|
                    {
                        &&& #[trigger] arrives_at(self.hosts(), links, walk, from, to, addr@)
                        &&& walk_nodes(links, walk, from) == route
                        &&& walk_cost(links, walk) == found->Some_0.0
                    };
                proof {
                    if seen is None {
                        assert(to == before.len());
                        lemma_walk_arrives_by_link(links, walk, from, to);
                    }
                    assert(self.hosts() == before);
                    lemma_walk_nodes_within(links, walk, from, to, before.len() as int);
                    assert forall|k: int| 0 <= k < nodes@.len() implies nodes@[k]
                        < self.hosts().len() by {
                        assert(route[k] == nodes@[k] as int);
                    }
                }
                let path = self.hosts_along(&nodes);
                proof {
                    assert(host_views(path@) =~= walk_nodes(links, walk, from).map_values(
                        |n: int| before[n],
                    ));
                    assert(arrives_at(before, links, walk, from, to, addr@));
                }
                Ok(path)
            },
            None => {
                proof {
                    assert forall|walk: Seq<int>, to: int|
                        !arrives_at(before, links, walk, from, to, addr@) by {
                        if arrives_at(before, links, walk, from, to, addr@) {
                            assert(arrives_at(self.hosts(), links, walk, from, to, addr@));
                        }
                    }
                }
                Err(PathError::NotFound)
            },
        }
    }
}

} // verus!
