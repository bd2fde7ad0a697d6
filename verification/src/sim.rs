//! The registry of nodes: one filesystem for each node of the simulation.

use crate::fs::{Filesystem, FilesystemView};
use crate::state::{FileStateView, FsConfig};
use vstd::prelude::*;

verus! {

struct Node {
    id: u64,
    fs: Filesystem,
}

pub struct FsSimulator {
    nodes: Vec<Node>,
}

/// Whether some node has the identity `id`.
spec fn has_node(nodes: Seq<Node>, id: u64) -> bool {
    exists|i: int| 0 <= i < nodes.len() && (#[trigger] nodes[i]).id == id
}

/// A node with the identity `id`, where there is one.
spec fn node_of(nodes: Seq<Node>, id: u64) -> int {
    choose|i: int| 0 <= i < nodes.len() && (#[trigger] nodes[i]).id == id
}

/// No two nodes have the same identity.
spec fn distinct_ids(nodes: Seq<Node>) -> bool {
    forall|i: int, j: int|
        0 <= i < j < nodes.len() ==> (#[trigger] nodes[i]).id != (#[trigger] nodes[j]).id
}

/// The map that the nodes stand for.
spec fn nodes_map(nodes: Seq<Node>) -> Map<u64, FilesystemView> {
    Map::new(|id: u64| has_node(nodes, id), |id: u64| nodes[node_of(nodes, id)].fs@)
}

/// With distinct identities, the node at `i` is the one that the map finds
/// for its identity.
proof fn lemma_node_found(nodes: Seq<Node>, i: int)
    requires
        distinct_ids(nodes),
        0 <= i < nodes.len(),
    ensures
        has_node(nodes, nodes[i].id),
        node_of(nodes, nodes[i].id) == i,
{
    let j = node_of(nodes, nodes[i].id);
    assert(0 <= j < nodes.len() && nodes[j].id == nodes[i].id);
    if j < i {
        assert(nodes[j].id != nodes[i].id);
    } else if i < j {
        assert(nodes[i].id != nodes[j].id);
    }
}

/// A change to the filesystem of the node at `i` changes the map at that
/// node's identity and nowhere else.
proof fn lemma_node_changed(before: Seq<Node>, after: Seq<Node>, i: int)
    requires
        distinct_ids(before),
        0 <= i < before.len(),
        after.len() == before.len(),
        forall|j: int| 0 <= j < before.len() ==> (#[trigger] after[j]).id == before[j].id,
        forall|j: int| 0 <= j < before.len() && j != i ==> (#[trigger] after[j]).fs == before[j].fs,
    ensures
        distinct_ids(after),
        nodes_map(after) == nodes_map(before).insert(before[i].id, after[i].fs@),
{
    assert forall|a: int, b: int| 0 <= a < b < after.len() implies (#[trigger] after[a]).id != (
    #[trigger] after[b]).id by {
        assert(before[a].id != before[b].id);
    }
    let changed = nodes_map(before).insert(before[i].id, after[i].fs@);
    assert forall|id: u64| #[trigger] nodes_map(after).contains_key(id) <==> changed.contains_key(
        id,
    ) by {
        if has_node(after, id) {
            let j = node_of(after, id);
            assert(before[j].id == id);
        }
        if has_node(before, id) {
            let j = node_of(before, id);
            assert(after[j].id == id);
        }
        assert(after[i].id == before[i].id);
    }
    assert forall|id: u64| #[trigger] nodes_map(after).contains_key(id) implies nodes_map(
        after,
    )[id] == changed[id] by {
        let j = node_of(after, id);
        lemma_node_found(after, j);
        lemma_node_found(before, j);
        if j != i {
            assert(after[j].fs == before[j].fs);
        }
    }
    assert(nodes_map(after) =~= changed);
}

/// A node under an identity that no node has is one more key of the map.
proof fn lemma_node_pushed(nodes: Seq<Node>, node: Node)
    requires
        distinct_ids(nodes),
        !has_node(nodes, node.id),
    ensures
        distinct_ids(nodes.push(node)),
        nodes_map(nodes.push(node)) == nodes_map(nodes).insert(node.id, node.fs@),
{
    let grown = nodes.push(node);
    assert forall|i: int, j: int| 0 <= i < j < grown.len() implies (#[trigger] grown[i]).id != (
    #[trigger] grown[j]).id by {
        if j == nodes.len() {
            assert(nodes[i].id != node.id);
        } else {
            assert(nodes[i].id != nodes[j].id);
        }
    }
    let changed = nodes_map(nodes).insert(node.id, node.fs@);
    assert forall|id: u64| #[trigger] nodes_map(grown).contains_key(id) <==> changed.contains_key(
        id,
    ) by {
        if has_node(nodes, id) {
            let i = node_of(nodes, id);
            assert(grown[i].id == id);
        }
        if has_node(grown, id) && id != node.id {
            let i = node_of(grown, id);
            assert(nodes[i].id == id);
        }
        assert(grown[nodes.len() as int].id == node.id);
    }
    assert forall|id: u64| #[trigger] nodes_map(grown).contains_key(id) implies nodes_map(
        grown,
    )[id] == changed[id] by {
        let i = node_of(grown, id);
        lemma_node_found(grown, i);
        if i < nodes.len() {
            lemma_node_found(nodes, i);
        }
    }
    assert(nodes_map(grown) =~= changed);
}

/// What a reset leaves of a filesystem: no path, the files as they are, and
/// the configuration of a fresh node.
pub open spec fn reset_view(fs: FilesystemView) -> FilesystemView {
    FilesystemView {
        paths: Map::<Seq<char>, int>::empty(),
        files: fs.files,
        config: FsConfig { write_delay: 0, flush_delay: 0, allow_dirty_write: true },
    }
}

/// The filesystem of a node that was never there before.
pub open spec fn fresh_view() -> FilesystemView {
    FilesystemView {
        paths: Map::<Seq<char>, int>::empty(),
        files: Seq::<FileStateView>::empty(),
        config: FsConfig { write_delay: 0, flush_delay: 0, allow_dirty_write: true },
    }
}

impl View for FsSimulator {
    type V = Map<u64, FilesystemView>;

    closed spec fn view(&self) -> Map<u64, FilesystemView> {
        nodes_map(self.nodes@)
    }
}

impl FsSimulator {
    /// The invariant: no identity stands twice in the registry, and every
    /// node's filesystem is well-formed.
    pub closed spec fn wf(&self) -> bool {
        &&& distinct_ids(self.nodes@)
        &&& forall|i: int| 0 <= i < self.nodes@.len() ==> (#[trigger] self.nodes@[i]).fs.wf()
    }

    /// A registry without nodes.
    pub fn new() -> (sim: FsSimulator)
        ensures
            sim.wf(),
            sim@ == Map::<u64, FilesystemView>::empty(),
    {
        let sim = FsSimulator { nodes: Vec::new() };
        assert(sim@ =~= Map::<u64, FilesystemView>::empty());
        sim
    }

    /// Where the node `id` stands in the registry, if it is there.
    fn position(&self, id: u64) -> (at: Option<usize>)
        requires
            self.wf(),
        ensures
            at is Some <==> self@.contains_key(id),
            at is Some ==> at->0 < self.nodes@.len() && self.nodes@[at->0 as int].id == id
                && self.nodes@[at->0 as int].fs@ == self@[id],
    {
        let mut i: usize = 0;
        while i < self.nodes.len()
            invariant
                self.wf(),
                i <= self.nodes@.len(),
                forall|j: int| 0 <= j < i ==> (#[trigger] self.nodes@[j]).id != id,
            decreases self.nodes@.len() - i,
        {
            if self.nodes[i].id == id {
                proof {
                    lemma_node_found(self.nodes@, i as int);
                }
                return Some(i);
            }
            i += 1;
        }
        assert(!has_node(self.nodes@, id));
        None
    }

    /// Whether the registry holds the node `id`.
    pub fn contains_node(&self, id: u64) -> (found: bool)
        requires
            self.wf(),
        ensures
            found == self@.contains_key(id),
    {
        self.position(id).is_some()
    }

    /// Gives the node `id` a fresh filesystem: no file, no delays, dirty
    /// writes allowed. Where the node was there before, this is a reset: no
    /// path leads to its files any more, and they stay for the handles that
    /// were opened before.
    pub fn create_node(&mut self, id: u64)
        requires
            old(self).wf(),
        ensures
            final(self).wf(),
            final(self)@ == old(self)@.insert(
                id,
                if old(self)@.contains_key(id) {
                    reset_view(old(self)@[id])
                } else {
                    fresh_view()
                },
            ),
    {
        match self.position(id) {
            Some(at) => {
                self.reset_at(at);
            },
            None => {
                let node = Node { id, fs: Filesystem::new() };
                proof {
                    lemma_node_pushed(self.nodes@, node);
                }
                self.nodes.push(node);
            },
        }
    }

    /// Resets the filesystem of the node at `at`.
    fn reset_at(&mut self, at: usize)
        requires
            old(self).wf(),
            at < old(self).nodes@.len(),
        ensures
            final(self).wf(),
            final(self)@ == old(self)@.insert(
                old(self).nodes@[at as int].id,
                reset_view(old(self).nodes@[at as int].fs@),
            ),
    {
        self.nodes[at].fs.reset();
        proof {
            lemma_node_changed(old(self).nodes@, self.nodes@, at as int);
        }
    }

    /// Where the node `id` stands in the registry.
    fn index(&self, id: u64) -> (at: usize)
        requires
            self.wf(),
            self@.contains_key(id),
        ensures
            at < self.nodes@.len(),
            self.nodes@[at as int].id == id,
            self.nodes@[at as int].fs@ == self@[id],
    {
        let count = self.nodes.len();
        let mut i: usize = 0;
        while self.nodes[i].id != id
            invariant
                self.wf(),
                has_node(self.nodes@, id),
                i <= node_of(self.nodes@, id) < self.nodes@.len() == count,
                forall|j: int| 0 <= j < i ==> (#[trigger] self.nodes@[j]).id != id,
            decreases self.nodes@.len() - i,
        {
            i += 1;
        }
        proof {
            lemma_node_found(self.nodes@, i as int);
        }
        i
    }

    /// Resets the node `id`: its table of paths is wiped and its
    /// configuration is that of a fresh node. The files stay for the handles
    /// that were opened before.
    pub fn reset_node(&mut self, id: u64)
        requires
            old(self).wf(),
            old(self)@.contains_key(id),
        ensures
            final(self).wf(),
            final(self)@ == old(self)@.insert(id, reset_view(old(self)@[id])),
    {
        let at = self.index(id);
        self.reset_at(at);
    }

    /// Replaces the configuration of the node `node`. No file changes: a
    /// flush under way keeps its deadline.
    pub fn set_config(&mut self, node: u64, config: FsConfig)
        requires
            old(self).wf(),
            old(self)@.contains_key(node),
            config.wf(),
        ensures
            final(self).wf(),
            final(self)@ == old(self)@.insert(
                node,
                FilesystemView { config, ..old(self)@[node] },
            ),
    {
        let at = self.index(node);
        self.nodes[at].fs.configure(config);
        proof {
            lemma_node_changed(old(self).nodes@, self.nodes@, at as int);
        }
    }

    /// The filesystem of the node `id`.
    pub fn filesystem(&self, id: u64) -> (fs: Option<&Filesystem>)
        requires
            self.wf(),
        ensures
            fs is Some <==> self@.contains_key(id),
            fs is Some ==> fs->0.wf() && fs->0@ == self@[id],
    {
        match self.position(id) {
            Some(at) => Some(&self.nodes[at].fs),
            None => None,
        }
    }

    /// The filesystem of the node `id`, to open files in and to work on
    /// them. What the caller leaves there is the node's filesystem from then
    /// on.
    pub fn filesystem_mut(&mut self, id: u64) -> (fs: &mut Filesystem)
        requires
            old(self).wf(),
            old(self)@.contains_key(id),
        ensures
            fs.wf(),
            fs@ == old(self)@[id],
            final(self)@ == old(self)@.insert(id, final(fs)@),
            final(fs).wf() ==> final(self).wf(),
    {
        let at = self.index(id);
        proof {
            assert forall|after: Seq<Node>|
                after.len() == self.nodes@.len() && (forall|j: int|
                    0 <= j < after.len() ==> (#[trigger] after[j]).id == self.nodes@[j].id) && (
                forall|j: int|
                    0 <= j < after.len() && j != at ==> (#[trigger] after[j]).fs
                        == self.nodes@[j].fs) implies #[trigger] nodes_map(after) == nodes_map(
                self.nodes@,
            ).insert(id, after[at as int].fs@) && distinct_ids(after) by {
                lemma_node_changed(self.nodes@, after, at as int);
            }
        }
        &mut self.nodes[at].fs
    }
}

} // verus!
