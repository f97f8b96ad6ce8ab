//! Assembling paths from OSM relations.
//!
//! A path is an OSM relation whose members are ways. The nodes of the ways
//! are put one after another: each way must start where the one before
//! ended, and may be walked in reverse. Nodes may carry a name by which
//! the path can be referred to at that node, and tensions that shape the
//! curve through them.
//!
//! The OSM data is handed over as plain values; the coordinates and tension
//! values, which are floating point numbers, stay with the caller.

use vstd::prelude::*;
use crate::symbols::str_eq;

verus! {

//------------ OSM data ------------------------------------------------------

/// The kind of a relation member.
#[derive(Clone, Copy, Debug, PartialEq, Eq, Structural)]
pub enum MemberKind {
    Node,
    Way,
    Relation,
}

/// A member of a path relation.
#[derive(Clone, Debug)]
pub struct PathMember {
    pub kind: MemberKind,
    pub id: i64,
    pub role: String,
}

/// A way: its id, its node ids and its `type` tag.
#[derive(Clone, Debug)]
pub struct OsmWay {
    pub id: i64,
    pub nodes: Vec<i64>,
    pub way_type: Option<String>,
}

/// How a numeric tag of a node reads.
#[derive(Clone, Copy, Debug, PartialEq, Eq, Structural)]
pub enum NumberTag {
    /// The tag is not there.
    Absent,
    /// The tag holds a number.
    Valid,
    /// The tag holds something else.
    Invalid,
}

/// A node: its id, its `name` tag, and how its `pre` and `post` tags read.
#[derive(Clone, Debug)]
pub struct OsmNode {
    pub id: i64,
    pub name: Option<String>,
    pub pre: NumberTag,
    pub post: NumberTag,
}

//------------ Loaded nodes --------------------------------------------------

/// The tension of a path at one side of a node.
#[derive(Clone, Copy, Debug, PartialEq, Eq, Structural)]
pub enum Tension {
    /// No tension: the node is missing.
    Zero,
    /// The tension of a curved way.
    Curved,
    /// The tension of a straight way, which is infinite.
    Straight,
    /// The value of the node's own tag.
    Tagged,
}

/// A node of a path with the tensions before and after it.
#[derive(Clone, Copy, Debug, PartialEq, Eq, Structural)]
pub struct LoadedNode {
    pub id: i64,
    pub pre: Tension,
    pub post: Tension,
}

/// A problem found while loading the nodes of a path.
#[derive(Clone, Debug)]
pub enum PathErrorKind {
    NonWayMember { rel: String, target: i64 },
    UnknownRole { rel: String, target: i64, role: String },
    MissingWay { rel: String, way: i64 },
    IllegalWayType { rel: String, way: i64, value: String },
    EmptyWay { rel: String, way: i64 },
    NonContiguous { rel: String, way: i64 },
    MissingNode { node: i64 },
    InvalidPre { node: i64 },
    InvalidPost { node: i64 },
    DuplicateName { rel: String, name: String },
}

/// The model of a [`PathErrorKind`].
pub enum SpecPathError {
    NonWayMember { rel: Seq<char>, target: i64 },
    UnknownRole { rel: Seq<char>, target: i64, role: Seq<char> },
    MissingWay { rel: Seq<char>, way: i64 },
    IllegalWayType { rel: Seq<char>, way: i64, value: Seq<char> },
    EmptyWay { rel: Seq<char>, way: i64 },
    NonContiguous { rel: Seq<char>, way: i64 },
    MissingNode { node: i64 },
    InvalidPre { node: i64 },
    InvalidPost { node: i64 },
    DuplicateName { rel: Seq<char>, name: Seq<char> },
}

impl View for PathErrorKind {
    type V = SpecPathError;

    open spec fn view(&self) -> SpecPathError {
        match self {
            PathErrorKind::NonWayMember { rel, target } => SpecPathError::NonWayMember { rel: rel@, target: *target },
            PathErrorKind::UnknownRole { rel, target, role } => SpecPathError::UnknownRole {
                rel: rel@,
                target: *target,
                role: role@,
            },
            PathErrorKind::MissingWay { rel, way } => SpecPathError::MissingWay { rel: rel@, way: *way },
            PathErrorKind::IllegalWayType { rel, way, value } => SpecPathError::IllegalWayType {
                rel: rel@,
                way: *way,
                value: value@,
            },
            PathErrorKind::EmptyWay { rel, way } => SpecPathError::EmptyWay { rel: rel@, way: *way },
            PathErrorKind::NonContiguous { rel, way } => SpecPathError::NonContiguous { rel: rel@, way: *way },
            PathErrorKind::MissingNode { node } => SpecPathError::MissingNode { node: *node },
            PathErrorKind::InvalidPre { node } => SpecPathError::InvalidPre { node: *node },
            PathErrorKind::InvalidPost { node } => SpecPathError::InvalidPost { node: *node },
            PathErrorKind::DuplicateName { rel, name } => SpecPathError::DuplicateName { rel: rel@, name: name@ },
        }
    }
}

/// The models of a sequence of errors.
pub open spec fn errors_view(v: Seq<PathErrorKind>) -> Seq<SpecPathError> {
    v.map_values(|e: PathErrorKind| e@)
}

/// The models of a sequence of node names and their indexes.
pub open spec fn names_view(v: Seq<(String, u32)>) -> Seq<(Seq<char>, u32)> {
    v.map_values(|p: (String, u32)| (p.0@, p.1))
}

//------------ The specification ---------------------------------------------

/// The first way from `k` on with the given id.
pub open spec fn find_way(ways: Seq<OsmWay>, id: i64, k: int) -> Option<int>
    decreases ways.len() - k,
{
    if 0 <= k < ways.len() {
        if ways[k].id == id {
            Some(k)
        } else {
            find_way(ways, id, k + 1)
        }
    } else {
        None
    }
}

/// The first node from `k` on with the given id.
pub open spec fn find_node(nodes: Seq<OsmNode>, id: i64, k: int) -> Option<int>
    decreases nodes.len() - k,
{
    if 0 <= k < nodes.len() {
        if nodes[k].id == id {
            Some(k)
        } else {
            find_node(nodes, id, k + 1)
        }
    } else {
        None
    }
}

/// The first entry from `k` on for the given name.
pub open spec fn find_name(names: Seq<(Seq<char>, u32)>, name: Seq<char>, k: int) -> Option<int>
    decreases names.len() - k,
{
    if 0 <= k < names.len() {
        if names[k].0 == name {
            Some(k)
        } else {
            find_name(names, name, k + 1)
        }
    } else {
        None
    }
}

/// The names with `name` now at index `idx`: an entry for the name is
/// replaced, otherwise one is added.
pub open spec fn insert_name(names: Seq<(Seq<char>, u32)>, name: Seq<char>, idx: u32) -> Seq<(Seq<char>, u32)> {
    match find_name(names, name, 0) {
        Some(k) => names.update(k, (name, idx)),
        None => names.push((name, idx)),
    }
}

/// The state of loading after some members.
pub struct LoadState {
    pub nodes: Seq<LoadedNode>,
    pub names: Seq<(Seq<char>, u32)>,
    pub errors: Seq<SpecPathError>,
    /// The id of the last node added.
    pub last_id: Option<i64>,
    /// Whether the last node added carries its own post tension.
    pub last_tagged: bool,
    /// Whether loading stopped at a way that does not continue the path.
    pub stopped: bool,
}

/// The state before any member.
pub open spec fn initial_state() -> LoadState {
    LoadState {
        nodes: Seq::empty(),
        names: Seq::empty(),
        errors: Seq::empty(),
        last_id: None,
        last_tagged: false,
        stopped: false,
    }
}

/// Adds the node `id` of a way with the given tension.
pub open spec fn node_step(st: LoadState, id: i64, nodes: Seq<OsmNode>, tension: Tension, key: Seq<char>) -> LoadState {
    match find_node(nodes, id, 0) {
        None => LoadState {
            nodes: st.nodes.push(LoadedNode { id, pre: Tension::Zero, post: Tension::Zero }),
            names: st.names,
            errors: st.errors.push(SpecPathError::MissingNode { node: id }),
            last_id: Some(id),
            last_tagged: false,
            stopped: st.stopped,
        },
        Some(k) => {
            let n = nodes[k];
            let pre = if n.pre == NumberTag::Valid { Tension::Tagged } else { tension };
            let post = if n.post == NumberTag::Valid { Tension::Tagged } else { tension };
            let e1 = if n.pre == NumberTag::Invalid {
                st.errors.push(SpecPathError::InvalidPre { node: id })
            } else {
                st.errors
            };
            let e2 = if n.post == NumberTag::Invalid {
                e1.push(SpecPathError::InvalidPost { node: id })
            } else {
                e1
            };
            let idx = st.nodes.len() as u32;
            let (names, errors) = match n.name {
                Some(name) => (
                    insert_name(st.names, name@, idx),
                    if find_name(st.names, name@, 0) is Some {
                        e2.push(SpecPathError::DuplicateName { rel: key, name: name@ })
                    } else {
                        e2
                    },
                ),
                None => (st.names, e2),
            };
            LoadState {
                nodes: st.nodes.push(LoadedNode { id, pre, post }),
                names,
                errors,
                last_id: Some(id),
                last_tagged: n.post == NumberTag::Valid,
                stopped: st.stopped,
            }
        },
    }
}

/// The state after adding the nodes `seq[from..j]`.
pub open spec fn nodes_fold(
    st: LoadState,
    seq: Seq<i64>,
    from: int,
    j: int,
    nodes: Seq<OsmNode>,
    tension: Tension,
    key: Seq<char>,
) -> LoadState
    decreases j - from,
{
    if j <= from {
        st
    } else {
        node_step(nodes_fold(st, seq, from, j - 1, nodes, tension, key), seq[j - 1], nodes, tension, key)
    }
}

/// The nodes of a way in the order the member walks it.
pub open spec fn way_seq(w: OsmWay, reverse: bool) -> Seq<i64> {
    if reverse {
        Seq::new(w.nodes@.len(), |j: int| w.nodes@[w.nodes@.len() - 1 - j])
    } else {
        w.nodes@
    }
}

/// The tension of a way given its `type` tag: `straight` is straight, and
/// anything else curved.
pub open spec fn way_tension(t: Option<String>) -> Tension {
    match t {
        Some(v) => if v@ == "straight"@ { Tension::Straight } else { Tension::Curved },
        None => Tension::Curved,
    }
}

/// Whether the `type` tag of a way is none of `curved`, `arc` and
/// `straight`.
pub open spec fn illegal_way_type(t: Option<String>) -> bool {
    match t {
        Some(v) => !(v@ == "curved"@ || v@ == "arc"@ || v@ == "straight"@),
        None => false,
    }
}

/// The state with an error added.
pub open spec fn with_error(st: LoadState, e: SpecPathError) -> LoadState {
    LoadState { errors: st.errors.push(e), ..st }
}

/// Adds the nodes of a non-empty way, walked as `seq`, with the given
/// tension.
pub open spec fn way_nodes(st: LoadState, way: i64, seq: Seq<i64>, nodes: Seq<OsmNode>, tension: Tension, key: Seq<char>) -> LoadState {
    match st.last_id {
        Some(last) => if last != seq[0] {
            LoadState { stopped: true, ..with_error(st, SpecPathError::NonContiguous { rel: key, way }) }
        } else {
            let st2 = if !st.last_tagged {
                LoadState {
                    nodes: st.nodes.update(
                        st.nodes.len() - 1,
                        LoadedNode { post: tension, ..st.nodes[st.nodes.len() - 1] },
                    ),
                    ..st
                }
            } else {
                st
            };
            nodes_fold(st2, seq, 1, seq.len() as int, nodes, tension, key)
        },
        None => nodes_fold(st, seq, 0, seq.len() as int, nodes, tension, key),
    }
}

/// Handles one member of the path relation.
pub open spec fn member_step(st: LoadState, m: PathMember, ways: Seq<OsmWay>, nodes: Seq<OsmNode>, key: Seq<char>) -> LoadState {
    if st.stopped {
        st
    } else if m.kind != MemberKind::Way {
        with_error(st, SpecPathError::NonWayMember { rel: key, target: m.id })
    } else if !(m.role@ == "reverse"@ || m.role@.len() == 0) {
        with_error(st, SpecPathError::UnknownRole { rel: key, target: m.id, role: m.role@ })
    } else {
        match find_way(ways, m.id, 0) {
            None => with_error(st, SpecPathError::MissingWay { rel: key, way: m.id }),
            Some(k) => {
                let w = ways[k];
                let st1 = if illegal_way_type(w.way_type) {
                    with_error(st, SpecPathError::IllegalWayType { rel: key, way: w.id, value: w.way_type->0@ })
                } else {
                    st
                };
                if w.nodes@.len() == 0 {
                    with_error(st1, SpecPathError::EmptyWay { rel: key, way: w.id })
                } else {
                    way_nodes(st1, w.id, way_seq(w, m.role@ == "reverse"@), nodes, way_tension(w.way_type), key)
                }
            },
        }
    }
}

/// The state after the first `i` members.
pub open spec fn members_fold(members: Seq<PathMember>, ways: Seq<OsmWay>, nodes: Seq<OsmNode>, key: Seq<char>, i: int) -> LoadState
    decreases i,
{
    if i <= 0 {
        initial_state()
    } else {
        member_step(members_fold(members, ways, nodes, key, i - 1), members[i - 1], ways, nodes, key)
    }
}

/// The result of loading the nodes of a path.
pub open spec fn spec_load_nodes(members: Seq<PathMember>, ways: Seq<OsmWay>, nodes: Seq<OsmNode>, key: Seq<char>) -> LoadState {
    members_fold(members, ways, nodes, key, members.len() as int)
}

/// Adding the nodes `seq[from..j]` appends exactly one node for each of
/// them, with its id, and keeps the nodes before.
pub proof fn lemma_nodes_fold(
    st: LoadState,
    seq: Seq<i64>,
    from: int,
    j: int,
    nodes: Seq<OsmNode>,
    tension: Tension,
    key: Seq<char>,
)
    requires
        0 <= from <= j <= seq.len(),
    ensures
        nodes_fold(st, seq, from, j, nodes, tension, key).nodes.len() == st.nodes.len() + (j - from),
        forall|k: int| 0 <= k < st.nodes.len()
            ==> #[trigger] nodes_fold(st, seq, from, j, nodes, tension, key).nodes[k] == st.nodes[k],
        forall|k: int| from <= k < j
            ==> #[trigger] nodes_fold(st, seq, from, j, nodes, tension, key).nodes[st.nodes.len() + k - from].id == seq[k],
    decreases j - from,
{
    if j > from {
        lemma_nodes_fold(st, seq, from, j - 1, nodes, tension, key);
    }
}

/// A way that continues the path adds its nodes after the one it shares
/// with the path: the shared node appears once.
pub proof fn law_joined_way(st: LoadState, way: i64, seq: Seq<i64>, nodes: Seq<OsmNode>, tension: Tension, key: Seq<char>)
    requires
        seq.len() > 0,
        st.last_id == Some(seq[0]),
        st.nodes.len() > 0,
    ensures
        way_nodes(st, way, seq, nodes, tension, key).nodes.len() == st.nodes.len() + seq.len() - 1,
        forall|k: int| 1 <= k < seq.len()
            ==> #[trigger] way_nodes(st, way, seq, nodes, tension, key).nodes[st.nodes.len() + k - 1].id == seq[k],
        !way_nodes(st, way, seq, nodes, tension, key).stopped <== !st.stopped,
{
    let st2 = if !st.last_tagged {
        LoadState {
            nodes: st.nodes.update(
                st.nodes.len() - 1,
                LoadedNode { post: tension, ..st.nodes[st.nodes.len() - 1] },
            ),
            ..st
        }
    } else {
        st
    };
    lemma_nodes_fold(st2, seq, 1, seq.len() as int, nodes, tension, key);
    lemma_fold_keeps_stopped(st2, seq, 1, seq.len() as int, nodes, tension, key);
}

/// Adding nodes does not stop loading.
proof fn lemma_fold_keeps_stopped(
    st: LoadState,
    seq: Seq<i64>,
    from: int,
    j: int,
    nodes: Seq<OsmNode>,
    tension: Tension,
    key: Seq<char>,
)
    ensures
        nodes_fold(st, seq, from, j, nodes, tension, key).stopped == st.stopped,
    decreases j - from,
{
    if j > from {
        lemma_fold_keeps_stopped(st, seq, from, j - 1, nodes, tension, key);
    }
}

/// A way is curved unless its type tag says `straight`: without a tag, and
/// with `curved` or `arc`, it has the curved tension, and only these three
/// tag values are legal.
pub proof fn law_way_tension(t: Option<String>)
    ensures
        t is None ==> way_tension(t) == Tension::Curved && !illegal_way_type(t),
        t matches Some(v) && v@ == "straight"@ ==> way_tension(t) == Tension::Straight,
        t matches Some(v) && (v@ == "curved"@ || v@ == "arc"@) ==> way_tension(t) == Tension::Curved,
        t matches Some(v) && (v@ == "curved"@ || v@ == "arc"@ || v@ == "straight"@) ==> !illegal_way_type(t),
        way_tension(t) == Tension::Straight || way_tension(t) == Tension::Curved,
{
    reveal_strlit("straight");
    reveal_strlit("curved");
    reveal_strlit("arc");
    if let Some(v) = t {
        if v@ == "curved"@ || v@ == "arc"@ {
            assert(v@.len() != "straight"@.len());
        }
    }
}

/// A node that is there takes the tension of its way on both sides unless
/// it has valid tags of its own; a missing node has none. Either way the
/// node is appended with its id.
pub proof fn law_node_tension(st: LoadState, id: i64, nodes: Seq<OsmNode>, tension: Tension, key: Seq<char>)
    ensures
        node_step(st, id, nodes, tension, key).nodes == st.nodes.push(node_step(st, id, nodes, tension, key).nodes.last()),
        node_step(st, id, nodes, tension, key).nodes.last().id == id,
        find_node(nodes, id, 0) is None ==> node_step(st, id, nodes, tension, key).nodes.last().pre == Tension::Zero
            && node_step(st, id, nodes, tension, key).nodes.last().post == Tension::Zero,
        find_node(nodes, id, 0) matches Some(k) ==> {
            &&& nodes[k].pre != NumberTag::Valid ==> node_step(st, id, nodes, tension, key).nodes.last().pre == tension
            &&& nodes[k].pre == NumberTag::Valid ==> node_step(st, id, nodes, tension, key).nodes.last().pre == Tension::Tagged
            &&& nodes[k].post != NumberTag::Valid ==> node_step(st, id, nodes, tension, key).nodes.last().post == tension
            &&& nodes[k].post == NumberTag::Valid ==> node_step(st, id, nodes, tension, key).nodes.last().post == Tension::Tagged
        },
{
    let r = node_step(st, id, nodes, tension, key);
    assert(r.nodes =~= st.nodes.push(r.nodes.last()));
}

/// Looking up a way finds the first way with that id, if any.
pub proof fn law_find_way(ways: Seq<OsmWay>, id: i64, k: int)
    requires
        0 <= k,
    ensures
        find_way(ways, id, k) matches Some(i) ==> k <= i < ways.len() && ways[i].id == id
            && forall|m: int| k <= m < i ==> ways[m].id != id,
        find_way(ways, id, k) is None ==> forall|m: int| k <= m < ways.len() ==> ways[m].id != id,
    decreases ways.len() - k,
{
    if k < ways.len() {
        law_find_way(ways, id, k + 1);
    }
}

/// Looking up a node finds the first node with that id, if any.
pub proof fn law_find_node(nodes: Seq<OsmNode>, id: i64, k: int)
    requires
        0 <= k,
    ensures
        find_node(nodes, id, k) matches Some(i) ==> k <= i < nodes.len() && nodes[i].id == id
            && forall|m: int| k <= m < i ==> nodes[m].id != id,
        find_node(nodes, id, k) is None ==> forall|m: int| k <= m < nodes.len() ==> nodes[m].id != id,
    decreases nodes.len() - k,
{
    if k < nodes.len() {
        law_find_node(nodes, id, k + 1);
    }
}

/// Recording a name leaves one entry for it, pointing at the new index,
/// and keeps the other entries.
pub proof fn law_insert_name(names: Seq<(Seq<char>, u32)>, name: Seq<char>, idx: u32)
    ensures
        insert_name(names, name, idx).contains((name, idx)),
        forall|e: (Seq<char>, u32)| names.contains(e) && e.0 != name ==> insert_name(names, name, idx).contains(e),
        find_name(names, name, 0) is None ==> insert_name(names, name, idx).len() == names.len() + 1,
        find_name(names, name, 0) is Some ==> insert_name(names, name, idx).len() == names.len(),
{
    lemma_find_name(names, name, 0);
    let r = insert_name(names, name, idx);
    match find_name(names, name, 0) {
        Some(k) => {
            assert(r[k] == (name, idx));
            assert forall|e: (Seq<char>, u32)| names.contains(e) && e.0 != name implies r.contains(e) by {
                let m = choose|m: int| 0 <= m < names.len() && names[m] == e;
                assert(r[m] == e);
            }
        },
        None => {
            assert(r[names.len() as int] == (name, idx));
            assert forall|e: (Seq<char>, u32)| names.contains(e) && e.0 != name implies r.contains(e) by {
                let m = choose|m: int| 0 <= m < names.len() && names[m] == e;
                assert(r[m] == e);
            }
        },
    }
}

proof fn lemma_find_name(names: Seq<(Seq<char>, u32)>, name: Seq<char>, k: int)
    requires
        0 <= k,
    ensures
        find_name(names, name, k) matches Some(i) ==> k <= i < names.len() && names[i].0 == name,
    decreases names.len() - k,
{
    if k < names.len() {
        lemma_find_name(names, name, k + 1);
    }
}

/// Once loading stopped, later members change nothing.
proof fn lemma_stopped(members: Seq<PathMember>, ways: Seq<OsmWay>, nodes: Seq<OsmNode>, key: Seq<char>, i: int, j: int)
    requires
        0 <= i <= j,
        members_fold(members, ways, nodes, key, i).stopped,
    ensures
        members_fold(members, ways, nodes, key, j) == members_fold(members, ways, nodes, key, i),
    decreases j - i,
{
    if j > i {
        lemma_stopped(members, ways, nodes, key, i, j - 1);
    }
}

//------------ Loading -------------------------------------------------------

/// Adding an error to a sequence adds its model to the models.
proof fn lemma_errors_push(v: Seq<PathErrorKind>, e: PathErrorKind)
    ensures
        errors_view(v.push(e)) == errors_view(v).push(e@),
{
    assert(errors_view(v.push(e)) =~= errors_view(v).push(e@));
}

/// Finds the first way with the given id.
fn lookup_way(ways: &Vec<OsmWay>, id: i64) -> (res: Option<usize>)
    ensures
        match (res, find_way(ways@, id, 0)) {
            (Some(i), Some(k)) => i == k && k < ways@.len(),
            (None, None) => true,
            _ => false,
        },
{
    let mut i: usize = 0;
    while i < ways.len()
        invariant
            i <= ways@.len(),
            find_way(ways@, id, 0) == find_way(ways@, id, i as int),
        decreases ways@.len() - i,
    {
        if ways[i].id == id {
            return Some(i);
        }
        i = i + 1;
    }
    None
}

/// Finds the first node with the given id.
fn lookup_node(nodes: &Vec<OsmNode>, id: i64) -> (res: Option<usize>)
    ensures
        match (res, find_node(nodes@, id, 0)) {
            (Some(i), Some(k)) => i == k && k < nodes@.len(),
            (None, None) => true,
            _ => false,
        },
{
    let mut i: usize = 0;
    while i < nodes.len()
        invariant
            i <= nodes@.len(),
            find_node(nodes@, id, 0) == find_node(nodes@, id, i as int),
        decreases nodes@.len() - i,
    {
        if nodes[i].id == id {
            return Some(i);
        }
        i = i + 1;
    }
    None
}

/// The nodes, names and last node of a path being loaded.
struct Loader {
    nodes: Vec<LoadedNode>,
    names: Vec<(String, u32)>,
    last_id: Option<i64>,
    last_tagged: bool,
}

impl Loader {
    /// Whether the loader, with the errors `err` added after `base`, is in
    /// the state `st`.
    spec fn is_at(&self, st: LoadState, err: Seq<PathErrorKind>, base: Seq<PathErrorKind>) -> bool {
        &&& self.nodes@ == st.nodes
        &&& names_view(self.names@) == st.names
        &&& self.last_id == st.last_id
        &&& self.last_tagged == st.last_tagged
        &&& errors_view(err) == errors_view(base) + st.errors
        &&& (st.last_id is Some ==> st.nodes.len() > 0)
    }

    /// Records a name for the node about to be added.
    fn insert_name(&mut self, name: &String, idx: u32) -> (dup: bool)
        ensures
            names_view(final(self).names@) == insert_name(names_view(old(self).names@), name@, idx),
            dup == (find_name(names_view(old(self).names@), name@, 0) is Some),
            final(self).nodes == old(self).nodes,
            final(self).last_id == old(self).last_id,
            final(self).last_tagged == old(self).last_tagged,
    {
        let ghost before = names_view(self.names@);
        let mut k: usize = 0;
        while k < self.names.len()
            invariant
                k <= self.names@.len(),
                before == names_view(self.names@),
                before == names_view(old(self).names@),
                self.nodes == old(self).nodes,
                self.last_id == old(self).last_id,
                self.last_tagged == old(self).last_tagged,
                before.len() == self.names@.len(),
                find_name(before, name@, 0) == find_name(before, name@, k as int),
            decreases self.names@.len() - k,
        {
            assert(before[k as int].0 == self.names@[k as int].0@);
            if self.names[k].0 == *name {
                assert(find_name(before, name@, k as int) == Some(k as int));
                let entry = (name.clone(), idx);
                self.names.set(k, entry);
                assert(names_view(self.names@) =~= before.update(k as int, (name@, idx)));
                return true;
            }
            k = k + 1;
        }
        let entry = (name.clone(), idx);
        self.names.push(entry);
        assert(names_view(self.names@) =~= before.push((name@, idx)));
        false
    }

    /// Adds the node `id` of a way with the given tension.
    fn add_node(
        &mut self,
        err: &mut Vec<PathErrorKind>,
        id: i64,
        nodes: &Vec<OsmNode>,
        tension: Tension,
        key: &String,
        Ghost(st): Ghost<LoadState>,
        Ghost(base): Ghost<Seq<PathErrorKind>>,
    )
        requires
            old(self).is_at(st, old(err)@, base),
        ensures
            final(self).is_at(node_step(st, id, nodes@, tension, key@), final(err)@, base),
    {
        let idx = self.nodes.len() as u32;
        match lookup_node(nodes, id) {
            None => {
                proof {
                    lemma_errors_push(err@, PathErrorKind::MissingNode { node: id });
                }
                err.push(PathErrorKind::MissingNode { node: id });
                self.nodes.push(LoadedNode { id, pre: Tension::Zero, post: Tension::Zero });
                self.last_id = Some(id);
                self.last_tagged = false;
            },
            Some(k) => {
                let node = &nodes[k];
                let pre = if node.pre == NumberTag::Valid { Tension::Tagged } else { tension };
                let post = if node.post == NumberTag::Valid { Tension::Tagged } else { tension };
                if node.pre == NumberTag::Invalid {
                    proof {
                        lemma_errors_push(err@, PathErrorKind::InvalidPre { node: id });
                    }
                    err.push(PathErrorKind::InvalidPre { node: id });
                }
                if node.post == NumberTag::Invalid {
                    proof {
                        lemma_errors_push(err@, PathErrorKind::InvalidPost { node: id });
                    }
                    err.push(PathErrorKind::InvalidPost { node: id });
                }
                if let Some(name) = &node.name {
                    let dup = self.insert_name(name, idx);
                    if dup {
                        let e = PathErrorKind::DuplicateName { rel: key.clone(), name: name.clone() };
                        proof {
                            lemma_errors_push(err@, e);
                        }
                        err.push(e);
                    }
                }
                self.nodes.push(LoadedNode { id, pre, post });
                self.last_id = Some(id);
                self.last_tagged = node.post == NumberTag::Valid;
            },
        }
    }

    /// Adds the nodes of a non-empty way, walked in reverse if asked.
    ///
    /// Returns whether the way continued the path.
    fn add_way(
        &mut self,
        err: &mut Vec<PathErrorKind>,
        way: &OsmWay,
        reverse: bool,
        nodes: &Vec<OsmNode>,
        tension: Tension,
        key: &String,
        Ghost(st): Ghost<LoadState>,
        Ghost(base): Ghost<Seq<PathErrorKind>>,
    ) -> (cont: bool)
        requires
            old(self).is_at(st, old(err)@, base),
            !st.stopped,
            way.nodes@.len() > 0,
        ensures
            final(self).is_at(way_nodes(st, way.id, way_seq(*way, reverse), nodes@, tension, key@), final(err)@, base),
            cont == !way_nodes(st, way.id, way_seq(*way, reverse), nodes@, tension, key@).stopped,
    {
        let ghost seq = way_seq(*way, reverse);
        let len = way.nodes.len();
        let first = if reverse { way.nodes[len - 1] } else { way.nodes[0] };
        assert(first == seq[0]);
        let mut j: usize = 0;
        let ghost mut st2 = st;
        match self.last_id {
            Some(last) => {
                if last != first {
                    let e = PathErrorKind::NonContiguous { rel: key.clone(), way: way.id };
                    proof {
                        lemma_errors_push(err@, e);
                    }
                    err.push(e);
                    return false;
                }
                if !self.last_tagged {
                    let n = self.nodes.len() - 1;
                    let old_node = self.nodes[n];
                    self.nodes.set(n, LoadedNode { post: tension, ..old_node });
                }
                proof {
                    st2 = if !st.last_tagged {
                        LoadState {
                            nodes: st.nodes.update(
                                st.nodes.len() - 1,
                                LoadedNode { post: tension, ..st.nodes[st.nodes.len() - 1] },
                            ),
                            ..st
                        }
                    } else {
                        st
                    };
                }
                j = 1;
            },
            None => {},
        }
        let from = j;
        while j < len
            invariant
                from <= j <= len,
                len == way.nodes@.len(),
                seq == way_seq(*way, reverse),
                self.is_at(nodes_fold(st2, seq, from as int, j as int, nodes@, tension, key@), err@, base),
                nodes_fold(st2, seq, from as int, len as int, nodes@, tension, key@)
                    == way_nodes(st, way.id, seq, nodes@, tension, key@),
                !nodes_fold(st2, seq, from as int, j as int, nodes@, tension, key@).stopped,
            decreases len - j,
        {
            let id = if reverse { way.nodes[len - 1 - j] } else { way.nodes[j] };
            assert(id == seq[j as int]);
            self.add_node(
                err,
                id,
                nodes,
                tension,
                key,
                Ghost(nodes_fold(st2, seq, from as int, j as int, nodes@, tension, key@)),
                Ghost(base),
            );
            j = j + 1;
        }
        true
    }
}

/// Loads the nodes of a path from the members of its relation.
///
/// Returns the nodes and, for each node name, the index of the last node
/// carrying it. Problems are added to `err`; at a way that does not start
/// where the path so far ended, loading stops.
pub fn load_nodes(
    members: &Vec<PathMember>,
    ways: &Vec<OsmWay>,
    nodes: &Vec<OsmNode>,
    key: &String,
    err: &mut Vec<PathErrorKind>,
) -> (res: (Vec<LoadedNode>, Vec<(String, u32)>))
    ensures
        res.0@ == spec_load_nodes(members@, ways@, nodes@, key@).nodes,
        names_view(res.1@) == spec_load_nodes(members@, ways@, nodes@, key@).names,
        errors_view(final(err)@) == errors_view(old(err)@) + spec_load_nodes(members@, ways@, nodes@, key@).errors,
{
    let ghost base = err@;
    let mut loader = Loader { nodes: Vec::new(), names: Vec::new(), last_id: None, last_tagged: false };
    assert(names_view(loader.names@) =~= Seq::<(Seq<char>, u32)>::empty());
    assert(errors_view(base) + Seq::<SpecPathError>::empty() =~= errors_view(base));
    let mut i: usize = 0;
    while i < members.len()
        invariant
            i <= members@.len(),
            base == old(err)@,
            loader.is_at(members_fold(members@, ways@, nodes@, key@, i as int), err@, base),
            !members_fold(members@, ways@, nodes@, key@, i as int).stopped,
        decreases members@.len() - i,
    {
        let ghost st = members_fold(members@, ways@, nodes@, key@, i as int);
        let m = &members[i];
        assert(members_fold(members@, ways@, nodes@, key@, i + 1) == member_step(st, *m, ways@, nodes@, key@));
        if m.kind != MemberKind::Way {
            let e = PathErrorKind::NonWayMember { rel: key.clone(), target: m.id };
            proof {
                lemma_errors_push(err@, e);
            }
            err.push(e);
            i = i + 1;
            continue;
        }
        let reverse = str_eq(m.role.as_str(), "reverse");
        if !reverse && m.role.as_str().unicode_len() != 0 {
            let e = PathErrorKind::UnknownRole { rel: key.clone(), target: m.id, role: m.role.clone() };
            proof {
                lemma_errors_push(err@, e);
            }
            err.push(e);
            i = i + 1;
            continue;
        }
        let w = match lookup_way(ways, m.id) {
            Some(k) => &ways[k],
            None => {
                let e = PathErrorKind::MissingWay { rel: key.clone(), way: m.id };
                proof {
                    lemma_errors_push(err@, e);
                }
                err.push(e);
                i = i + 1;
                continue;
            },
        };
        let mut tension = Tension::Curved;
        let ghost st1 = if illegal_way_type(w.way_type) {
            with_error(st, SpecPathError::IllegalWayType { rel: key@, way: w.id, value: w.way_type->0@ })
        } else {
            st
        };
        if let Some(t) = &w.way_type {
            if str_eq(t.as_str(), "straight") {
                tension = Tension::Straight;
            } else if !str_eq(t.as_str(), "curved") && !str_eq(t.as_str(), "arc") {
                let e = PathErrorKind::IllegalWayType { rel: key.clone(), way: w.id, value: t.clone() };
                proof {
                    lemma_errors_push(err@, e);
                }
                err.push(e);
            }
        }
        assert(tension == way_tension(w.way_type));
        if w.nodes.len() == 0 {
            let e = PathErrorKind::EmptyWay { rel: key.clone(), way: w.id };
            proof {
                lemma_errors_push(err@, e);
            }
            err.push(e);
            i = i + 1;
            continue;
        }
        let cont = loader.add_way(err, w, reverse, nodes, tension, key, Ghost(st1), Ghost(base));
        assert(members_fold(members@, ways@, nodes@, key@, i + 1) == way_nodes(
            st1, w.id, way_seq(*w, reverse), nodes@, tension, key@,
        ));
        if !cont {
            proof {
                lemma_stopped(members@, ways@, nodes@, key@, i + 1, members@.len() as int);
            }
            assert(loader.is_at(members_fold(members@, ways@, nodes@, key@, members@.len() as int), err@, base));
            return (loader.nodes, loader.names);
        }
        i = i + 1;
    }
    (loader.nodes, loader.names)
}

} // verus!
