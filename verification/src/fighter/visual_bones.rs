//! Binding the nodes of a fighter's visual scene to its baked bones.
//!
//! A bone is known by its parent bone and its name. A scene node binds to
//! the bone with its name whose parent is the bone its parent node binds
//! to, or that has no parent where the node's parent is not a bone: a node
//! at the top of the scene, or under a node (such as the scene's own root)
//! whose name no bone has. A node under a node that carries a bone's name
//! but binds to no bone binds to nothing.

use vstd::prelude::*;

verus! {

/// Two baked bones share a parent and a name; `0` is the later of them,
/// the first such bone in the skeleton's order.
#[derive(Clone, Copy, PartialEq, Eq, Structural, Debug)]
pub struct DuplicateBone(pub usize);

/// Bone `j` has the parent and name of an earlier bone.
pub open spec fn repeats_earlier_bone(names: Seq<String>, parents: Seq<Option<usize>>, j: int) -> bool {
    exists|i: int| 0 <= i < j && parents[i] == parents[j] && (#[trigger] names[i])@ == names[j]@
}

/// The first of the first `n` bones that repeats an earlier one's parent
/// and name.
pub open spec fn first_duplicate(names: Seq<String>, parents: Seq<Option<usize>>, n: int) -> Option<usize>
    decreases n,
{
    if n <= 0 {
        None
    } else {
        match first_duplicate(names, parents, n - 1) {
            Some(j) => Some(j),
            None => if repeats_earlier_bone(names, parents, n - 1) {
                Some((n - 1) as usize)
            } else {
                None
            },
        }
    }
}

/// The first bone, from position `i` on, with parent `parent` and name
/// `name`.
pub open spec fn bone_with_key(
    names: Seq<String>,
    parents: Seq<Option<usize>>,
    parent: Option<usize>,
    name: Seq<char>,
    i: int,
) -> Option<usize>
    decreases names.len() - i,
{
    if i < 0 || i >= names.len() {
        None
    } else if parents[i] == parent && names[i]@ == name {
        Some(i as usize)
    } else {
        bone_with_key(names, parents, parent, name, i + 1)
    }
}

/// Some bone, from position `i` on, has the name `name`.
pub open spec fn is_bone_name(names: Seq<String>, name: Seq<char>, i: int) -> bool
    decreases names.len() - i,
{
    if i < 0 || i >= names.len() {
        false
    } else {
        names[i]@ == name || is_bone_name(names, name, i + 1)
    }
}

/// The first position, from `k` on, of the node `id`.
pub open spec fn node_index(nodes: Seq<(u64, String, Option<u64>)>, id: u64, k: int) -> Option<int>
    decreases nodes.len() - k,
{
    if k < 0 || k >= nodes.len() {
        None
    } else if nodes[k].0 == id {
        Some(k)
    } else {
        node_index(nodes, id, k + 1)
    }
}

/// The bone that node `k` binds to, following at most `fuel` parents.
pub open spec fn bound_bone(
    names: Seq<String>,
    parents: Seq<Option<usize>>,
    nodes: Seq<(u64, String, Option<u64>)>,
    k: int,
    fuel: nat,
) -> Option<usize>
    decreases fuel,
{
    if fuel == 0 {
        None
    } else {
        // `None`: the node's parent keeps it from binding; `Some(p)`: the
        // bone parent it is looked up under.
        let parent_key: Option<Option<usize>> = match nodes[k].2 {
            None => Some(None),
            Some(p) => match node_index(nodes, p, 0) {
                None => Some(None),
                Some(pk) => match bound_bone(names, parents, nodes, pk, (fuel - 1) as nat) {
                    Some(j) => Some(Some(j)),
                    None => if is_bone_name(names, nodes[pk].1@, 0) {
                        None
                    } else {
                        Some(None)
                    },
                },
            },
        };
        match parent_key {
            None => None,
            Some(pb) => bone_with_key(names, parents, pb, nodes[k].1@, 0),
        }
    }
}

/// The bindings of the first `n` nodes, in node order: each node that
/// binds, with its bone.
pub open spec fn bindings(
    names: Seq<String>,
    parents: Seq<Option<usize>>,
    nodes: Seq<(u64, String, Option<u64>)>,
    n: int,
) -> Seq<(u64, usize)>
    decreases n,
{
    if n <= 0 {
        Seq::empty()
    } else {
        let before = bindings(names, parents, nodes, n - 1);
        match bound_bone(names, parents, nodes, n - 1, nodes.len()) {
            Some(b) => before.push((nodes[n - 1].0, b)),
            None => before,
        }
    }
}

fn find_bone_with_key(names: &Vec<String>, parents: &Vec<Option<usize>>, parent: Option<usize>, name: &String) -> (r:
    Option<usize>)
    requires
        names@.len() <= parents@.len(),
    ensures
        r == bone_with_key(names@, parents@, parent, name@, 0),
{
    let mut i: usize = 0;
    while i < names.len()
        invariant
            i <= names@.len(),
            names@.len() <= parents@.len(),
            bone_with_key(names@, parents@, parent, name@, 0) == bone_with_key(
                names@,
                parents@,
                parent,
                name@,
                i as int,
            ),
        decreases names@.len() - i,
    {
        if parents[i] == parent && names[i] == *name {
            return Some(i);
        }
        i = i + 1;
    }
    None
}

fn has_bone_name(names: &Vec<String>, name: &String) -> (r: bool)
    ensures
        r == is_bone_name(names@, name@, 0),
{
    let mut i: usize = 0;
    while i < names.len()
        invariant
            i <= names@.len(),
            is_bone_name(names@, name@, 0) == is_bone_name(names@, name@, i as int),
        decreases names@.len() - i,
    {
        if names[i] == *name {
            return true;
        }
        i = i + 1;
    }
    false
}

fn find_node(nodes: &Vec<(u64, String, Option<u64>)>, id: u64) -> (r: Option<usize>)
    ensures
        match r {
            Some(k) => node_index(nodes@, id, 0) == Some(k as int),
            None => node_index(nodes@, id, 0) is None,
        },
{
    let mut k: usize = 0;
    while k < nodes.len()
        invariant
            k <= nodes@.len(),
            node_index(nodes@, id, 0) == node_index(nodes@, id, k as int),
        decreases nodes@.len() - k,
    {
        if nodes[k].0 == id {
            return Some(k);
        }
        k = k + 1;
    }
    None
}

/// Lemma: a found node index lies within the nodes.
proof fn lemma_node_index_in_range(nodes: Seq<(u64, String, Option<u64>)>, id: u64, k: int)
    requires
        0 <= k,
    ensures
        node_index(nodes, id, k) matches Some(pk) ==> 0 <= pk < nodes.len() && nodes[pk].0 == id,
    decreases nodes.len() - k,
{
    if k < nodes.len() && nodes[k].0 != id {
        lemma_node_index_in_range(nodes, id, k + 1);
    }
}

fn bone_of_node(
    names: &Vec<String>,
    parents: &Vec<Option<usize>>,
    nodes: &Vec<(u64, String, Option<u64>)>,
    k: usize,
    fuel: usize,
) -> (r: Option<usize>)
    requires
        k < nodes@.len(),
        names@.len() <= parents@.len(),
    ensures
        r == bound_bone(names@, parents@, nodes@, k as int, fuel as nat),
    decreases fuel,
{
    if fuel == 0 {
        return None;
    }
    let parent_key: Option<Option<usize>> = match nodes[k].2 {
        None => Some(None),
        Some(p) => match find_node(nodes, p) {
            None => Some(None),
            Some(pk) => {
                proof {
                    lemma_node_index_in_range(nodes@, p, 0);
                }
                match bone_of_node(names, parents, nodes, pk, fuel - 1) {
                    Some(j) => Some(Some(j)),
                    None => if has_bone_name(names, &nodes[pk].1) {
                        None
                    } else {
                        Some(None)
                    },
                }
            },
        },
    };
    match parent_key {
        None => None,
        Some(pb) => find_bone_with_key(names, parents, pb, &nodes[k].1),
    }
}

/// Binds the nodes of a visual scene (each an id, a name and the id of its
/// parent, if any) to the baked bones named by `bone_names` and `parents`.
/// Fails, naming the bone, where a bone has the parent and name of an
/// earlier one; otherwise gives each node that binds with its bone, in node
/// order.
pub fn bind_visual_bones(
    bone_names: &Vec<String>,
    parents: &Vec<Option<usize>>,
    nodes: &Vec<(u64, String, Option<u64>)>,
) -> (r: Result<Vec<(u64, usize)>, DuplicateBone>)
    requires
        bone_names@.len() <= parents@.len(),
    ensures
        match r {
            Err(DuplicateBone(j)) => first_duplicate(bone_names@, parents@, bone_names@.len() as int) == Some(j),
            Ok(b) => {
                &&& first_duplicate(bone_names@, parents@, bone_names@.len() as int) is None
                &&& b@ == bindings(bone_names@, parents@, nodes@, nodes@.len() as int)
            },
        },
{
    let mut j: usize = 0;
    while j < bone_names.len()
        invariant
            j <= bone_names@.len(),
            bone_names@.len() <= parents@.len(),
            first_duplicate(bone_names@, parents@, j as int) is None,
        decreases bone_names@.len() - j,
    {
        let mut i: usize = 0;
        while i < j
            invariant
                i <= j < bone_names@.len(),
                bone_names@.len() <= parents@.len(),
                first_duplicate(bone_names@, parents@, j as int) is None,
                forall|m: int|
                    0 <= m < i ==> !(parents@[m] == parents@[j as int] && (#[trigger] bone_names@[m])@
                        == bone_names@[j as int]@),
            decreases j - i,
        {
            if parents[i] == parents[j] && bone_names[i] == bone_names[j] {
                proof {
                    assert(bone_names@[i as int]@ == bone_names@[j as int]@);
                    assert(repeats_earlier_bone(bone_names@, parents@, j as int));
                    assert(first_duplicate(bone_names@, parents@, j as int + 1) == Some(j));
                    lemma_first_duplicate_stays(bone_names@, parents@, j as int + 1, bone_names@.len() as int);
                }
                return Err(DuplicateBone(j));
            }
            i = i + 1;
        }
        j = j + 1;
    }
    let n = nodes.len();
    let mut out: Vec<(u64, usize)> = Vec::new();
    let mut k: usize = 0;
    while k < n
        invariant
            n == nodes@.len(),
            k <= n,
            bone_names@.len() <= parents@.len(),
            out@ == bindings(bone_names@, parents@, nodes@, k as int),
        decreases n - k,
    {
        if let Some(b) = bone_of_node(bone_names, parents, nodes, k, n) {
            out.push((nodes[k].0, b));
        }
        k = k + 1;
    }
    Ok(out)
}

/// Once a duplicate is found among the first `j` bones, it stays the first.
proof fn lemma_first_duplicate_stays(names: Seq<String>, parents: Seq<Option<usize>>, j: int, n: int)
    requires
        1 <= j <= n,
        first_duplicate(names, parents, j) == Some((j - 1) as usize),
    ensures
        first_duplicate(names, parents, n) == Some((j - 1) as usize),
    decreases n - j,
{
    if n > j {
        lemma_first_duplicate_stays(names, parents, j, n - 1);
    }
}

} // verus!
