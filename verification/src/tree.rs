//! The tree walker over an in-memory file tree.
//!
//! A listing hierarchy, once fetched, is a finite tree: files carrying a
//! name, directories carrying their children, and entries of unknown
//! kind.  `walk_names` is the walk's meaning: the eligible file names,
//! in traversal order.  `walk_tree` computes it, and its `decreases`
//! clauses are the proof that the walk terminates on a tree of any
//! depth.

use vstd::prelude::*;
use crate::bytes::{clone_bytes, views_of};
use crate::filter::{eligible_file_name, eligible_name};

verus! {

/// One node of an already-fetched listing hierarchy.
pub enum TreeNode {
    /// A file entry and its name.
    File { name: Vec<u8> },
    /// A directory entry and the listing of its contents.
    Dir { children: Vec<TreeNode> },
    /// An entry of unknown kind; the walk skips it silently.
    Other,
}

/// The eligible file names below a forest of nodes, in traversal order.
pub open spec fn walk_names(nodes: Seq<TreeNode>) -> Seq<Seq<u8>>
    decreases nodes,
{
    if nodes.len() == 0 {
        Seq::<Seq<u8>>::empty()
    } else {
        let head = match nodes[0] {
            TreeNode::File { name } => if eligible_name(name@) {
                seq![name@]
            } else {
                Seq::<Seq<u8>>::empty()
            },
            TreeNode::Dir { children } => walk_names(children@),
            TreeNode::Other => Seq::<Seq<u8>>::empty(),
        };
        head + walk_names(nodes.subrange(1, nodes.len() as int))
    }
}

/// Walking a concatenation of two forests yields the concatenation of
/// the walks.
pub proof fn lemma_walk_names_add(a: Seq<TreeNode>, b: Seq<TreeNode>)
    ensures
        walk_names(a + b) == walk_names(a) + walk_names(b),
    decreases a.len(),
{
    if a.len() == 0 {
        assert(a + b =~= b);
        assert(walk_names(a) + walk_names(b) =~= walk_names(b));
    } else {
        assert((a + b)[0] == a[0]);
        assert((a + b).subrange(1, (a + b).len() as int) =~= a.subrange(1, a.len() as int) + b);
        lemma_walk_names_add(a.subrange(1, a.len() as int), b);
        assert(walk_names(a + b) =~= walk_names(a) + walk_names(b));
    }
}

/// The walk of a single node, one case per node kind.
pub proof fn lemma_walk_names_one(node: TreeNode)
    ensures
        node matches TreeNode::File { name } ==> walk_names(seq![node]) == (if eligible_name(
            name@,
        ) {
            seq![name@]
        } else {
            Seq::<Seq<u8>>::empty()
        }),
        node matches TreeNode::Dir { children } ==> walk_names(seq![node]) == walk_names(
            children@,
        ),
        node is Other ==> walk_names(seq![node]) == Seq::<Seq<u8>>::empty(),
{
    let s = seq![node];
    assert(s.subrange(1, 1) =~= Seq::<TreeNode>::empty());
    reveal_with_fuel(walk_names, 2);
    match node {
        TreeNode::File { name } => {
            if eligible_name(name@) {
                assert(walk_names(s) =~= seq![name@]);
            } else {
                assert(walk_names(s) =~= Seq::<Seq<u8>>::empty());
            }
        },
        TreeNode::Dir { children } => {
            assert(walk_names(s) =~= walk_names(children@));
        },
        TreeNode::Other => {
            assert(walk_names(s) =~= Seq::<Seq<u8>>::empty());
        },
    }
}

/// Walking one node more extends the walk by that node's contribution.
pub proof fn lemma_walk_names_snoc(nodes: Seq<TreeNode>, i: int)
    requires
        0 <= i < nodes.len(),
    ensures
        walk_names(nodes.subrange(0, i + 1)) == walk_names(nodes.subrange(0, i)) + walk_names(
            seq![nodes[i]],
        ),
{
    assert(nodes.subrange(0, i + 1) =~= nodes.subrange(0, i) + seq![nodes[i]]);
    lemma_walk_names_add(nodes.subrange(0, i), seq![nodes[i]]);
}

/// Every name the walk yields satisfies the source filter: the walk
/// never hands over a test contract, a deployment script, or anything
/// that is not a contract source.
pub proof fn lemma_walk_names_eligible(nodes: Seq<TreeNode>)
    ensures
        forall|i: int| 0 <= i < walk_names(nodes).len() ==> eligible_name(
            #[trigger] walk_names(nodes)[i],
        ),
    decreases nodes,
{
    if nodes.len() > 0 {
        let head = match nodes[0] {
            TreeNode::File { name } => if eligible_name(name@) {
                seq![name@]
            } else {
                Seq::<Seq<u8>>::empty()
            },
            TreeNode::Dir { children } => walk_names(children@),
            TreeNode::Other => Seq::<Seq<u8>>::empty(),
        };
        let rest = walk_names(nodes.subrange(1, nodes.len() as int));
        match nodes[0] {
            TreeNode::Dir { children } => {
                lemma_walk_names_eligible(children@);
            },
            _ => {},
        }
        lemma_walk_names_eligible(nodes.subrange(1, nodes.len() as int));
        assert forall|i: int| 0 <= i < walk_names(nodes).len() implies eligible_name(
            #[trigger] walk_names(nodes)[i],
        ) by {
            assert(walk_names(nodes) == head + rest);
            if i < head.len() {
                assert(walk_names(nodes)[i] == head[i]);
            } else {
                assert(walk_names(nodes)[i] == rest[i - head.len()]);
            }
        }
    }
}

/// Collects the eligible file names below `nodes`, by recursion over
/// the real structure of the tree.
pub fn walk_tree(nodes: &Vec<TreeNode>) -> (found: Vec<Vec<u8>>)
    ensures
        views_of(found@) == walk_names(nodes@),
    decreases nodes@,
{
    let mut found: Vec<Vec<u8>> = Vec::new();
    let mut i: usize = 0;
    proof {
        assert(views_of(found@) =~= walk_names(nodes@.subrange(0, 0)));
    }
    while i < nodes.len()
        invariant
            i <= nodes@.len(),
            views_of(found@) == walk_names(nodes@.subrange(0, i as int)),
        decreases nodes@.len() - i,
    {
        proof {
            lemma_walk_names_snoc(nodes@, i as int);
            lemma_walk_names_one(nodes@[i as int]);
        }
        match &nodes[i] {
            TreeNode::File { name } => {
                if eligible_file_name(name) {
                    found.push(clone_bytes(name));
                    proof {
                        assert(views_of(found@) =~= walk_names(nodes@.subrange(0, i + 1)));
                    }
                } else {
                    proof {
                        assert(views_of(found@) =~= walk_names(nodes@.subrange(0, i + 1)));
                    }
                }
            },
            TreeNode::Dir { children } => {
                proof {
                    let node = nodes@[i as int];
                    assert(decreases_to!(nodes@ => node));
                    assert(decreases_to!(node => node->children));
                    assert(decreases_to!(node->children => node->children@));
                }
                let mut sub = walk_tree(children);
                proof {
                    let ghost old_found = found@;
                    let ghost sub_snap = sub@;
                    assert(views_of(old_found + sub_snap) =~= views_of(old_found) + views_of(
                        sub_snap,
                    ));
                }
                found.append(&mut sub);
                proof {
                    assert(views_of(found@) =~= walk_names(nodes@.subrange(0, i + 1)));
                }
            },
            TreeNode::Other => {
                proof {
                    assert(views_of(found@) =~= walk_names(nodes@.subrange(0, i + 1)));
                }
            },
        }
        i += 1;
    }
    proof {
        assert(nodes@.subrange(0, nodes@.len() as int) =~= nodes@);
    }
    found
}

} // verus!
