use solharvest::entry::ContentEntry;
use solharvest::tree::{walk_tree, TreeNode};
use solharvest::walker::WalkState;

#[test]
fn walk_collects_eligible_files_across_directories() {
    // root = [file:"A.sol", dir:"lib" = [file:"B.sol", file:"B.t.sol"]]
    let root = vec![
        TreeNode::File { name: b"A.sol".to_vec() },
        TreeNode::Dir {
            children: vec![
                TreeNode::File { name: b"B.sol".to_vec() },
                TreeNode::File { name: b"B.t.sol".to_vec() },
            ],
        },
    ];
    let found = walk_tree(&root);
    assert_eq!(found, vec![b"A.sol".to_vec(), b"B.sol".to_vec()]);
}

#[test]
fn walk_yields_the_same_names_whatever_the_sibling_order() {
    let reversed = vec![
        TreeNode::Dir {
            children: vec![
                TreeNode::File { name: b"B.t.sol".to_vec() },
                TreeNode::File { name: b"B.sol".to_vec() },
            ],
        },
        TreeNode::File { name: b"A.sol".to_vec() },
    ];
    let mut found = walk_tree(&reversed);
    found.sort();
    assert_eq!(found, vec![b"A.sol".to_vec(), b"B.sol".to_vec()]);
}

#[test]
fn walk_skips_unknown_entries() {
    let root = vec![
        TreeNode::Other,
        TreeNode::File { name: b"C.sol".to_vec() },
        TreeNode::Other,
    ];
    assert_eq!(walk_tree(&root), vec![b"C.sol".to_vec()]);
}

#[test]
fn walk_of_empty_tree_is_empty() {
    let root: Vec<TreeNode> = Vec::new();
    assert!(walk_tree(&root).is_empty());
}

#[test]
fn walk_terminates_on_a_deeply_nested_tree() {
    let mut node = TreeNode::File { name: b"Deep.sol".to_vec() };
    for _ in 0..300 {
        node = TreeNode::Dir { children: vec![node] };
    }
    let root = vec![node];
    assert_eq!(walk_tree(&root), vec![b"Deep.sol".to_vec()]);
}

#[test]
fn worklist_starts_at_the_root() {
    let mut w = WalkState::new();
    let first = w.next_dir();
    assert_eq!(first, Some(Vec::new()));
    assert_eq!(w.next_dir(), None);
}

#[test]
fn absorb_queues_directories_and_keeps_eligible_files() {
    let mut w = WalkState::new();
    assert_eq!(w.next_dir(), Some(Vec::new()));
    let listing = vec![
        ContentEntry::file(b"A.sol".to_vec()),
        ContentEntry::dir(b"lib".to_vec()),
        ContentEntry::file(b"README.md".to_vec()),
    ];
    w.absorb(&listing);
    assert_eq!(w.found, vec![b"A.sol".to_vec()]);
    assert_eq!(w.next_dir(), Some(b"lib".to_vec()));
    let nested = vec![
        ContentEntry::file(b"B.sol".to_vec()),
        ContentEntry::file(b"B.t.sol".to_vec()),
    ];
    w.absorb(&nested);
    assert_eq!(w.next_dir(), None);
    assert_eq!(w.found, vec![b"A.sol".to_vec(), b"B.sol".to_vec()]);
}

#[test]
fn absorb_skips_directories_without_a_path() {
    let mut w = WalkState::new();
    assert_eq!(w.next_dir(), Some(Vec::new()));
    let mut dir = ContentEntry::dir(b"lib".to_vec());
    dir.path = None;
    w.absorb(&vec![dir]);
    assert_eq!(w.next_dir(), None);
}
