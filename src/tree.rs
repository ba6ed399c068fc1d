use vstd::prelude::*;

verus! {

/// One entry of a directory tree, as read from the file system.
#[derive(Debug)]
pub enum Node {
    File { name: String },
    Dir { name: String, children: Vec<Node> },
}

/// The line printed for one entry: its marker, a space, its name, and a
/// trailing separator for a directory.
pub open spec fn entry_line(marker: Seq<char>, node: Node) -> Seq<char> {
    match node {
        Node::File { name } => marker + seq![' '] + name@,
        Node::Dir { name, .. } => marker + seq![' '] + name@ + seq!['/'],
    }
}

/// The lines of the first `i` entries of `nodes`, depth first: each entry's
/// line, then, for a directory, the lines of its contents. Entries at this
/// level carry `marker`; their contents carry `inner`, and each level below
/// one more `-` than the level above it.
pub open spec fn tree_lines(nodes: Seq<Node>, i: int, marker: Seq<char>, inner: Seq<char>) -> Seq<Seq<char>>
    decreases nodes, i,
{
    if i <= 0 || i > nodes.len() {
        seq![]
    } else {
        let before = tree_lines(nodes, i - 1, marker, inner);
        let node = nodes[i - 1];
        match node {
            Node::File { .. } => before.push(entry_line(marker, node)),
            Node::Dir { children, .. } => {
                before.push(entry_line(marker, node)) + tree_lines(children@, children@.len() as int, inner, inner + seq!['-'])
            },
        }
    }
}

/// The listing of a preset whose top-level entries are `nodes`. Top-level
/// entries and their immediate contents are both marked `-`; deeper levels
/// add one `-` per level.
pub open spec fn listing(nodes: Seq<Node>) -> Seq<Seq<char>> {
    tree_lines(nodes, nodes.len() as int, seq!['-'], seq!['-'])
}

/// The number of entries in a tree, at every depth.
pub open spec fn entry_count(nodes: Seq<Node>, i: int) -> nat
    decreases nodes, i,
{
    if i <= 0 || i > nodes.len() {
        0
    } else {
        match nodes[i - 1] {
            Node::File { .. } => entry_count(nodes, i - 1) + 1,
            Node::Dir { children, .. } => entry_count(nodes, i - 1) + 1 + entry_count(children@, children@.len() as int),
        }
    }
}

proof fn lemma_tree_lines_len(nodes: Seq<Node>, i: int, marker: Seq<char>, inner: Seq<char>)
    ensures
        tree_lines(nodes, i, marker, inner).len() == entry_count(nodes, i),
    decreases nodes, i,
{
    if i <= 0 || i > nodes.len() {
    } else {
        lemma_tree_lines_len(nodes, i - 1, marker, inner);
        match nodes[i - 1] {
            Node::File { .. } => {},
            Node::Dir { children, .. } => {
                assert(decreases_to!(nodes => nodes[i - 1]));
                lemma_tree_lines_len(children@, children@.len() as int, inner, inner + seq!['-']);
            },
        }
    }
}

/// A preset's listing enumerates its whole tree: it has exactly one line for
/// each file and each directory, at every depth.
pub proof fn lemma_listing_enumerates_tree(nodes: Seq<Node>)
    ensures
        listing(nodes).len() == entry_count(nodes, nodes.len() as int),
{
    lemma_tree_lines_len(nodes, nodes.len() as int, seq!['-'], seq!['-']);
}

fn entry_text(marker: &String, node: &Node) -> (r: String)
    ensures
        r@ == entry_line(marker@, *node),
{
    proof {
        reveal_strlit(" ");
        reveal_strlit("/");
    }
    let mut r = marker.clone();
    r.append(" ");
    match node {
        Node::File { name } => {
            r.append(name.as_str());
        },
        Node::Dir { name, .. } => {
            r.append(name.as_str());
            r.append("/");
        },
    }
    r
}

fn render_into(nodes: &Vec<Node>, marker: &String, inner: &String, out: &mut Vec<String>)
    ensures
        final(out)@.map_values(|s: String| s@) == old(out)@.map_values(|s: String| s@) + tree_lines(
            nodes@,
            nodes@.len() as int,
            marker@,
            inner@,
        ),
    decreases nodes,
{
    let ghost start = out@.map_values(|s: String| s@);
    let mut deeper = inner.clone();
    proof {
        reveal_strlit("-");
    }
    deeper.append("-");
    let mut i: usize = 0;
    while i < nodes.len()
        invariant
            0 <= i <= nodes@.len(),
            deeper@ == inner@ + seq!['-'],
            out@.map_values(|s: String| s@) == start + tree_lines(nodes@, i as int, marker@, inner@),
        decreases nodes@.len() - i,
    {
        let node = &nodes[i];
        let ghost before = out@.map_values(|s: String| s@);
        let line = entry_text(marker, node);
        out.push(line);
        assert(out@.map_values(|s: String| s@) =~= before.push(entry_line(marker@, *node)));
        match node {
            Node::File { .. } => {},
            Node::Dir { children, .. } => {
                let ghost mid = out@.map_values(|s: String| s@);
                proof {
                    assert(decreases_to!(nodes => nodes@[i as int]));
                }
                render_into(children, inner, &deeper, out);
                assert(out@.map_values(|s: String| s@) =~= mid + tree_lines(
                    children@,
                    children@.len() as int,
                    inner@,
                    deeper@,
                ));
            },
        }
        assert(start + tree_lines(nodes@, i + 1, marker@, inner@) =~= out@.map_values(|s: String| s@));
        i = i + 1;
    }
}

/// The lines that list a preset's tree, given its top-level entries in the
/// order they were read.
pub fn render_tree(nodes: &Vec<Node>) -> (r: Vec<String>)
    ensures
        r@.map_values(|s: String| s@) == listing(nodes@),
{
    let mut out: Vec<String> = Vec::new();
    proof {
        reveal_strlit("-");
    }
    let marker = String::from_str("-");
    assert(out@.map_values(|s: String| s@) =~= Seq::<Seq<char>>::empty());
    assert(marker@ =~= seq!['-']);
    render_into(nodes, &marker, &marker, &mut out);
    assert(out@.map_values(|s: String| s@) =~= listing(nodes@));
    out
}

} // verus!
