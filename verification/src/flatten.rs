//! Flattening the tree into the visible row list, and counting visible nodes.
use crate::nav::flatten_paths;
use crate::tree::{
    forest_vp, lemma_node_view_bounded, lemma_tree_visible_valid, lemma_tree_vp_visible,
    lemma_views_of, node_at, node_at_view, node_vp, tree_visible, tree_vp, with_expanded, NodeType,
    NodeView, TreeNode,
};
use vstd::prelude::*;

verus! {

/// One visible row of the rendered tree.
pub struct Row {
    pub name: String,
    pub depth: usize,
    pub node_type: NodeType,
    pub expanded: bool,
    pub has_children: bool,
}

/// `row` shows the node at `p`: its name, its nesting depth (the root's
/// children are at depth zero), and what the expansion indicator needs.
pub open spec fn row_matches(v: NodeView, p: Seq<usize>, row: Row) -> bool {
    let n = node_at_view(v, p);
    &&& row.name@ == n.name
    &&& row.depth == p.len() - 1
    &&& row.node_type == n.node_type
    &&& row.expanded == n.expanded
    &&& row.has_children == (n.children.len() > 0)
}

/// The flattened visible list: one row per visible node, in pre-order, with
/// the depth used for indentation. Rebuilt from the tree on every call.
pub fn flatten_visible(tree: &TreeNode) -> (r: Vec<Row>)
    ensures
        r@.len() == tree_vp(tree@).len(),
        forall|k: int|
            0 <= k < r@.len() ==> row_matches(tree@, tree_vp(tree@)[k], #[trigger] r@[k]),
{
    let rows = flatten_paths(tree);
    let mut out: Vec<Row> = Vec::new();
    let mut k: usize = 0;
    while k < rows.len()
        invariant
            k <= rows@.len(),
            rows.deep_view() == tree_vp(tree@),
            out@.len() == k,
            forall|t: int|
                0 <= t < k ==> row_matches(tree@, tree_vp(tree@)[t], #[trigger] out@[t]),
        decreases rows@.len() - k,
    {
        proof {
            lemma_node_view_bounded(*tree);
            lemma_tree_vp_visible(tree@);
            assert(rows.deep_view()[k as int] == rows@[k as int].deep_view());
            assert(rows@[k as int].deep_view() =~= rows@[k as int]@);
            assert(tree_vp(tree@)[k as int] == rows@[k as int]@);
            assert(tree_vp(tree@).contains(rows@[k as int]@));
            assert(tree_visible(tree@, rows@[k as int]@));
            lemma_tree_visible_valid(tree@, rows@[k as int]@);
        }
        let p = &rows[k];
        match node_at(tree, p) {
            Some(n) => {
                proof {
                    lemma_views_of(n.children@);
                }
                let row = Row {
                    name: n.name.clone(),
                    depth: p.len() - 1,
                    node_type: n.node_type,
                    expanded: n.expanded,
                    has_children: n.children.len() > 0,
                };
                out.push(row);
            },
            None => {
                proof {
                    assert(false);
                }
            },
        }
        k = k + 1;
    }
    out
}

/// How many entries a node contributes below itself when it is expanded:
/// all of its children, plus, for each expanded child, that child's own
/// visible descendants in turn.
pub open spec fn count_visible_spec(v: NodeView) -> nat
    decreases v, 1int,
{
    v.children.len() + if v.expanded {
        count_visible_from(v.children, 0)
    } else {
        0
    }
}

pub open spec fn count_visible_from(f: Seq<NodeView>, i: int) -> nat
    decreases f, f.len() - i,
{
    if 0 <= i < f.len() {
        (if f[i].expanded {
            count_visible_spec(f[i])
        } else {
            0
        }) + count_visible_from(f, i + 1)
    } else {
        0
    }
}

proof fn lemma_count_visible_monotone(f: Seq<NodeView>, i: int, j: int)
    requires
        0 <= i <= j,
    ensures
        count_visible_from(f, j) <= count_visible_from(f, i),
    decreases j - i,
{
    if i < j {
        lemma_count_visible_monotone(f, i + 1, j);
    }
}

/// The count of visible descendants of an expanded node, as the rendering
/// computes it.
pub fn count_visible_children(node: &TreeNode) -> (count: usize)
    requires
        count_visible_spec(node@) <= usize::MAX,
    ensures
        count == count_visible_spec(node@),
    decreases *node,
{
    proof {
        lemma_views_of(node.children@);
    }
    let ghost f = node@.children;
    let mut count: usize = node.children.len();
    if node.expanded {
        let mut i: usize = 0;
        while i < node.children.len()
            invariant
                i <= node.children@.len(),
                node@.expanded,
                f == node@.children,
                f.len() == node.children@.len(),
                forall|j: int| 0 <= j < node.children@.len() ==> f[j] == #[trigger] node.children@[j]@,
                count_visible_spec(node@) <= usize::MAX,
                count + count_visible_from(f, i as int) == f.len() + count_visible_from(f, 0),
            decreases node.children@.len() - i,
        {
            proof {
                lemma_count_visible_monotone(f, 0, i as int);
                lemma_count_visible_monotone(f, i as int, i + 1);
                assert(f[i as int] == node.children@[i as int]@);
            }
            if node.children[i].expanded {
                proof {
                    assert(f[i as int].expanded);
                    assert(count_visible_from(f, i as int) == count_visible_spec(f[i as int])
                        + count_visible_from(f, i + 1));
                }
                let c = count_visible_children(&node.children[i]);
                count = count + c;
            }
            i = i + 1;
        }
    }
    count
}

proof fn lemma_node_vp_len(v: NodeView)
    ensures
        v.expanded ==> node_vp(v).len() == 1 + count_visible_spec(v),
        !v.expanded ==> node_vp(v).len() == 1,
    decreases v, 1int,
{
    if v.expanded {
        lemma_forest_vp_len(v.children, 0);
    }
}

proof fn lemma_forest_vp_len(f: Seq<NodeView>, i: int)
    requires
        0 <= i <= f.len(),
    ensures
        forest_vp(f, i).len() == (f.len() - i) + count_visible_from(f, i),
    decreases f, f.len() - i,
{
    if i < f.len() {
        lemma_forest_vp_len(f, i + 1);
        lemma_node_vp_len(f[i]);
        let m = node_vp(f[i]).map_values(|p: Seq<usize>| seq![i as usize] + p);
        assert(m.len() == node_vp(f[i]).len());
        assert(forest_vp(f, i) == m + forest_vp(f, i + 1));
    }
}

/// The flattened length counts exactly the nodes reachable by expanded-only
/// descent: every child of the root, and below each expanded node its own
/// visible descendants.
pub proof fn lemma_flatten_len_counts_visible(v: NodeView)
    ensures
        tree_vp(v).len() == v.children.len() + count_visible_from(v.children, 0),
{
    lemma_forest_vp_len(v.children, 0);
}

proof fn lemma_forest_vp_update_len(f: Seq<NodeView>, i: int, j: int, w: NodeView)
    requires
        0 <= j < f.len(),
        0 <= i <= f.len(),
    ensures
        i <= j ==> forest_vp(f.update(j, w), i).len() + node_vp(f[j]).len() == forest_vp(
            f,
            i,
        ).len() + node_vp(w).len(),
        i > j ==> forest_vp(f.update(j, w), i) == forest_vp(f, i),
    decreases f.len() - i,
{
    let g = f.update(j, w);
    assert(g.len() == f.len());
    if i < f.len() {
        lemma_forest_vp_update_len(f, i + 1, j, w);
        if i > j {
            assert(g[i] == f[i]);
            assert(forest_vp(g, i) == node_vp(g[i]).map_values(
                |p: Seq<usize>| seq![i as usize] + p,
            ) + forest_vp(g, i + 1));
        } else if i == j {
            assert(g[i] == w);
            let mg = node_vp(w).map_values(|p: Seq<usize>| seq![i as usize] + p);
            let mf = node_vp(f[i]).map_values(|p: Seq<usize>| seq![i as usize] + p);
            assert(forest_vp(g, i) == mg + forest_vp(g, i + 1));
            assert(forest_vp(f, i) == mf + forest_vp(f, i + 1));
            assert(mg.len() == node_vp(w).len());
            assert(mf.len() == node_vp(f[i]).len());
        } else {
            assert(g[i] == f[i]);
            let mg = node_vp(g[i]).map_values(|p: Seq<usize>| seq![i as usize] + p);
            assert(forest_vp(g, i) == mg + forest_vp(g, i + 1));
            assert(forest_vp(f, i) == mg + forest_vp(f, i + 1));
        }
    } else {
        assert(forest_vp(g, i) == Seq::<Seq<usize>>::empty());
        assert(forest_vp(f, i) == Seq::<Seq<usize>>::empty());
    }
}

proof fn lemma_collapse_node(n: NodeView, p: Seq<usize>)
    requires
        crate::tree::visible_in(n, p),
        node_at_view(n, p).expanded,
    ensures
        node_vp(with_expanded(n, p, false)).len() + forest_vp(
            node_at_view(n, p).children,
            0,
        ).len() == node_vp(n).len(),
    decreases p.len(),
{
    if p.len() == 0 {
        lemma_node_vp_len(n);
        lemma_node_vp_len(with_expanded(n, p, false));
        lemma_forest_vp_len(n.children, 0);
    } else {
        let j = p[0] as int;
        let child = n.children[j];
        let rest = p.drop_first();
        lemma_collapse_node(child, rest);
        let w = with_expanded(child, rest, false);
        lemma_forest_vp_update_len(n.children, 0, j, w);
        assert(with_expanded(n, p, false).children == n.children.update(j, w));
        assert(n.expanded);
        assert(with_expanded(n, p, false).expanded);
    }
}

/// Law: collapsing a visible expanded node removes from the flattened length
/// exactly the number of its visible descendants, and nothing else.
pub proof fn lemma_collapse_removes_descendants(v: NodeView, p: Seq<usize>)
    requires
        tree_visible(v, p),
        node_at_view(v, p).expanded,
    ensures
        tree_vp(with_expanded(v, p, false)).len() + (node_vp(node_at_view(v, p)).len() - 1)
            == tree_vp(v).len(),
{
    let j = p[0] as int;
    let child = v.children[j];
    let rest = p.drop_first();
    lemma_collapse_node(child, rest);
    let w = with_expanded(child, rest, false);
    lemma_forest_vp_update_len(v.children, 0, j, w);
    assert(with_expanded(v, p, false).children == v.children.update(j, w));
    lemma_node_vp_len(node_at_view(v, p));
    assert(node_at_view(v, p) == node_at_view(child, rest));
}

/// Restated over the descendant count: the removed rows are exactly
/// `count_visible_spec` of the collapsed node.
pub proof fn lemma_collapse_removes_count(v: NodeView, p: Seq<usize>)
    requires
        tree_visible(v, p),
        node_at_view(v, p).expanded,
    ensures
        tree_vp(with_expanded(v, p, false)).len() + count_visible_spec(node_at_view(v, p))
            == tree_vp(v).len(),
{
    lemma_collapse_removes_descendants(v, p);
    lemma_node_vp_len(node_at_view(v, p));
}

} // verus!
