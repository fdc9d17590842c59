//! The resource tree: nodes addressed by paths of sibling indices.
use vstd::prelude::*;

verus! {

/// Which kind of resource a tree node stands for.
#[derive(Debug, Clone, Copy)]
pub enum NodeType {
    Organization,
    Workspace,
    ComputeEnvironment,
}

/// The identifier needed to fetch a node's children from the service.
#[derive(Debug, Clone)]
pub enum NodeId {
    Organization(i64),
    Workspace(i64),
    ComputeEnvironment(String),
}

/// One node of the navigation tree.
#[derive(Debug)]
pub struct TreeNode {
    pub name: String,
    pub expanded: bool,
    pub children: Vec<TreeNode>,
    pub node_type: NodeType,
    pub id: Option<NodeId>,
}

/// The mathematical value of a `NodeId`: strings become character sequences.
pub ghost enum IdView {
    Organization(i64),
    Workspace(i64),
    ComputeEnvironment(Seq<char>),
}

/// The mathematical value of a tree node.
#[verifier::ext_equal]
pub ghost struct NodeView {
    pub name: Seq<char>,
    pub expanded: bool,
    pub children: Seq<NodeView>,
    pub node_type: NodeType,
    pub id: Option<IdView>,
}

pub open spec fn id_view(id: Option<NodeId>) -> Option<IdView> {
    match id {
        None => None,
        Some(NodeId::Organization(x)) => Some(IdView::Organization(x)),
        Some(NodeId::Workspace(x)) => Some(IdView::Workspace(x)),
        Some(NodeId::ComputeEnvironment(s)) => Some(IdView::ComputeEnvironment(s@)),
    }
}

pub open spec fn node_view(n: TreeNode) -> NodeView
    decreases n, 1int,
{
    NodeView {
        name: n.name@,
        expanded: n.expanded,
        children: forest_view(n.children@, 0),
        node_type: n.node_type,
        id: id_view(n.id),
    }
}

/// The views of the nodes `f[i..]`, elementwise, in order.
pub open spec fn forest_view(f: Seq<TreeNode>, i: int) -> Seq<NodeView>
    decreases f, f.len() - i,
{
    if 0 <= i < f.len() {
        seq![node_view(f[i])] + forest_view(f, i + 1)
    } else {
        Seq::<NodeView>::empty()
    }
}

/// The views of a sequence of nodes, elementwise.
pub open spec fn views_of(s: Seq<TreeNode>) -> Seq<NodeView> {
    forest_view(s, 0)
}

proof fn lemma_forest_view(f: Seq<TreeNode>, i: int)
    requires
        0 <= i <= f.len(),
    ensures
        forest_view(f, i).len() == f.len() - i,
        forall|j: int| i <= j < f.len() ==> forest_view(f, i)[j - i] == f[j]@,
    decreases f.len() - i,
{
    if i < f.len() {
        lemma_forest_view(f, i + 1);
    }
}

/// Elementwise correspondence between a node sequence and its view.
pub proof fn lemma_views_of(f: Seq<TreeNode>)
    ensures
        views_of(f).len() == f.len(),
        forall|j: int| 0 <= j < f.len() ==> #[trigger] views_of(f)[j] == f[j]@,
{
    lemma_forest_view(f, 0);
}

impl View for TreeNode {
    type V = NodeView;

    open spec fn view(&self) -> NodeView {
        node_view(*self)
    }
}

/// A path addresses a node by successive sibling indices, starting from the
/// root's children. The empty path addresses no node (nothing selected).
pub open spec fn valid_path(v: NodeView, p: Seq<usize>) -> bool
    decreases p.len(),
{
    p.len() == 0 || (p[0] < v.children.len() && valid_path(v.children[p[0] as int], p.drop_first()))
}

/// The node addressed by `p` below `v` (meaningful only when `valid_path` holds).
pub open spec fn node_at_view(v: NodeView, p: Seq<usize>) -> NodeView
    decreases p.len(),
{
    if p.len() == 0 {
        v
    } else if p[0] < v.children.len() {
        node_at_view(v.children[p[0] as int], p.drop_first())
    } else {
        v
    }
}

/// The paths of all visible nodes in the subtree rooted at `v`, in pre-order:
/// `v` itself (the empty relative path) first, then, only if `v` is expanded,
/// the visible nodes of each child in sibling order.
pub open spec fn node_vp(v: NodeView) -> Seq<Seq<usize>>
    decreases v, 1int,
{
    seq![Seq::<usize>::empty()] + if v.expanded {
        forest_vp(v.children, 0)
    } else {
        Seq::<Seq<usize>>::empty()
    }
}

/// The visible paths contributed by the siblings `f[i..]`, each child's rows
/// prefixed with its sibling index.
pub open spec fn forest_vp(f: Seq<NodeView>, i: int) -> Seq<Seq<usize>>
    decreases f, f.len() - i,
{
    if 0 <= i < f.len() {
        node_vp(f[i]).map_values(|p: Seq<usize>| seq![i as usize] + p) + forest_vp(f, i + 1)
    } else {
        Seq::<Seq<usize>>::empty()
    }
}

/// The visible rows of the whole tree, excluding the root container itself:
/// what the flattened rendering shows, as paths, in rendering order.
pub open spec fn tree_vp(v: NodeView) -> Seq<Seq<usize>> {
    forest_vp(v.children, 0)
}

/// `v` with the children of the node at `p` replaced by `c` and that node
/// marked expanded; everything else unchanged. Meaningful when `p` is valid.
pub open spec fn with_graft(v: NodeView, p: Seq<usize>, c: Seq<NodeView>) -> NodeView
    decreases p.len(),
{
    if p.len() == 0 {
        NodeView { expanded: true, children: c, ..v }
    } else {
        NodeView {
            children: v.children.update(
                p[0] as int,
                with_graft(v.children[p[0] as int], p.drop_first(), c),
            ),
            ..v
        }
    }
}

/// `v` with the `expanded` flag of the node at `p` set to `e`; everything
/// else, the node's cached children included, unchanged.
pub open spec fn with_expanded(v: NodeView, p: Seq<usize>, e: bool) -> NodeView
    decreases p.len(),
{
    if p.len() == 0 {
        NodeView { expanded: e, ..v }
    } else {
        NodeView {
            children: v.children.update(
                p[0] as int,
                with_expanded(v.children[p[0] as int], p.drop_first(), e),
            ),
            ..v
        }
    }
}

/// `p` addresses a node below `v` that is on screen: every index is in range
/// and every node strictly above the target is expanded.
pub open spec fn visible_in(v: NodeView, p: Seq<usize>) -> bool
    decreases p.len(),
{
    p.len() == 0 || (v.expanded && p[0] < v.children.len() && visible_in(
        v.children[p[0] as int],
        p.drop_first(),
    ))
}

/// `p` addresses a visible node of the whole tree (the root container does
/// not count as an addressed node, and its own flag is ignored).
pub open spec fn tree_visible(v: NodeView, p: Seq<usize>) -> bool {
    p.len() > 0 && p[0] < v.children.len() && visible_in(v.children[p[0] as int], p.drop_first())
}

/// Every node of the view has at most `usize::MAX` children, as the view of
/// any tree held in memory does.
pub open spec fn view_bounded(v: NodeView) -> bool
    decreases v, 1int,
{
    v.children.len() <= usize::MAX && forest_bounded(v.children, 0)
}

pub open spec fn forest_bounded(f: Seq<NodeView>, i: int) -> bool
    decreases f, f.len() - i,
{
    0 <= i < f.len() ==> (view_bounded(f[i]) && forest_bounded(f, i + 1))
}

/// The view of a tree held in memory is bounded.
pub proof fn lemma_node_view_bounded(n: TreeNode)
    ensures
        view_bounded(n@),
    decreases n, 1int,
{
    assert(n.children.len() == n.children@.len());
    lemma_views_of(n.children@);
    assert forall|i: int| 0 <= i < n@.children.len() implies forest_bounded_at(
        n@.children,
        i,
    ) by {
        assert(views_of(n.children@)[i] == n.children@[i]@);
        lemma_node_view_bounded(n.children@[i]);
    }
    lemma_forest_bounded_pointwise(n@.children, 0);
}

/// Helper: `f[i]` is a bounded view (trivially true out of range).
spec fn forest_bounded_at(f: Seq<NodeView>, i: int) -> bool {
    0 <= i < f.len() ==> view_bounded(f[i])
}

proof fn lemma_forest_bounded_pointwise(f: Seq<NodeView>, i: int)
    requires
        forall|j: int| 0 <= j < f.len() ==> forest_bounded_at(f, j),
    ensures
        forest_bounded(f, i),
    decreases f.len() - i,
{
    if 0 <= i < f.len() {
        assert(forest_bounded_at(f, i));
        lemma_forest_bounded_pointwise(f, i + 1);
    }
}

pub proof fn lemma_visible_in_valid(v: NodeView, p: Seq<usize>)
    requires
        visible_in(v, p),
    ensures
        valid_path(v, p),
    decreases p.len(),
{
    if p.len() > 0 {
        lemma_visible_in_valid(v.children[p[0] as int], p.drop_first());
    }
}

/// A visible path is in particular a path that resolves.
pub proof fn lemma_tree_visible_valid(v: NodeView, p: Seq<usize>)
    requires
        tree_visible(v, p),
    ensures
        valid_path(v, p),
{
    lemma_visible_in_valid(v.children[p[0] as int], p.drop_first());
}

proof fn lemma_forest_vp_bounds(f: Seq<NodeView>, i: int)
    requires
        0 <= i,
        f.len() <= usize::MAX,
    ensures
        forall|k: int|
            0 <= k < forest_vp(f, i).len() ==> {
                &&& (#[trigger] forest_vp(f, i)[k]).len() >= 1
                &&& i <= forest_vp(f, i)[k][0] < f.len()
            },
    decreases f.len() - i,
{
    if i < f.len() {
        lemma_forest_vp_bounds(f, i + 1);
        let m = node_vp(f[i]).map_values(|p: Seq<usize>| seq![i as usize] + p);
        assert(m.len() == node_vp(f[i]).len());
        assert(forest_vp(f, i) == m + forest_vp(f, i + 1));
        assert forall|k: int| 0 <= k < forest_vp(f, i).len() implies {
            &&& (#[trigger] forest_vp(f, i)[k]).len() >= 1
            &&& i <= forest_vp(f, i)[k][0] < f.len()
        } by {
            if k < m.len() {
                assert(m[k] == seq![i as usize] + node_vp(f[i])[k]);
                assert(forest_vp(f, i)[k] == m[k]);
            } else {
                assert((m + forest_vp(f, i + 1))[k] == forest_vp(f, i + 1)[k - m.len()]);
                assert(forest_vp(f, i)[k] == forest_vp(f, i + 1)[k - m.len()]);
            }
        }
    }
}

proof fn lemma_node_vp_distinct(v: NodeView)
    requires
        view_bounded(v),
    ensures
        forall|a: int, b: int|
            0 <= a < b < node_vp(v).len() ==> node_vp(v)[a] != node_vp(v)[b],
    decreases v, 1int,
{
    if v.expanded {
        lemma_forest_vp_distinct(v.children, 0);
        lemma_forest_vp_bounds(v.children, 0);
        assert forall|a: int, b: int| 0 <= a < b < node_vp(v).len() implies node_vp(v)[a]
            != node_vp(v)[b] by {
            let h = seq![Seq::<usize>::empty()];
            assert(node_vp(v) == h + forest_vp(v.children, 0));
            if a == 0 {
                assert(node_vp(v)[a].len() == 0);
                assert((h + forest_vp(v.children, 0))[b] == forest_vp(v.children, 0)[b - 1]);
                assert(node_vp(v)[b].len() >= 1);
            } else {
                assert((h + forest_vp(v.children, 0))[a] == forest_vp(v.children, 0)[a - 1]);
                assert((h + forest_vp(v.children, 0))[b] == forest_vp(v.children, 0)[b - 1]);
                assert(node_vp(v)[a] == forest_vp(v.children, 0)[a - 1]);
                assert(node_vp(v)[b] == forest_vp(v.children, 0)[b - 1]);
            }
        }
    }
}

proof fn lemma_forest_vp_distinct(f: Seq<NodeView>, i: int)
    requires
        0 <= i,
        f.len() <= usize::MAX,
        forest_bounded(f, i),
    ensures
        forall|a: int, b: int|
            0 <= a < b < forest_vp(f, i).len() ==> forest_vp(f, i)[a] != forest_vp(f, i)[b],
    decreases f, f.len() - i,
{
    if i < f.len() {
        lemma_forest_vp_distinct(f, i + 1);
        lemma_forest_vp_bounds(f, i + 1);
        lemma_node_vp_distinct(f[i]);
        let m = node_vp(f[i]).map_values(|p: Seq<usize>| seq![i as usize] + p);
        assert(m.len() == node_vp(f[i]).len());
        assert(forest_vp(f, i) == m + forest_vp(f, i + 1));
        assert forall|a: int, b: int| 0 <= a < b < forest_vp(f, i).len() implies forest_vp(f, i)[a]
            != forest_vp(f, i)[b] by {
            if b < m.len() {
                assert(m[a] == seq![i as usize] + node_vp(f[i])[a]);
                assert(m[b] == seq![i as usize] + node_vp(f[i])[b]);
                assert(forest_vp(f, i)[a] == m[a]);
                assert(forest_vp(f, i)[b] == m[b]);
                if forest_vp(f, i)[a] == forest_vp(f, i)[b] {
                    assert(node_vp(f[i])[a] =~= node_vp(f[i])[b]) by {
                        assert forall|j: int| 0 <= j < node_vp(f[i])[a].len() implies node_vp(
                            f[i],
                        )[a][j] == node_vp(f[i])[b][j] by {
                            assert((seq![i as usize] + node_vp(f[i])[a])[j + 1] == node_vp(
                                f[i],
                            )[a][j]);
                            assert((seq![i as usize] + node_vp(f[i])[b])[j + 1] == node_vp(
                                f[i],
                            )[b][j]);
                        }
                    }
                    assert(false);
                }
            } else if a < m.len() {
                assert(m[a] == seq![i as usize] + node_vp(f[i])[a]);
                assert(forest_vp(f, i)[a] == m[a]);
                assert(forest_vp(f, i)[a][0] == i);
                assert((m + forest_vp(f, i + 1))[b] == forest_vp(f, i + 1)[b - m.len()]);
                assert(forest_vp(f, i)[b] == forest_vp(f, i + 1)[b - m.len()]);
                assert(forest_vp(f, i)[b][0] >= i + 1);
            } else {
                assert((m + forest_vp(f, i + 1))[a] == forest_vp(f, i + 1)[a - m.len()]);
                assert((m + forest_vp(f, i + 1))[b] == forest_vp(f, i + 1)[b - m.len()]);
                assert(forest_vp(f, i)[a] == forest_vp(f, i + 1)[a - m.len()]);
                assert(forest_vp(f, i)[b] == forest_vp(f, i + 1)[b - m.len()]);
            }
        }
    }
}

/// No visible path occurs twice in the flattened order.
pub proof fn lemma_tree_vp_distinct(v: NodeView)
    requires
        view_bounded(v),
    ensures
        forall|a: int, b: int|
            0 <= a < b < tree_vp(v).len() ==> tree_vp(v)[a] != tree_vp(v)[b],
{
    lemma_forest_vp_distinct(v.children, 0);
}

proof fn lemma_node_vp_visible(v: NodeView)
    requires
        view_bounded(v),
    ensures
        forall|p: Seq<usize>| #[trigger] node_vp(v).contains(p) <==> visible_in(v, p),
    decreases v, 1int,
{
    if v.expanded {
        lemma_forest_vp_visible(v.children, 0);
    }
    let h = seq![Seq::<usize>::empty()];
    assert forall|p: Seq<usize>| #[trigger] node_vp(v).contains(p) implies visible_in(v, p) by {
        let k = choose|k: int| 0 <= k < node_vp(v).len() && node_vp(v)[k] == p;
        if k == 0 {
            assert(p.len() == 0);
        } else {
            assert(v.expanded);
            assert(node_vp(v) == h + forest_vp(v.children, 0));
            assert((h + forest_vp(v.children, 0))[k] == forest_vp(v.children, 0)[k - 1]);
            assert(forest_vp(v.children, 0)[k - 1] == p);
            assert(forest_vp(v.children, 0).contains(p));
        }
    }
    assert forall|p: Seq<usize>| visible_in(v, p) implies #[trigger] node_vp(v).contains(p) by {
        if p.len() == 0 {
            assert(node_vp(v)[0] == p);
        } else {
            assert(forest_vp(v.children, 0).contains(p));
            let g = forest_vp(v.children, 0);
            let k = choose|k: int| 0 <= k < g.len() && g[k] == p;
            assert(node_vp(v) == h + g);
            assert((h + g)[k + 1] == g[k]);
            assert(node_vp(v)[k + 1] == p);
        }
    }
}

proof fn lemma_forest_vp_visible(f: Seq<NodeView>, i: int)
    requires
        0 <= i,
        f.len() <= usize::MAX,
        forest_bounded(f, i),
    ensures
        forall|p: Seq<usize>|
            #[trigger] forest_vp(f, i).contains(p) <==> (p.len() > 0 && i <= p[0] < f.len()
                && visible_in(f[p[0] as int], p.drop_first())),
    decreases f, f.len() - i,
{
    if i < f.len() {
        lemma_forest_vp_visible(f, i + 1);
        lemma_node_vp_visible(f[i]);
        let m = node_vp(f[i]).map_values(|p: Seq<usize>| seq![i as usize] + p);
        assert(m.len() == node_vp(f[i]).len());
        assert(forest_vp(f, i) == m + forest_vp(f, i + 1));
        assert forall|p: Seq<usize>| #[trigger] forest_vp(f, i).contains(p) implies (p.len() > 0
            && i <= p[0] < f.len() && visible_in(f[p[0] as int], p.drop_first())) by {
            let k = choose|k: int| 0 <= k < forest_vp(f, i).len() && forest_vp(f, i)[k] == p;
            if k < m.len() {
                let q = node_vp(f[i])[k];
                assert(m[k] == seq![i as usize] + q);
                assert(forest_vp(f, i)[k] == m[k]);
                assert(p == seq![i as usize] + q);
                assert(node_vp(f[i]).contains(q));
                assert(p[0] == i);
                assert(p.drop_first() =~= q);
            } else {
                assert((m + forest_vp(f, i + 1))[k] == forest_vp(f, i + 1)[k - m.len()]);
                assert(forest_vp(f, i + 1)[k - m.len()] == p);
                assert(forest_vp(f, i + 1).contains(p));
            }
        }
        assert forall|p: Seq<usize>|
            (p.len() > 0 && i <= p[0] < f.len() && visible_in(
                f[p[0] as int],
                p.drop_first(),
            )) implies #[trigger] forest_vp(f, i).contains(p) by {
            if p[0] == i {
                assert(node_vp(f[i]).contains(p.drop_first()));
                let w = node_vp(f[i]);
                let k = choose|k: int| 0 <= k < w.len() && w[k] == p.drop_first();
                assert(m[k] == seq![i as usize] + p.drop_first());
                assert(seq![i as usize] + p.drop_first() =~= p);
                assert((m + forest_vp(f, i + 1))[k] == m[k]);
                assert(forest_vp(f, i)[k] == p);
            } else {
                assert(forest_vp(f, i + 1).contains(p));
                let g = forest_vp(f, i + 1);
                let k = choose|k: int| 0 <= k < g.len() && g[k] == p;
                assert((m + g)[m.len() + k] == g[k]);
                assert(forest_vp(f, i)[m.len() + k] == p);
            }
        }
    } else {
        assert forall|p: Seq<usize>| #[trigger] forest_vp(f, i).contains(p) implies false by {
            let k = choose|k: int| 0 <= k < forest_vp(f, i).len() && forest_vp(f, i)[k] == p;
        }
    }
}

/// A path is one of the flattened visible rows exactly when it addresses a
/// visible node.
pub proof fn lemma_tree_vp_visible(v: NodeView)
    requires
        view_bounded(v),
    ensures
        forall|p: Seq<usize>| #[trigger] tree_vp(v).contains(p) <==> tree_visible(v, p),
{
    lemma_forest_vp_visible(v.children, 0);
}

/// Resolve a path to a node reference; `None` as soon as any index is out of
/// range, so a stale path is never dereferenced.
pub fn node_at<'a>(n: &'a TreeNode, path: &Vec<usize>) -> (r: Option<&'a TreeNode>)
    ensures
        r is Some <==> valid_path(n@, path@),
        r is Some ==> r->0@ == node_at_view(n@, path@),
{
    let mut cur: &TreeNode = n;
    let mut i: usize = 0;
    proof {
        assert(path@.skip(0) =~= path@);
    }
    while i < path.len()
        invariant
            i <= path@.len(),
            valid_path(n@, path@) <==> valid_path(cur@, path@.skip(i as int)),
            valid_path(cur@, path@.skip(i as int)) ==> node_at_view(n@, path@) == node_at_view(
                cur@,
                path@.skip(i as int),
            ),
        decreases path@.len() - i,
    {
        assert(path@.skip(i as int)[0] == path@[i as int]);
        proof {
            lemma_views_of(cur.children@);
        }
        if path[i] >= cur.children.len() {
            return None;
        }
        assert(path@.skip(i as int).drop_first() =~= path@.skip(i + 1));
        cur = &cur.children[path[i]];
        i = i + 1;
    }
    assert(path@.skip(i as int) =~= Seq::<usize>::empty());
    Some(cur)
}

fn graft_rec(n: &mut TreeNode, path: &Vec<usize>, i: usize, children: Vec<TreeNode>) -> (applied:
    bool)
    requires
        i <= path@.len(),
    ensures
        applied == valid_path(old(n)@, path@.skip(i as int)),
        applied ==> final(n)@ == with_graft(old(n)@, path@.skip(i as int), views_of(children@)),
        !applied ==> final(n)@ == old(n)@,
    decreases path@.len() - i,
{
    if i == path.len() {
        assert(path@.skip(i as int) =~= Seq::<usize>::empty());
        n.children = children;
        n.expanded = true;
        assert(n@ =~= with_graft(old(n)@, path@.skip(i as int), views_of(children@)));
        true
    } else {
        let idx = path[i];
        assert(path@.skip(i as int)[0] == path@[i as int]);
        assert(path@.skip(i as int).drop_first() =~= path@.skip(i + 1));
        proof {
            lemma_views_of(n.children@);
        }
        if idx >= n.children.len() {
            false
        } else {
            let applied = graft_rec(&mut n.children[idx], path, i + 1, children);
            proof {
                lemma_views_of(n.children@);
                lemma_views_of(old(n).children@);
                if applied {
                    assert(n@.children =~= old(n)@.children.update(
                        idx as int,
                        with_graft(
                            old(n)@.children[idx as int],
                            path@.skip(i + 1),
                            views_of(children@),
                        ),
                    ));
                    assert(n@ =~= with_graft(old(n)@, path@.skip(i as int), views_of(children@)));
                } else {
                    assert(n@.children =~= old(n)@.children);
                    assert(n@ =~= old(n)@);
                }
            }
            applied
        }
    }
}

/// Replace the children of the node addressed by `path` and mark it expanded.
/// If the path no longer resolves, the stale result is discarded and the tree
/// is left exactly as it was.
pub fn graft(t: &mut TreeNode, path: &Vec<usize>, children: Vec<TreeNode>) -> (applied: bool)
    ensures
        applied == valid_path(old(t)@, path@),
        applied ==> final(t)@ == with_graft(old(t)@, path@, views_of(children@)),
        !applied ==> final(t)@ == old(t)@,
{
    proof {
        assert(path@.skip(0) =~= path@);
    }
    graft_rec(t, path, 0, children)
}

fn set_expanded_rec(n: &mut TreeNode, path: &Vec<usize>, i: usize, e: bool) -> (applied: bool)
    requires
        i <= path@.len(),
    ensures
        applied == valid_path(old(n)@, path@.skip(i as int)),
        applied ==> final(n)@ == with_expanded(old(n)@, path@.skip(i as int), e),
        !applied ==> final(n)@ == old(n)@,
    decreases path@.len() - i,
{
    if i == path.len() {
        assert(path@.skip(i as int) =~= Seq::<usize>::empty());
        n.expanded = e;
        assert(n@ =~= with_expanded(old(n)@, path@.skip(i as int), e));
        true
    } else {
        let idx = path[i];
        assert(path@.skip(i as int)[0] == path@[i as int]);
        assert(path@.skip(i as int).drop_first() =~= path@.skip(i + 1));
        proof {
            lemma_views_of(n.children@);
        }
        if idx >= n.children.len() {
            false
        } else {
            let applied = set_expanded_rec(&mut n.children[idx], path, i + 1, e);
            proof {
                lemma_views_of(n.children@);
                lemma_views_of(old(n).children@);
                if applied {
                    assert(n@.children =~= old(n)@.children.update(
                        idx as int,
                        with_expanded(old(n)@.children[idx as int], path@.skip(i + 1), e),
                    ));
                    assert(n@ =~= with_expanded(old(n)@, path@.skip(i as int), e));
                } else {
                    assert(n@.children =~= old(n)@.children);
                    assert(n@ =~= old(n)@);
                }
            }
            applied
        }
    }
}

/// Set the `expanded` flag of the node addressed by `path`; a no-op when the
/// path does not resolve.
pub fn set_expanded_at(t: &mut TreeNode, path: &Vec<usize>, e: bool) -> (applied: bool)
    ensures
        applied == valid_path(old(t)@, path@),
        applied ==> final(t)@ == with_expanded(old(t)@, path@, e),
        !applied ==> final(t)@ == old(t)@,
{
    proof {
        assert(path@.skip(0) =~= path@);
    }
    set_expanded_rec(t, path, 0, e)
}

} // verus!
