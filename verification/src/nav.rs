//! The navigation engine: pure moves over a tree and a selection path,
//! defined through the flattened list of visible rows.
use crate::tree::{
    forest_vp, lemma_node_view_bounded, lemma_tree_vp_distinct, lemma_tree_vp_visible,
    lemma_tree_visible_valid, lemma_views_of, node_at, node_at_view, node_vp, set_expanded_at,
    tree_visible, tree_vp, valid_path, view_bounded, with_expanded, NodeView, TreeNode,
};
use vstd::assert_seqs_equal;
use vstd::prelude::*;

verus! {

/// Copy a path.
pub fn copy_path(p: &Vec<usize>) -> (r: Vec<usize>)
    ensures
        r@ == p@,
{
    let mut r: Vec<usize> = Vec::new();
    let mut k: usize = 0;
    while k < p.len()
        invariant
            k <= p@.len(),
            r@ == p@.take(k as int),
        decreases p@.len() - k,
    {
        r.push(p[k]);
        assert(r@ =~= p@.take(k + 1));
        k = k + 1;
    }
    proof {
        assert(r@ =~= p@);
    }
    r
}

/// The path `p` with the sibling index `i` put in front.
fn prefixed(i: usize, p: &Vec<usize>) -> (q: Vec<usize>)
    ensures
        q@ == seq![i] + p@,
{
    let mut q: Vec<usize> = Vec::new();
    q.push(i);
    let mut k: usize = 0;
    proof {
        assert(q@ =~= (seq![i] + p@).take(1));
    }
    while k < p.len()
        invariant
            k <= p@.len(),
            q@ == (seq![i] + p@).take(k + 1),
        decreases p@.len() - k,
    {
        q.push(p[k]);
        assert(q@ =~= (seq![i] + p@).take(k + 2));
        k = k + 1;
    }
    proof {
        assert(q@ =~= seq![i] + p@);
    }
    q
}

/// The paths of the visible nodes of the subtree rooted at `n`, relative to
/// `n`, in pre-order.
fn node_paths(n: &TreeNode) -> (r: Vec<Vec<usize>>)
    ensures
        r.deep_view() == node_vp(n@),
    decreases *n,
{
    let mut r: Vec<Vec<usize>> = Vec::new();
    let first: Vec<usize> = Vec::new();
    r.push(first);
    proof {
        assert(r@[0].deep_view() =~= Seq::<usize>::empty());
        assert(r.deep_view() =~= seq![Seq::<usize>::empty()]);
    }
    if n.expanded {
        let ghost f = n@.children;
        proof {
            lemma_views_of(n.children@);
        }
        let mut i: usize = 0;
        while i < n.children.len()
            invariant
                i <= n.children@.len(),
                f == n@.children,
                f.len() == n.children@.len(),
                forall|j: int| 0 <= j < n.children@.len() ==> f[j] == #[trigger] n.children@[j]@,
                r.deep_view() + forest_vp(f, i as int) == seq![Seq::<usize>::empty()] + forest_vp(
                    f,
                    0,
                ),
            decreases n.children@.len() - i,
        {
            let sub = node_paths(&n.children[i]);
            let ghost m = node_vp(f[i as int]).map_values(|p: Seq<usize>| seq![i as usize] + p);
            let ghost r0 = r.deep_view();
            proof {
                assert(r.deep_view() =~= r0 + m.take(0));
            }
            let mut j: usize = 0;
            while j < sub.len()
                invariant
                    j <= sub@.len(),
                    sub.deep_view() == node_vp(f[i as int]),
                    m == node_vp(f[i as int]).map_values(|p: Seq<usize>| seq![i as usize] + p),
                    m.len() == sub@.len(),
                    r.deep_view() == r0 + m.take(j as int),
                decreases sub@.len() - j,
            {
                let q = prefixed(i, &sub[j]);
                proof {
                    assert(sub[j as int].deep_view() == sub.deep_view()[j as int]);
                    assert(q.deep_view() =~= q@);
                    assert(q@ == seq![i] + node_vp(f[i as int])[j as int]);
                    assert(m[j as int] == seq![i] + node_vp(f[i as int])[j as int]);
                }
                let ghost rv0 = r@;
                let ghost dv0 = r.deep_view();
                r.push(q);
                proof {
                    assert(r@ == rv0.push(q));
                    assert(r.deep_view().len() == r@.len());
                    assert(dv0 == r0 + m.take(j as int));
                    assert(m.take(j as int).len() == j as int);
                    assert(m.take(j + 1).len() == j + 1);
                    assert(dv0.len() == r0.len() + j);
                    assert(dv0.len() == rv0.len());
                    assert_seqs_equal!(r.deep_view() == r0 + m.take(j + 1), t => {
                        assert(r.deep_view()[t] == r@[t].deep_view());
                        if t < rv0.len() {
                            assert(rv0.push(q)[t] == rv0[t]);
                            assert(dv0[t] == rv0[t].deep_view());
                            assert(dv0 == r0 + m.take(j as int));
                            assert(m.take(j as int).len() == j as int);
                            assert(m.take(j + 1).len() == j + 1);
                            assert(dv0.len() == r0.len() + j);
                            assert(dv0.len() == rv0.len());
                            assert(dv0[t] == (r0 + m.take(j as int))[t]);
                            if t < r0.len() {
                                assert((r0 + m.take(j as int))[t] == r0[t]);
                                assert((r0 + m.take(j + 1))[t] == r0[t]);
                            } else {
                                assert((r0 + m.take(j as int))[t] == m.take(j as int)[t
                                    - r0.len()]);
                                assert(m.take(j as int)[t - r0.len()] == m[t - r0.len()]);
                                assert((r0 + m.take(j + 1))[t] == m.take(j + 1)[t - r0.len()]);
                                assert(m.take(j + 1)[t - r0.len()] == m[t - r0.len()]);
                            }
                        } else {
                            assert(rv0.push(q)[t] == q);
                            assert(q.deep_view() =~= q@);
                            assert(dv0.len() == r0.len() + j);
                            assert(dv0.len() == rv0.len());
                            assert(t == r0.len() + j);
                            assert((r0 + m.take(j + 1))[t] == m.take(j + 1)[j as int]);
                            assert(m.take(j + 1)[j as int] == m[j as int]);
                        }
                    });
                }
                j = j + 1;
            }
            proof {
                assert(m.take(j as int) =~= m);
                assert(forest_vp(f, i as int) == m + forest_vp(f, i + 1));
                assert(r.deep_view() + forest_vp(f, i + 1) =~= (r0 + m) + forest_vp(f, i + 1));
                assert((r0 + m) + forest_vp(f, i + 1) =~= r0 + (m + forest_vp(f, i + 1)));
                assert(r0 + forest_vp(f, i as int) == seq![Seq::<usize>::empty()] + forest_vp(f, 0));
            }
            i = i + 1;
        }
        proof {
            assert(forest_vp(f, i as int) =~= Seq::<Seq<usize>>::empty());
            assert(r.deep_view() =~= r.deep_view() + forest_vp(f, i as int));
            assert(r.deep_view() =~= node_vp(n@));
        }
    } else {
        proof {
            assert(r.deep_view() =~= node_vp(n@));
        }
    }
    r
}

/// The flattened list of visible rows, as absolute paths in rendering order.
pub fn flatten_paths(t: &TreeNode) -> (r: Vec<Vec<usize>>)
    ensures
        r.deep_view() == tree_vp(t@),
{
    let mut r: Vec<Vec<usize>> = Vec::new();
    let ghost f = t@.children;
    proof {
        lemma_views_of(t.children@);
        assert(r.deep_view() =~~= Seq::<Seq<usize>>::empty());
    }
    let mut i: usize = 0;
    while i < t.children.len()
        invariant
            i <= t.children@.len(),
            f == t@.children,
            f.len() == t.children@.len(),
            forall|j: int| 0 <= j < t.children@.len() ==> f[j] == #[trigger] t.children@[j]@,
            r.deep_view() + forest_vp(f, i as int) == forest_vp(f, 0),
        decreases t.children@.len() - i,
    {
        let sub = node_paths(&t.children[i]);
        let ghost m = node_vp(f[i as int]).map_values(|p: Seq<usize>| seq![i as usize] + p);
        let ghost r0 = r.deep_view();
        proof {
            assert(r.deep_view() =~= r0 + m.take(0));
        }
        let mut j: usize = 0;
        while j < sub.len()
            invariant
                j <= sub@.len(),
                sub.deep_view() == node_vp(f[i as int]),
                m == node_vp(f[i as int]).map_values(|p: Seq<usize>| seq![i as usize] + p),
                m.len() == sub@.len(),
                r.deep_view() == r0 + m.take(j as int),
            decreases sub@.len() - j,
        {
            let q = prefixed(i, &sub[j]);
            proof {
                assert(sub[j as int].deep_view() == sub.deep_view()[j as int]);
                assert(q.deep_view() =~= q@);
                assert(q@ == seq![i] + node_vp(f[i as int])[j as int]);
                assert(m[j as int] == seq![i] + node_vp(f[i as int])[j as int]);
            }
            let ghost rv0 = r@;
            let ghost dv0 = r.deep_view();
            r.push(q);
            proof {
                assert(r@ == rv0.push(q));
                assert(r.deep_view().len() == r@.len());
                assert(dv0 == r0 + m.take(j as int));
                assert(m.take(j as int).len() == j as int);
                assert(m.take(j + 1).len() == j + 1);
                assert(dv0.len() == r0.len() + j);
                assert(dv0.len() == rv0.len());
                assert_seqs_equal!(r.deep_view() == r0 + m.take(j + 1), t => {
                    assert(r.deep_view()[t] == r@[t].deep_view());
                    if t < rv0.len() {
                        assert(rv0.push(q)[t] == rv0[t]);
                        assert(dv0[t] == rv0[t].deep_view());
                        assert(dv0 == r0 + m.take(j as int));
                        assert(m.take(j as int).len() == j as int);
                        assert(m.take(j + 1).len() == j + 1);
                        assert(dv0.len() == r0.len() + j);
                        assert(dv0.len() == rv0.len());
                        assert(dv0[t] == (r0 + m.take(j as int))[t]);
                        if t < r0.len() {
                            assert((r0 + m.take(j as int))[t] == r0[t]);
                            assert((r0 + m.take(j + 1))[t] == r0[t]);
                        } else {
                            assert((r0 + m.take(j as int))[t] == m.take(j as int)[t - r0.len()]);
                            assert(m.take(j as int)[t - r0.len()] == m[t - r0.len()]);
                            assert((r0 + m.take(j + 1))[t] == m.take(j + 1)[t - r0.len()]);
                            assert(m.take(j + 1)[t - r0.len()] == m[t - r0.len()]);
                        }
                    } else {
                        assert(rv0.push(q)[t] == q);
                        assert(q.deep_view() =~= q@);
                        assert(dv0.len() == r0.len() + j);
                        assert(dv0.len() == rv0.len());
                        assert(t == r0.len() + j);
                        assert((r0 + m.take(j + 1))[t] == m.take(j + 1)[j as int]);
                        assert(m.take(j + 1)[j as int] == m[j as int]);
                    }
                });
            }
            j = j + 1;
        }
        proof {
            assert(m.take(j as int) =~= m);
            assert(forest_vp(f, i as int) == m + forest_vp(f, i + 1));
            assert(r.deep_view() + forest_vp(f, i + 1) =~= (r0 + m) + forest_vp(f, i + 1));
            assert((r0 + m) + forest_vp(f, i + 1) =~= r0 + (m + forest_vp(f, i + 1)));
        }
        i = i + 1;
    }
    proof {
        assert(forest_vp(f, i as int) =~= Seq::<Seq<usize>>::empty());
        assert(r.deep_view() =~= r.deep_view() + forest_vp(f, i as int));
        assert(r.deep_view() =~= tree_vp(t@));
    }
    r
}

fn paths_equal(a: &Vec<usize>, b: &Vec<usize>) -> (r: bool)
    ensures
        r == (a@ == b@),
{
    if a.len() != b.len() {
        proof {
            assert(a@ != b@);
        }
        return false;
    }
    let mut k: usize = 0;
    while k < a.len()
        invariant
            k <= a@.len(),
            a@.len() == b@.len(),
            forall|t: int| 0 <= t < k ==> a@[t] == b@[t],
        decreases a@.len() - k,
    {
        if a[k] != b[k] {
            proof {
                assert(a@[k as int] != b@[k as int]);
            }
            return false;
        }
        k = k + 1;
    }
    proof {
        assert(a@ =~= b@);
    }
    true
}

/// The first position of `path` in `rows`, if it occurs there.
fn find_path(rows: &Vec<Vec<usize>>, path: &Vec<usize>) -> (r: Option<usize>)
    ensures
        match r {
            Some(k) => k < rows@.len() && rows.deep_view()[k as int] == path@,
            None => !rows.deep_view().contains(path@),
        },
{
    let mut k: usize = 0;
    while k < rows.len()
        invariant
            k <= rows@.len(),
            forall|t: int| 0 <= t < k ==> rows.deep_view()[t] != path@,
        decreases rows@.len() - k,
    {
        proof {
            assert(rows.deep_view()[k as int] == rows@[k as int].deep_view());
            assert(rows@[k as int].deep_view() =~= rows@[k as int]@);
        }
        if paths_equal(&rows[k], path) {
            return Some(k);
        }
        k = k + 1;
    }
    proof {
        if rows.deep_view().contains(path@) {
            let w = choose|w: int|
                0 <= w < rows.deep_view().len() && rows.deep_view()[w] == path@;
            assert(rows.deep_view()[w] != path@);
        }
    }
    None
}

/// Where the move-down key leads: the next row of the flattened visible
/// list, with no wrap-around at the bottom; from no selection it leads to the
/// first row; from a path that is not on screen it leads nowhere.
pub open spec fn down_spec(v: NodeView, p: Seq<usize>) -> Seq<usize> {
    let vp = tree_vp(v);
    if p.len() == 0 {
        if vp.len() > 0 {
            vp[0]
        } else {
            p
        }
    } else if vp.contains(p) {
        let k = vp.index_of(p);
        if k + 1 < vp.len() {
            vp[k + 1]
        } else {
            p
        }
    } else {
        p
    }
}

/// Where the move-up key leads: the previous row of the flattened visible
/// list; from the first row it leads to no selection; from a path that is
/// not on screen it leads nowhere.
pub open spec fn up_spec(v: NodeView, p: Seq<usize>) -> Seq<usize> {
    let vp = tree_vp(v);
    if p.len() == 0 {
        p
    } else if vp.contains(p) {
        let k = vp.index_of(p);
        if k > 0 {
            vp[k - 1]
        } else {
            Seq::<usize>::empty()
        }
    } else {
        p
    }
}

/// Depth-first successor in the visible tree: down one row, stopping at the
/// last row.
pub fn move_down(tree: &TreeNode, path: &Vec<usize>) -> (r: Vec<usize>)
    ensures
        r@ == down_spec(tree@, path@),
{
    let rows = flatten_paths(tree);
    proof {
        lemma_node_view_bounded(*tree);
    }
    if path.len() == 0 {
        if rows.len() > 0 {
            proof {
                assert(rows.deep_view()[0] =~= rows@[0]@);
            }
            return copy_path(&rows[0]);
        }
        return copy_path(path);
    }
    match find_path(&rows, path) {
        Some(k) => {
            let n = rows.len();
            proof {
                lemma_found_is_index_of(tree@, path@, k as int);
            }
            if k + 1 < n {
                proof {
                    assert(rows.deep_view()[k + 1] =~= rows@[k + 1]@);
                }
                copy_path(&rows[k + 1])
            } else {
                copy_path(path)
            }
        },
        None => copy_path(path),
    }
}

/// Inverse traversal: up one row, popping to no selection at the first row.
pub fn move_up(tree: &TreeNode, path: &Vec<usize>) -> (r: Vec<usize>)
    ensures
        r@ == up_spec(tree@, path@),
{
    let rows = flatten_paths(tree);
    proof {
        lemma_node_view_bounded(*tree);
    }
    if path.len() == 0 {
        return copy_path(path);
    }
    match find_path(&rows, path) {
        Some(k) => {
            proof {
                lemma_found_is_index_of(tree@, path@, k as int);
            }
            if k > 0 {
                proof {
                    assert(rows.deep_view()[k - 1] =~= rows@[k - 1]@);
                }
                copy_path(&rows[k - 1])
            } else {
                Vec::new()
            }
        },
        None => copy_path(path),
    }
}

/// Collapse the addressed node if it is expanded; otherwise move the
/// selection to the parent. A no-op with no selection or a stale one.
pub fn move_left(tree: &mut TreeNode, path: &Vec<usize>) -> (r: Vec<usize>)
    ensures
        path@.len() == 0 || !valid_path(old(tree)@, path@) ==> final(tree)@ == old(tree)@ && r@
            == path@,
        path@.len() > 0 && valid_path(old(tree)@, path@) && node_at_view(
            old(tree)@,
            path@,
        ).expanded ==> final(tree)@ == with_expanded(old(tree)@, path@, false) && r@ == path@,
        path@.len() > 0 && valid_path(old(tree)@, path@) && !node_at_view(
            old(tree)@,
            path@,
        ).expanded ==> final(tree)@ == old(tree)@ && r@ == path@.drop_last(),
{
    if path.len() == 0 {
        return copy_path(path);
    }
    let expanded_there: Option<bool> = match node_at(tree, path) {
        Some(n) => Some(n.expanded),
        None => None,
    };
    match expanded_there {
        None => copy_path(path),
        Some(true) => {
            set_expanded_at(tree, path, false);
            copy_path(path)
        },
        Some(false) => {
            let mut r = copy_path(path);
            r.pop();
            proof {
                assert(r@ =~= path@.drop_last());
            }
            r
        },
    }
}

/// Expand the addressed node when it is collapsed and has cached children;
/// the selection never changes. A no-op otherwise.
pub fn move_right(tree: &mut TreeNode, path: &Vec<usize>)
    ensures
        path@.len() > 0 && valid_path(old(tree)@, path@) && !node_at_view(
            old(tree)@,
            path@,
        ).expanded && node_at_view(old(tree)@, path@).children.len() > 0 ==> final(tree)@
            == with_expanded(old(tree)@, path@, true),
        path@.len() == 0 || !valid_path(old(tree)@, path@) || node_at_view(
            old(tree)@,
            path@,
        ).expanded || node_at_view(old(tree)@, path@).children.len() == 0 ==> final(tree)@ == old(
            tree,
        )@,
{
    if path.len() == 0 {
        return ;
    }
    let should_expand: bool = match node_at(tree, path) {
        Some(n) => !n.expanded && n.children.len() > 0,
        None => false,
    };
    if should_expand {
        set_expanded_at(tree, path, true);
    }
}

/// The row of the flattened visible list that the selection occupies.
pub fn selected_index(tree: &TreeNode, path: &Vec<usize>) -> (r: Option<usize>)
    ensures
        match r {
            Some(k) => k < tree_vp(tree@).len() && tree_vp(tree@)[k as int] == path@,
            None => !tree_vp(tree@).contains(path@),
        },
{
    let rows = flatten_paths(tree);
    find_path(&rows, path)
}

/// Law: from any visible selection that some row follows, moving down and
/// then moving up returns to the very node the selection started on.
pub proof fn lemma_down_up_inverse(v: NodeView, p: Seq<usize>)
    requires
        view_bounded(v),
        tree_vp(v).contains(p),
        tree_vp(v).index_of(p) + 1 < tree_vp(v).len(),
    ensures
        up_spec(v, down_spec(v, p)) == p,
{
    let vp = tree_vp(v);
    lemma_tree_vp_distinct(v);
    lemma_tree_vp_visible(v);
    let k = vp.index_of(p);
    assert(0 <= k < vp.len() && vp[k] == p);
    assert(tree_visible(v, p));
    let q = vp[k + 1];
    assert(down_spec(v, p) == q);
    assert(vp.contains(q));
    lemma_found_is_index_of(v, q, k + 1);
    assert(tree_visible(v, q));
    assert(up_spec(v, q) == vp[k]);
}

/// Law: a selection that no longer resolves degrades both vertical moves to
/// no-ops; the path comes back unchanged.
pub proof fn lemma_stale_path_moves_noop(v: NodeView, p: Seq<usize>)
    requires
        view_bounded(v),
        p.len() > 0,
        !valid_path(v, p),
    ensures
        down_spec(v, p) == p,
        up_spec(v, p) == p,
{
    lemma_tree_vp_visible(v);
    if tree_vp(v).contains(p) {
        assert(tree_visible(v, p));
        lemma_tree_visible_valid(v, p);
        assert(false);
    }
}

/// The longest prefix of `p` that still addresses a visible node; the empty
/// path when none does. A selection that survives a mutation is kept whole.
pub open spec fn clamp_spec(v: NodeView, p: Seq<usize>) -> Seq<usize>
    decreases p.len(),
{
    if p.len() == 0 {
        p
    } else if tree_visible(v, p) {
        p
    } else {
        clamp_spec(v, p.drop_last())
    }
}

/// Law: clamping never invents a selection. The clamped path is a prefix of
/// the original; a path that no longer resolves is clamped to a strictly
/// shorter prefix that is visible (and so resolves), or to no selection.
pub proof fn lemma_clamp_spec_properties(v: NodeView, p: Seq<usize>)
    ensures
        clamp_spec(v, p).len() <= p.len(),
        clamp_spec(v, p) == p.take(clamp_spec(v, p).len() as int),
        clamp_spec(v, p).len() == 0 || tree_visible(v, clamp_spec(v, p)),
        clamp_spec(v, p).len() == 0 || valid_path(v, clamp_spec(v, p)),
        p.len() > 0 && !tree_visible(v, p) ==> clamp_spec(v, p).len() < p.len(),
    decreases p.len(),
{
    if p.len() == 0 {
        assert(clamp_spec(v, p) =~= p.take(0));
    } else if tree_visible(v, p) {
        assert(clamp_spec(v, p) =~= p.take(p.len() as int));
        lemma_tree_visible_valid(v, p);
    } else {
        lemma_clamp_spec_properties(v, p.drop_last());
        let c = clamp_spec(v, p);
        assert(c == p.drop_last().take(c.len() as int));
        assert(p.drop_last() =~= p.take(p.len() - 1));
        assert(c =~= p.take(c.len() as int));
        if c.len() > 0 {
            lemma_tree_visible_valid(v, c);
        }
    }
}

/// Whether `path` addresses a node that is on screen.
pub fn path_on_screen(tree: &TreeNode, path: &Vec<usize>) -> (b: bool)
    ensures
        b == tree_visible(tree@, path@),
{
    proof {
        lemma_node_view_bounded(*tree);
        lemma_tree_vp_visible(tree@);
    }
    match selected_index(tree, path) {
        Some(k) => {
            proof {
                assert(tree_vp(tree@).contains(path@));
            }
            true
        },
        None => false,
    }
}

/// Clamp a possibly stale selection to its nearest still-visible ancestor.
pub fn clamp_path(tree: &TreeNode, path: &Vec<usize>) -> (r: Vec<usize>)
    ensures
        r@ == clamp_spec(tree@, path@),
{
    let mut r = copy_path(path);
    while r.len() > 0
        invariant
            clamp_spec(tree@, path@) == clamp_spec(tree@, r@),
        decreases r@.len(),
    {
        if path_on_screen(tree, &r) {
            return r;
        }
        let ghost before = r@;
        r.pop();
        proof {
            assert(r@ =~= before.drop_last());
        }
    }
    r
}

/// Rows are distinct, so a found index is the `index_of` the path.
proof fn lemma_found_is_index_of(v: NodeView, p: Seq<usize>, k: int)
    requires
        view_bounded(v),
        0 <= k < tree_vp(v).len(),
        tree_vp(v)[k] == p,
    ensures
        tree_vp(v).contains(p),
        tree_vp(v).index_of(p) == k,
{
    let vp = tree_vp(v);
    assert(vp.contains(p));
    lemma_tree_vp_distinct(v);
    let k2 = vp.index_of(p);
    assert(0 <= k2 < vp.len() && vp[k2] == p);
    if k2 < k {
        assert(vp[k2] != vp[k]);
    } else if k < k2 {
        assert(vp[k] != vp[k2]);
    }
}

} // verus!
