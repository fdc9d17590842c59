//! The session controller: owns the tree, the selection and the status
//! message, and decides when a load from the service is needed. It performs
//! no I/O itself: a load is handed out as a `FetchRequest`, and its outcome
//! comes back through `complete_fetch`, which revalidates the target path
//! before grafting.
use crate::nav::{
    clamp_path, clamp_spec, copy_path, down_spec, move_down, move_left, move_right, move_up,
    path_on_screen, up_spec,
};
use crate::tree::{
    graft, id_view, lemma_tree_visible_valid, node_at, node_at_view, set_expanded_at,
    tree_visible, valid_path, views_of, with_expanded, with_graft, IdView, NodeId, NodeType,
    TreeNode,
};
use crate::models::compute_env::ComputeEnv;
use crate::models::organization::Organization;
use crate::models::workspace::Workspace;
use vstd::prelude::*;
use vstd::string::StringExecFns;

verus! {

/// The detail-pane tabs.
#[derive(Debug, Clone, Copy, PartialEq, Eq, Structural)]
pub enum Tab {
    ComputeEnvs,
    Pipelines,
    Members,
    Settings,
}

impl Tab {
    pub fn as_str(&self) -> (r: &'static str)
        ensures
            match *self {
                Tab::ComputeEnvs => r@ == "Compute Envs"@,
                Tab::Pipelines => r@ == "Pipelines"@,
                Tab::Members => r@ == "Members"@,
                Tab::Settings => r@ == "Settings"@,
            },
    {
        match self {
            Tab::ComputeEnvs => "Compute Envs",
            Tab::Pipelines => "Pipelines",
            Tab::Members => "Members",
            Tab::Settings => "Settings",
        }
    }
}

/// A load the controller asks its caller to perform against the service.
#[derive(Debug, Clone, Copy, PartialEq, Eq, Structural)]
pub enum FetchRequest {
    Organizations,
    Workspaces(i64),
    ComputeEnvs(i64),
}

/// The one load that may be outstanding: where its result must be grafted,
/// and which node the path pointed at when the load was issued.
#[derive(Debug)]
pub struct PendingFetch {
    pub path: Vec<usize>,
    pub target: Option<NodeId>,
    pub request: FetchRequest,
}

/// The interactive console's state.
#[derive(Debug)]
pub struct App {
    pub title: String,
    pub should_quit: bool,
    pub show_help: bool,
    pub show_menu: bool,
    pub tabs: Vec<Tab>,
    pub current_tab: usize,
    pub tree: TreeNode,
    pub selected_path: Vec<usize>,
    pub status_message: String,
    pub pending: Option<PendingFetch>,
}

/// Everything the navigation keys leave alone.
pub open spec fn nav_frame(a: App, b: App) -> bool {
    &&& b.title == a.title
    &&& b.should_quit == a.should_quit
    &&& b.show_help == a.show_help
    &&& b.show_menu == a.show_menu
    &&& b.tabs == a.tabs
    &&& b.current_tab == a.current_tab
    &&& b.status_message == a.status_message
    &&& b.pending_view() == a.pending_view()
}

/// The value of the outstanding load, for contracts.
pub ghost enum PendingView {
    Idle,
    Busy { path: Seq<usize>, target: Option<IdView>, request: FetchRequest },
}

impl App {
    /// The outstanding load as a mathematical value.
    pub open spec fn pending_view(&self) -> PendingView {
        match self.pending {
            None => PendingView::Idle,
            Some(PendingFetch { path, target, request }) => PendingView::Busy {
                path: path@,
                target: id_view(target),
                request,
            },
        }
    }

    /// A fresh session: an expanded, empty root container, nothing selected,
    /// no load outstanding.
    pub fn new() -> (app: App)
        ensures
            app.tree@.expanded,
            app.tree@.children.len() == 0,
            app.tree@.name == "Organizations"@,
            app.selected_path@ == Seq::<usize>::empty(),
            app.pending_view() == PendingView::Idle,
            !app.should_quit,
            !app.show_help,
            !app.show_menu,
            app.current_tab == 0,
            app.tabs@ == seq![Tab::ComputeEnvs, Tab::Pipelines, Tab::Members, Tab::Settings],
            app.title@ == "Seqera Console"@,
            app.status_message@ == "Connected to api.cloud.seqera.io"@,
    {
        let mut tabs: Vec<Tab> = Vec::new();
        tabs.push(Tab::ComputeEnvs);
        tabs.push(Tab::Pipelines);
        tabs.push(Tab::Members);
        tabs.push(Tab::Settings);
        proof {
            assert(tabs@ =~= seq![Tab::ComputeEnvs, Tab::Pipelines, Tab::Members, Tab::Settings]);
        }
        let tree = TreeNode {
            name: <String as StringExecFns>::from_str("Organizations"),
            expanded: true,
            children: Vec::new(),
            node_type: NodeType::Organization,
            id: None,
        };
        proof {
            crate::tree::lemma_views_of(tree.children@);
        }
        App {
            title: <String as StringExecFns>::from_str("Seqera Console"),
            should_quit: false,
            show_help: false,
            show_menu: false,
            tabs,
            current_tab: 0,
            tree,
            selected_path: Vec::new(),
            status_message: <String as StringExecFns>::from_str("Connected to api.cloud.seqera.io"),
            pending: None,
        }
    }

    /// Toggle the help overlay.
    pub fn show_help(&mut self)
        ensures
            final(self).show_help == !old(self).show_help,
            final(self).show_menu == old(self).show_menu,
            final(self).tree == old(self).tree,
            final(self).selected_path == old(self).selected_path,
            final(self).status_message == old(self).status_message,
            final(self).pending == old(self).pending,
            final(self).tabs == old(self).tabs,
            final(self).current_tab == old(self).current_tab,
            final(self).title == old(self).title,
            final(self).should_quit == old(self).should_quit,
    {
        self.show_help = !self.show_help;
    }

    /// Toggle the menu overlay.
    pub fn toggle_menu(&mut self)
        ensures
            final(self).show_menu == !old(self).show_menu,
            final(self).show_help == old(self).show_help,
            final(self).tree == old(self).tree,
            final(self).selected_path == old(self).selected_path,
            final(self).status_message == old(self).status_message,
            final(self).pending == old(self).pending,
            final(self).tabs == old(self).tabs,
            final(self).current_tab == old(self).current_tab,
            final(self).title == old(self).title,
            final(self).should_quit == old(self).should_quit,
    {
        self.show_menu = !self.show_menu;
    }

    /// Cycle to the next tab, wrapping around.
    pub fn next_tab(&mut self)
        requires
            old(self).tabs@.len() > 0,
            old(self).current_tab < old(self).tabs@.len(),
        ensures
            old(self).current_tab + 1 < old(self).tabs@.len() ==> final(self).current_tab == old(self).current_tab + 1,
            old(self).current_tab + 1 == old(self).tabs@.len() ==> final(self).current_tab == 0,
            final(self).tabs == old(self).tabs,
            final(self).tree == old(self).tree,
            final(self).selected_path == old(self).selected_path,
    {
        if self.current_tab == self.tabs.len() - 1 {
            self.current_tab = 0;
        } else {
            self.current_tab = self.current_tab + 1;
        }
    }

    /// Cycle to the previous tab, wrapping around.
    pub fn previous_tab(&mut self)
        requires
            old(self).tabs@.len() > 0,
        ensures
            old(self).current_tab > 0 ==> final(self).current_tab == old(self).current_tab - 1,
            old(self).current_tab == 0 ==> final(self).current_tab == old(self).tabs@.len() - 1,
            final(self).tabs == old(self).tabs,
            final(self).tree == old(self).tree,
            final(self).selected_path == old(self).selected_path,
    {
        if self.current_tab > 0 {
            self.current_tab = self.current_tab - 1;
        } else {
            self.current_tab = self.tabs.len() - 1;
        }
    }
}

/// What applying a successful load's result does to the session, by the kind
/// of load: a top-level reload replaces the root's children wholesale and
/// resets the selection; a child load is grafted only when its recorded path
/// still resolves to the very node it was issued for, and is otherwise
/// discarded whole.
pub open spec fn graft_outcome(
    pre: App,
    post: App,
    children: Seq<TreeNode>,
    path: Seq<usize>,
    target: Option<IdView>,
    request: FetchRequest,
) -> bool {
    match request {
        FetchRequest::Organizations => {
            &&& post.tree@ == with_graft(pre.tree@, Seq::<usize>::empty(), views_of(children))
            &&& post.selected_path@ == Seq::<usize>::empty()
            &&& post.status_message@ == "Connected to api.cloud.seqera.io"@
        },
        FetchRequest::Workspaces(_) => {
            &&& post.selected_path == pre.selected_path
            &&& ({
                if valid_path(pre.tree@, path) && target is Some && node_at_view(
                    pre.tree@,
                    path,
                ).id == target {
                    post.tree@ == with_graft(pre.tree@, path, views_of(children))
                        && post.status_message@ == "Workspaces loaded"@
                } else {
                    post.tree == pre.tree && post.status_message == pre.status_message
                }
            })
        },
        FetchRequest::ComputeEnvs(_) => {
            &&& post.selected_path == pre.selected_path
            &&& ({
                if valid_path(pre.tree@, path) && target is Some && node_at_view(
                    pre.tree@,
                    path,
                ).id == target {
                    post.tree@ == with_graft(pre.tree@, path, views_of(children))
                        && post.status_message@ == "Compute environments loaded"@
                } else {
                    post.tree == pre.tree && post.status_message == pre.status_message
                }
            })
        },
    }
}

fn dup_node_id(id: &NodeId) -> (r: NodeId)
    ensures
        id_view(Some(r)) == id_view(Some(*id)),
{
    match id {
        NodeId::Organization(x) => NodeId::Organization(*x),
        NodeId::Workspace(x) => NodeId::Workspace(*x),
        NodeId::ComputeEnvironment(s) => NodeId::ComputeEnvironment(s.clone()),
    }
}

fn same_id(a: &NodeId, b: &NodeId) -> (r: bool)
    ensures
        r == (id_view(Some(*a)) == id_view(Some(*b))),
{
    match (a, b) {
        (NodeId::Organization(x), NodeId::Organization(y)) => *x == *y,
        (NodeId::Workspace(x), NodeId::Workspace(y)) => *x == *y,
        (NodeId::ComputeEnvironment(x), NodeId::ComputeEnvironment(y)) => x.eq(y),
        _ => false,
    }
}

impl App {
    /// Move the selection up one visible row; a stale selection is only
    /// clamped back to its nearest visible ancestor.
    pub fn handle_up(&mut self)
        ensures
            nav_frame(*old(self), *final(self)),
            final(self).tree == old(self).tree,
            ({
                let v = old(self).tree@;
                let p = old(self).selected_path@;
                if p.len() == 0 {
                    final(self).selected_path@ == p
                } else if tree_visible(v, p) {
                    final(self).selected_path@ == up_spec(v, p)
                } else {
                    final(self).selected_path@ == clamp_spec(v, p)
                }
            }),
    {
        if self.selected_path.len() == 0 {
            return ;
        }
        if path_on_screen(&self.tree, &self.selected_path) {
            let p = move_up(&self.tree, &self.selected_path);
            self.selected_path = p;
        } else {
            let p = clamp_path(&self.tree, &self.selected_path);
            self.selected_path = p;
        }
    }

    /// Move the selection down one visible row (from no selection, to the
    /// first row); a stale selection is only clamped.
    pub fn handle_down(&mut self)
        ensures
            nav_frame(*old(self), *final(self)),
            final(self).tree == old(self).tree,
            ({
                let v = old(self).tree@;
                let p = old(self).selected_path@;
                if p.len() == 0 || tree_visible(v, p) {
                    final(self).selected_path@ == down_spec(v, p)
                } else {
                    final(self).selected_path@ == clamp_spec(v, p)
                }
            }),
    {
        if self.selected_path.len() == 0 || path_on_screen(&self.tree, &self.selected_path) {
            let p = move_down(&self.tree, &self.selected_path);
            self.selected_path = p;
        } else {
            let p = clamp_path(&self.tree, &self.selected_path);
            self.selected_path = p;
        }
    }

    /// Collapse the selected node if it is expanded, else move to its
    /// parent; a stale selection is only clamped.
    pub fn handle_left(&mut self)
        ensures
            nav_frame(*old(self), *final(self)),
            ({
                let v = old(self).tree@;
                let p = old(self).selected_path@;
                if p.len() == 0 {
                    final(self).tree == old(self).tree && final(self).selected_path@ == p
                } else if tree_visible(v, p) {
                    if node_at_view(v, p).expanded {
                        final(self).tree@ == with_expanded(v, p, false) && final(self).selected_path@ == p
                    } else {
                        final(self).tree@ == old(self).tree@ && final(self).selected_path@
                            == p.drop_last()
                    }
                } else {
                    final(self).tree == old(self).tree && final(self).selected_path@ == clamp_spec(
                        v,
                        p,
                    )
                }
            }),
    {
        if self.selected_path.len() == 0 {
            return ;
        }
        if path_on_screen(&self.tree, &self.selected_path) {
            proof {
                lemma_tree_visible_valid(self.tree@, self.selected_path@);
            }
            let p = move_left(&mut self.tree, &self.selected_path);
            self.selected_path = p;
        } else {
            let p = clamp_path(&self.tree, &self.selected_path);
            self.selected_path = p;
        }
    }

    /// Expand the selected node when it is collapsed and has cached
    /// children; a stale selection is only clamped.
    pub fn handle_right(&mut self)
        ensures
            nav_frame(*old(self), *final(self)),
            ({
                let v = old(self).tree@;
                let p = old(self).selected_path@;
                if p.len() == 0 {
                    final(self).tree == old(self).tree && final(self).selected_path@ == p
                } else if tree_visible(v, p) {
                    final(self).selected_path@ == p && ({
                        let n = node_at_view(v, p);
                        if !n.expanded && n.children.len() > 0 {
                            final(self).tree@ == with_expanded(v, p, true)
                        } else {
                            final(self).tree@ == old(self).tree@
                        }
                    })
                } else {
                    final(self).tree == old(self).tree && final(self).selected_path@ == clamp_spec(
                        v,
                        p,
                    )
                }
            }),
    {
        if self.selected_path.len() == 0 {
            return ;
        }
        if path_on_screen(&self.tree, &self.selected_path) {
            proof {
                lemma_tree_visible_valid(self.tree@, self.selected_path@);
            }
            move_right(&mut self.tree, &self.selected_path);
        } else {
            let p = clamp_path(&self.tree, &self.selected_path);
            self.selected_path = p;
        }
    }

    /// Close any open overlay; otherwise move the selection one level up
    /// towards the root. A stale selection is clamped, never dereferenced.
    pub fn handle_escape(&mut self)
        ensures
            final(self).tree == old(self).tree,
            final(self).title == old(self).title,
            final(self).should_quit == old(self).should_quit,
            final(self).tabs == old(self).tabs,
            final(self).current_tab == old(self).current_tab,
            final(self).status_message == old(self).status_message,
            final(self).pending_view() == old(self).pending_view(),
            ({
                let v = old(self).tree@;
                let p = old(self).selected_path@;
                if old(self).show_help || old(self).show_menu {
                    !final(self).show_help && !final(self).show_menu && final(self).selected_path@ == p
                } else {
                    final(self).show_help == old(self).show_help && final(self).show_menu == old(self).show_menu && if p.len() == 0 {
                        final(self).selected_path@ == p
                    } else if tree_visible(v, p) {
                        final(self).selected_path@ == p.drop_last()
                    } else {
                        final(self).selected_path@ == clamp_spec(v, p)
                    }
                }
            }),
    {
        if self.show_help || self.show_menu {
            self.show_help = false;
            self.show_menu = false;
            return ;
        }
        if self.selected_path.len() == 0 {
            return ;
        }
        if path_on_screen(&self.tree, &self.selected_path) {
            let ghost before = self.selected_path@;
            self.selected_path.pop();
            proof {
                assert(self.selected_path@ =~= before.drop_last());
            }
        } else {
            let p = clamp_path(&self.tree, &self.selected_path);
            self.selected_path = p;
        }
    }
}

impl App {
    /// Activate the selected node. An expanded node collapses; a collapsed
    /// node with cached children re-expands without a fetch; a collapsed node
    /// with nothing cached asks its caller for the load its kind needs, and
    /// records it as the one outstanding fetch. While a load is outstanding,
    /// a second activation is ignored, not queued.
    pub fn handle_enter(&mut self) -> (r: Option<FetchRequest>)
        ensures
            old(self).pending_view() is Busy ==> (*final(self) == *old(self) && r is None),
            old(self).pending_view() is Idle ==> ({
                let v = old(self).tree@;
                let p = old(self).selected_path@;
                &&& final(self).title == old(self).title
                &&& final(self).should_quit == old(self).should_quit
                &&& final(self).show_help == old(self).show_help
                &&& final(self).show_menu == old(self).show_menu
                &&& final(self).tabs == old(self).tabs
                &&& final(self).current_tab == old(self).current_tab
                &&& final(self).status_message == old(self).status_message
                &&& if p.len() == 0 {
                    *final(self) == *old(self) && r is None
                } else if !tree_visible(v, p) {
                    final(self).tree == old(self).tree && final(self).selected_path@ == clamp_spec(
                        v,
                        p,
                    ) && final(self).pending_view() is Idle && r is None
                } else {
                    final(self).selected_path@ == p && ({
                        let n = node_at_view(v, p);
                        if n.expanded {
                            &&& final(self).tree@ == with_expanded(v, p, false)
                            &&& final(self).pending_view() is Idle
                            &&& r is None
                        } else if n.children.len() > 0 {
                            &&& final(self).tree@ == with_expanded(v, p, true)
                            &&& final(self).pending_view() is Idle
                            &&& r is None
                        } else {
                            match n.id {
                                Some(IdView::Organization(i)) => {
                                    &&& r == Some(FetchRequest::Workspaces(i))
                                    &&& final(self).tree == old(self).tree
                                    &&& final(self).pending_view() == (PendingView::Busy {
                                        path: p,
                                        target: Some(IdView::Organization(i)),
                                        request: FetchRequest::Workspaces(i),
                                    })
                                },
                                Some(IdView::Workspace(i)) => {
                                    &&& r == Some(FetchRequest::ComputeEnvs(i))
                                    &&& final(self).tree == old(self).tree
                                    &&& final(self).pending_view() == (PendingView::Busy {
                                        path: p,
                                        target: Some(IdView::Workspace(i)),
                                        request: FetchRequest::ComputeEnvs(i),
                                    })
                                },
                                _ => {
                                    &&& final(self).tree == old(self).tree
                                    &&& final(self).pending_view() is Idle
                                    &&& r is None
                                },
                            }
                        }
                    })
                }
            }),
    {
        if self.pending.is_some() {
            return None;
        }
        if self.selected_path.len() == 0 {
            return None;
        }
        if !path_on_screen(&self.tree, &self.selected_path) {
            let p = clamp_path(&self.tree, &self.selected_path);
            self.selected_path = p;
            return None;
        }
        proof {
            lemma_tree_visible_valid(self.tree@, self.selected_path@);
        }
        let info: (bool, bool, Option<NodeId>) = match node_at(&self.tree, &self.selected_path) {
            Some(n) => (
                n.expanded,
                n.children.len() > 0,
                match &n.id {
                    Some(id) => Some(dup_node_id(id)),
                    None => None,
                },
            ),
            None => (false, false, None),
        };
        if info.0 {
            set_expanded_at(&mut self.tree, &self.selected_path, false);
            None
        } else if info.1 {
            set_expanded_at(&mut self.tree, &self.selected_path, true);
            None
        } else {
            match info.2 {
                Some(NodeId::Organization(i)) => {
                    let req = FetchRequest::Workspaces(i);
                    self.pending = Some(
                        PendingFetch {
                            path: copy_path(&self.selected_path),
                            target: Some(NodeId::Organization(i)),
                            request: req,
                        },
                    );
                    Some(req)
                },
                Some(NodeId::Workspace(i)) => {
                    let req = FetchRequest::ComputeEnvs(i);
                    self.pending = Some(
                        PendingFetch {
                            path: copy_path(&self.selected_path),
                            target: Some(NodeId::Workspace(i)),
                            request: req,
                        },
                    );
                    Some(req)
                },
                _ => None,
            }
        }
    }

    /// Ask for an unconditional reload of the top-level organization list;
    /// ignored while another load is outstanding.
    pub fn refresh(&mut self) -> (r: Option<FetchRequest>)
        ensures
            old(self).pending_view() is Busy ==> (*final(self) == *old(self) && r is None),
            old(self).pending_view() is Idle ==> ({
                &&& r == Some(FetchRequest::Organizations)
                &&& final(self).tree == old(self).tree
                &&& final(self).selected_path == old(self).selected_path
                &&& final(self).status_message@ == "Refreshing..."@
                &&& final(self).pending_view() == (PendingView::Busy {
                    path: Seq::<usize>::empty(),
                    target: None,
                    request: FetchRequest::Organizations,
                })
                &&& final(self).show_help == old(self).show_help
                &&& final(self).show_menu == old(self).show_menu
                &&& final(self).tabs == old(self).tabs
                &&& final(self).current_tab == old(self).current_tab
                &&& final(self).title == old(self).title
                &&& final(self).should_quit == old(self).should_quit
            }),
    {
        if self.pending.is_some() {
            return None;
        }
        self.status_message = <String as StringExecFns>::from_str("Refreshing...");
        self.pending = Some(
            PendingFetch { path: Vec::new(), target: None, request: FetchRequest::Organizations },
        );
        Some(FetchRequest::Organizations)
    }

    /// Apply the outcome of the outstanding load. A failure only updates the
    /// status message; the tree is never left partially grafted. A successful
    /// child load is grafted only after the recorded path has been
    /// revalidated: it must still resolve, to the very node the load was
    /// issued for — a stale result is discarded whole.
    pub fn complete_fetch(&mut self, result: Result<Vec<TreeNode>, String>)
        ensures
            old(self).pending_view() is Idle ==> *final(self) == *old(self),
            final(self).selected_path == old(self).selected_path || final(self).selected_path@
                == Seq::<usize>::empty(),
            final(self).show_help == old(self).show_help,
            final(self).show_menu == old(self).show_menu,
            final(self).tabs == old(self).tabs,
            final(self).current_tab == old(self).current_tab,
            final(self).title == old(self).title,
            final(self).should_quit == old(self).should_quit,
            old(self).pending_view() matches PendingView::Busy { path, target, request } ==> ({
                let v = old(self).tree@;
                &&& final(self).pending_view() is Idle
                &&& (result matches Err(msg) ==> final(self).tree == old(self).tree && final(self).selected_path == old(self).selected_path && final(self).status_message == msg)
                &&& (result matches Ok(children) ==> graft_outcome(
                    *old(self),
                    *final(self),
                    children@,
                    path,
                    target,
                    request,
                ))
            }),
    {
        let info: (Vec<usize>, Option<NodeId>, FetchRequest) = match &self.pending {
            None => {
                return ;
            },
            Some(pf) => (
                copy_path(&pf.path),
                match &pf.target {
                    Some(t) => Some(dup_node_id(t)),
                    None => None,
                },
                pf.request,
            ),
        };
        let (path, target, request) = info;
        self.pending = None;
        match result {
            Err(msg) => {
                self.status_message = msg;
            },
            Ok(children) => {
                match request {
                    FetchRequest::Organizations => {
                        let root_path: Vec<usize> = Vec::new();
                        graft(&mut self.tree, &root_path, children);
                        self.selected_path = Vec::new();
                        self.status_message = <String as StringExecFns>::from_str(
                            "Connected to api.cloud.seqera.io",
                        );
                    },
                    FetchRequest::Workspaces(_) => {
                        let still_there: bool = match node_at(&self.tree, &path) {
                            Some(n) => match (&n.id, &target) {
                                (Some(a), Some(b)) => same_id(a, b),
                                _ => false,
                            },
                            None => false,
                        };
                        if still_there {
                            graft(&mut self.tree, &path, children);
                            self.status_message = <String as StringExecFns>::from_str(
                                "Workspaces loaded",
                            );
                        }
                    },
                    FetchRequest::ComputeEnvs(_) => {
                        let still_there: bool = match node_at(&self.tree, &path) {
                            Some(n) => match (&n.id, &target) {
                                (Some(a), Some(b)) => same_id(a, b),
                                _ => false,
                            },
                            None => false,
                        };
                        if still_there {
                            graft(&mut self.tree, &path, children);
                            self.status_message = <String as StringExecFns>::from_str(
                                "Compute environments loaded",
                            );
                        }
                    },
                }
            },
        }
    }
}

/// The organizations of a listing, as fresh collapsed tree nodes in the
/// server's order.
pub fn org_nodes(orgs: Vec<Organization>) -> (r: Vec<TreeNode>)
    ensures
        r@.len() == orgs@.len(),
        forall|k: int|
            0 <= k < orgs@.len() ==> {
                let n = (#[trigger] r@[k])@;
                &&& n.name == orgs@[k].name@
                &&& !n.expanded
                &&& n.children.len() == 0
                &&& n.node_type == NodeType::Organization
                &&& n.id == Some(IdView::Organization(orgs@[k].id.0))
            },
{
    let mut r: Vec<TreeNode> = Vec::new();
    let mut k: usize = 0;
    while k < orgs.len()
        invariant
            k <= orgs@.len(),
            r@.len() == k,
            forall|t: int|
                0 <= t < k ==> {
                    let n = (#[trigger] r@[t])@;
                    &&& n.name == orgs@[t].name@
                    &&& !n.expanded
                    &&& n.children.len() == 0
                    &&& n.node_type == NodeType::Organization
                    &&& n.id == Some(IdView::Organization(orgs@[t].id.0))
                },
        decreases orgs@.len() - k,
    {
        let node = TreeNode {
            name: orgs[k].name.clone(),
            expanded: false,
            children: Vec::new(),
            node_type: NodeType::Organization,
            id: Some(NodeId::Organization(orgs[k].id.0)),
        };
        r.push(node);
        k = k + 1;
    }
    r
}

/// The workspaces of a listing, as fresh collapsed tree nodes in the
/// server's order.
pub fn workspace_nodes(workspaces: Vec<Workspace>) -> (r: Vec<TreeNode>)
    ensures
        r@.len() == workspaces@.len(),
        forall|k: int|
            0 <= k < workspaces@.len() ==> {
                let n = (#[trigger] r@[k])@;
                &&& n.name == workspaces@[k].name@
                &&& !n.expanded
                &&& n.children.len() == 0
                &&& n.node_type == NodeType::Workspace
                &&& n.id == Some(IdView::Workspace(workspaces@[k].id.0))
            },
{
    let mut r: Vec<TreeNode> = Vec::new();
    let mut k: usize = 0;
    while k < workspaces.len()
        invariant
            k <= workspaces@.len(),
            r@.len() == k,
            forall|t: int|
                0 <= t < k ==> {
                    let n = (#[trigger] r@[t])@;
                    &&& n.name == workspaces@[t].name@
                    &&& !n.expanded
                    &&& n.children.len() == 0
                    &&& n.node_type == NodeType::Workspace
                    &&& n.id == Some(IdView::Workspace(workspaces@[t].id.0))
                },
        decreases workspaces@.len() - k,
    {
        let node = TreeNode {
            name: workspaces[k].name.clone(),
            expanded: false,
            children: Vec::new(),
            node_type: NodeType::Workspace,
            id: Some(NodeId::Workspace(workspaces[k].id.0)),
        };
        r.push(node);
        k = k + 1;
    }
    r
}

/// The compute environments of a listing, as fresh terminal tree nodes in
/// the server's order.
pub fn compute_env_nodes(envs: Vec<ComputeEnv>) -> (r: Vec<TreeNode>)
    ensures
        r@.len() == envs@.len(),
        forall|k: int|
            0 <= k < envs@.len() ==> {
                let n = (#[trigger] r@[k])@;
                &&& n.name == envs@[k].name@
                &&& !n.expanded
                &&& n.children.len() == 0
                &&& n.node_type == NodeType::ComputeEnvironment
                &&& n.id == Some(IdView::ComputeEnvironment(envs@[k].id@))
            },
{
    let mut r: Vec<TreeNode> = Vec::new();
    let mut k: usize = 0;
    while k < envs.len()
        invariant
            k <= envs@.len(),
            r@.len() == k,
            forall|t: int|
                0 <= t < k ==> {
                    let n = (#[trigger] r@[t])@;
                    &&& n.name == envs@[t].name@
                    &&& !n.expanded
                    &&& n.children.len() == 0
                    &&& n.node_type == NodeType::ComputeEnvironment
                    &&& n.id == Some(IdView::ComputeEnvironment(envs@[t].id@))
                },
        decreases envs@.len() - k,
    {
        let node = TreeNode {
            name: envs[k].name.clone(),
            expanded: false,
            children: Vec::new(),
            node_type: NodeType::ComputeEnvironment,
            id: Some(NodeId::ComputeEnvironment(envs[k].id.clone())),
        };
        r.push(node);
        k = k + 1;
    }
    r
}

} // verus!
