use pform::flatten::{count_visible_children, flatten_visible};
use pform::models::common::OrgId;
use pform::models::common::WorkspaceId;
use pform::models::compute_env::{ComputeEnv, ComputeEnvStatus};
use pform::models::organization::Organization;
use pform::models::workspace::Workspace;
use pform::nav::{clamp_path, move_down, move_left, move_right, move_up, selected_index};
use pform::session::{compute_env_nodes, org_nodes, workspace_nodes, App, FetchRequest, Tab};
use pform::tree::{graft, node_at, NodeId, NodeType, TreeNode};
use pform::utils::mask_auth_header;

fn leaf(name: &str, id: Option<NodeId>, node_type: NodeType) -> TreeNode {
    TreeNode {
        name: name.to_string(),
        expanded: false,
        children: vec![],
        node_type,
        id,
    }
}

fn org(name: &str) -> Organization {
    Organization {
        id: OrgId(7),
        name: name.to_string(),
        description: None,
    }
}

fn ws(id: i64, name: &str) -> Workspace {
    Workspace {
        id: WorkspaceId(id),
        name: name.to_string(),
        full_name: name.to_string(),
        description: None,
        visibility: "PRIVATE".to_string(),
    }
}

fn ce(id: &str, name: &str) -> ComputeEnv {
    ComputeEnv {
        credentials_id: "cred-1".to_string(),
        id: id.to_string(),
        name: name.to_string(),
        platform: "aws-batch".to_string(),
        region: None,
        status: ComputeEnvStatus::Available,
        visibility: "PRIVATE".to_string(),
        work_dir: "/work".to_string(),
        workspace_name: "ws".to_string(),
        message: None,
        last_used: None,
        primary: None,
    }
}

/// A session with one organization "Acme" loaded, nothing expanded.
fn acme_session() -> App {
    let mut app = App::new();
    let req = app.refresh();
    assert_eq!(req, Some(FetchRequest::Organizations));
    app.complete_fetch(Ok(org_nodes(vec![Organization {
        id: OrgId(42),
        name: "Acme".to_string(),
        description: None,
    }])));
    assert_eq!(app.status_message, "Connected to api.cloud.seqera.io");
    app
}

#[test]
fn activation_fetches_and_grafts_workspaces() {
    let mut app = acme_session();
    app.selected_path = vec![0];
    let req = app.handle_enter();
    assert_eq!(req, Some(FetchRequest::Workspaces(42)));

    let children = workspace_nodes(vec![ws(1, "ws-a"), ws(2, "ws-b")]);
    app.complete_fetch(Ok(children));

    let rows = flatten_visible(&app.tree);
    assert_eq!(rows.len(), 3);
    assert_eq!(rows[0].name, "Acme");
    assert_eq!(rows[0].depth, 0);
    assert!(rows[0].expanded);
    assert_eq!(rows[1].name, "ws-a");
    assert_eq!(rows[1].depth, 1);
    assert_eq!(rows[2].name, "ws-b");
    assert_eq!(rows[2].depth, 1);
    assert_eq!(app.status_message, "Workspaces loaded");
}

#[test]
fn move_down_walks_visible_rows_and_stops_at_bottom() {
    let mut app = acme_session();
    app.selected_path = vec![0];
    let _ = app.handle_enter();
    app.complete_fetch(Ok(workspace_nodes(vec![ws(1, "ws-a"), ws(2, "ws-b")])));
    app.selected_path = vec![0];

    app.handle_down();
    assert_eq!(app.selected_path, vec![0, 0]);
    app.handle_down();
    assert_eq!(app.selected_path, vec![0, 1]);
    app.handle_down();
    assert_eq!(app.selected_path, vec![0, 1]);
}

#[test]
fn collapse_keeps_cached_children_and_reexpands_without_fetch() {
    let mut app = acme_session();
    app.selected_path = vec![0];
    let _ = app.handle_enter();
    app.complete_fetch(Ok(workspace_nodes(vec![ws(1, "ws-a"), ws(2, "ws-b")])));
    app.selected_path = vec![0];

    let req = app.handle_enter();
    assert_eq!(req, None);
    assert!(!app.tree.children[0].expanded);
    assert_eq!(app.tree.children[0].children.len(), 2);

    let req = app.handle_enter();
    assert_eq!(req, None);
    assert!(app.tree.children[0].expanded);
    assert_eq!(app.tree.children[0].children.len(), 2);
}

#[test]
fn stale_fetch_applies_only_if_path_still_resolves() {
    // Acceptance: the user collapses the parent while the fetch is in
    // flight; the path still resolves to the same workspace, so the result
    // is grafted.
    let mut app = acme_session();
    app.selected_path = vec![0];
    let _ = app.handle_enter();
    app.complete_fetch(Ok(workspace_nodes(vec![ws(1, "ws-a")])));
    app.selected_path = vec![0, 0];
    let req = app.handle_enter();
    assert_eq!(req, Some(FetchRequest::ComputeEnvs(1)));

    app.handle_escape();
    assert_eq!(app.selected_path, vec![0]);
    app.handle_left();
    assert!(!app.tree.children[0].expanded);

    app.complete_fetch(Ok(compute_env_nodes(vec![ce("ce-1", "env-1")])));
    assert_eq!(app.tree.children[0].children[0].children.len(), 1);
    assert_eq!(app.status_message, "Compute environments loaded");

    // Rejection: the whole tree is replaced while a fetch is in flight; the
    // recorded path no longer resolves and the stale result is discarded.
    let mut app = acme_session();
    app.selected_path = vec![0];
    let _ = app.handle_enter();
    let gone = graft(&mut app.tree, &vec![], vec![]);
    assert!(gone);
    let before = app.status_message.clone();
    app.complete_fetch(Ok(workspace_nodes(vec![ws(1, "ws-a")])));
    assert_eq!(app.tree.children.len(), 0);
    assert_eq!(app.status_message, before);
}

#[test]
fn stale_selection_degrades_to_clamp() {
    let mut app = acme_session();
    app.selected_path = vec![5];
    app.handle_down();
    assert_eq!(app.selected_path, Vec::<usize>::new());

    let mut app = acme_session();
    app.selected_path = vec![0, 3, 1];
    app.handle_up();
    assert_eq!(app.selected_path, vec![0]);

    let mut app = acme_session();
    app.selected_path = vec![5, 2];
    app.handle_escape();
    assert_eq!(app.selected_path, Vec::<usize>::new());
}

#[test]
fn move_down_then_up_returns_to_start() {
    let mut t = leaf("root", None, NodeType::Organization);
    t.expanded = true;
    let mut acme = leaf("Acme", Some(NodeId::Organization(1)), NodeType::Organization);
    acme.expanded = true;
    acme.children = vec![
        leaf("ws-a", Some(NodeId::Workspace(1)), NodeType::Workspace),
        leaf("ws-b", Some(NodeId::Workspace(2)), NodeType::Workspace),
    ];
    let beta = leaf("Beta", Some(NodeId::Organization(2)), NodeType::Organization);
    t.children = vec![acme, beta];

    // every non-last visible row comes back after down-then-up
    for start in [vec![0], vec![0, 0], vec![0, 1]] {
        let down = move_down(&t, &start);
        assert_ne!(down, start);
        let back = move_up(&t, &down);
        assert_eq!(back, start);
    }
    // and up lands on the last visible row of the previous subtree
    assert_eq!(move_up(&t, &vec![1]), vec![0, 1]);
}

#[test]
fn flatten_length_matches_visible_count() {
    let mut t = leaf("root", None, NodeType::Organization);
    t.expanded = true;
    let mut acme = leaf("Acme", Some(NodeId::Organization(1)), NodeType::Organization);
    acme.expanded = true;
    let mut wsa = leaf("ws-a", Some(NodeId::Workspace(1)), NodeType::Workspace);
    wsa.expanded = true;
    wsa.children = vec![leaf(
        "env-1",
        Some(NodeId::ComputeEnvironment("ce-1".to_string())),
        NodeType::ComputeEnvironment,
    )];
    acme.children = vec![wsa, leaf("ws-b", Some(NodeId::Workspace(2)), NodeType::Workspace)];
    t.children = vec![acme];

    assert_eq!(flatten_visible(&t).len(), 4);
    assert_eq!(count_visible_children(&t.children[0]), 3);

    // collapsing ws-a removes exactly its one visible descendant
    let before = flatten_visible(&t).len();
    let removed = count_visible_children(&t.children[0].children[0]);
    let applied = pform::tree::set_expanded_at(&mut t, &vec![0, 0], false);
    assert!(applied);
    assert_eq!(flatten_visible(&t).len(), before - removed);
}

#[test]
fn graft_with_unresolved_path_is_a_noop() {
    let mut t = leaf("root", None, NodeType::Organization);
    t.expanded = true;
    t.children = vec![leaf("Acme", Some(NodeId::Organization(1)), NodeType::Organization)];

    let applied = graft(
        &mut t,
        &vec![3],
        vec![leaf("ws-a", Some(NodeId::Workspace(1)), NodeType::Workspace)],
    );
    assert!(!applied);
    assert_eq!(t.children.len(), 1);
    assert_eq!(t.children[0].name, "Acme");
    assert!(!t.children[0].expanded);
    assert_eq!(t.children[0].children.len(), 0);
}

#[test]
fn move_right_expands_only_cached_children() {
    let mut t = leaf("root", None, NodeType::Organization);
    t.expanded = true;
    let mut acme = leaf("Acme", Some(NodeId::Organization(1)), NodeType::Organization);
    acme.children = vec![leaf("ws-a", Some(NodeId::Workspace(1)), NodeType::Workspace)];
    t.children = vec![acme, leaf("Empty", Some(NodeId::Organization(2)), NodeType::Organization)];

    move_right(&mut t, &vec![0]);
    assert!(t.children[0].expanded);
    move_right(&mut t, &vec![1]);
    assert!(!t.children[1].expanded);

    let r = move_left(&mut t, &vec![0]);
    assert_eq!(r, vec![0]);
    assert!(!t.children[0].expanded);
    let r = move_left(&mut t, &vec![0]);
    assert_eq!(r, Vec::<usize>::new());
}

#[test]
fn selected_index_follows_flattening() {
    let mut t = leaf("root", None, NodeType::Organization);
    t.expanded = true;
    let mut acme = leaf("Acme", Some(NodeId::Organization(1)), NodeType::Organization);
    acme.expanded = true;
    acme.children = vec![leaf("ws-a", Some(NodeId::Workspace(1)), NodeType::Workspace)];
    t.children = vec![acme];

    assert_eq!(selected_index(&t, &vec![0]), Some(0));
    assert_eq!(selected_index(&t, &vec![0, 0]), Some(1));
    assert_eq!(selected_index(&t, &vec![1]), None);

    let clamped = clamp_path(&t, &vec![0, 0, 9]);
    assert_eq!(clamped, vec![0, 0]);
}

#[test]
fn node_at_rejects_out_of_range_paths() {
    let mut t = leaf("root", None, NodeType::Organization);
    t.expanded = true;
    t.children = vec![leaf("Acme", Some(NodeId::Organization(1)), NodeType::Organization)];
    assert!(node_at(&t, &vec![0]).is_some());
    assert!(node_at(&t, &vec![1]).is_none());
    assert!(node_at(&t, &vec![0, 0]).is_none());
    assert_eq!(node_at(&t, &vec![0]).unwrap().name, "Acme");
}

#[test]
fn second_activation_is_ignored_while_loading() {
    let mut app = acme_session();
    app.selected_path = vec![0];
    let first = app.handle_enter();
    assert_eq!(first, Some(FetchRequest::Workspaces(42)));
    let second = app.handle_enter();
    assert_eq!(second, None);
    let refresh_denied = app.refresh();
    assert_eq!(refresh_denied, None);
}

#[test]
fn refresh_resets_tree_and_selection() {
    let mut app = acme_session();
    app.selected_path = vec![0];
    let _ = app.handle_enter();
    app.complete_fetch(Ok(workspace_nodes(vec![ws(1, "ws-a")])));
    app.selected_path = vec![0, 0];

    let req = app.refresh();
    assert_eq!(req, Some(FetchRequest::Organizations));
    assert_eq!(app.status_message, "Refreshing...");
    app.complete_fetch(Ok(org_nodes(vec![org("Solo")])));
    assert_eq!(app.selected_path, Vec::<usize>::new());
    let rows = flatten_visible(&app.tree);
    assert_eq!(rows.len(), 1);
    assert_eq!(rows[0].name, "Solo");
}

#[test]
fn failed_load_only_updates_status() {
    let mut app = acme_session();
    app.selected_path = vec![0];
    let _ = app.handle_enter();
    app.complete_fetch(Err("Error loading workspaces: timeout".to_string()));
    assert_eq!(app.status_message, "Error loading workspaces: timeout");
    assert_eq!(app.tree.children[0].children.len(), 0);
    assert!(!app.tree.children[0].expanded);
}

#[test]
fn tab_labels_and_cycling() {
    assert_eq!(Tab::ComputeEnvs.as_str(), "Compute Envs");
    assert_eq!(Tab::Pipelines.as_str(), "Pipelines");
    assert_eq!(Tab::Members.as_str(), "Members");
    assert_eq!(Tab::Settings.as_str(), "Settings");

    let mut app = App::new();
    app.next_tab();
    assert_eq!(app.current_tab, 1);
    app.previous_tab();
    assert_eq!(app.current_tab, 0);
    app.previous_tab();
    assert_eq!(app.current_tab, 3);
    app.next_tab();
    assert_eq!(app.current_tab, 0);
}

#[test]
fn overlays_close_on_escape_before_navigation() {
    let mut app = acme_session();
    app.selected_path = vec![0];
    app.show_help();
    app.toggle_menu();
    assert!(app.show_help && app.show_menu);
    app.handle_escape();
    assert!(!app.show_help && !app.show_menu);
    assert_eq!(app.selected_path, vec![0]);
    app.handle_escape();
    assert_eq!(app.selected_path, Vec::<usize>::new());
}

#[test]
fn mask_auth_header_hides_bearer_tokens() {
    assert_eq!(
        mask_auth_header("Bearer SECRET-REDACTED"),
        "Bearer $TOWER_ACCESS_TOKEN"
    );
    assert_eq!(mask_auth_header("Basic abc"), "Basic abc");
    assert_eq!(mask_auth_header("Bearer"), "Bearer");
    assert_eq!(mask_auth_header(""), "");
}

#[test]
fn compute_env_status_labels() {
    assert_eq!(ComputeEnvStatus::Creating.as_str(), "CREATING");
    assert_eq!(ComputeEnvStatus::Available.as_str(), "AVAILABLE");
    assert_eq!(ComputeEnvStatus::Errored.as_str(), "ERRORED");
    assert_eq!(ComputeEnvStatus::Invalid.as_str(), "INVALID");
}

#[test]
fn empty_tree_navigation_is_a_noop() {
    let mut app = App::new();
    app.handle_down();
    assert_eq!(app.selected_path, Vec::<usize>::new());
    app.handle_up();
    assert_eq!(app.selected_path, Vec::<usize>::new());
    app.handle_left();
    app.handle_right();
    assert_eq!(app.selected_path, Vec::<usize>::new());
    assert!(app.tree.expanded);
    let req = app.handle_enter();
    assert_eq!(req, None);
    assert_eq!(flatten_visible(&app.tree).len(), 0);
}
