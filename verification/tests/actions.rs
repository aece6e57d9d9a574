use herdr_projects::actions::{
    action_needs_project, adopt_workspace_request, answer_or_default, ask_prompt, current_workspace,
    decide_action, decide_pane, doctor_notice, given_name, new_project_options, pane_open_args, read_handoff, run_on_slug,
    socket, state_file, workspace_lookup, ActionContext, ActionEnv, ActionPlan, Handoff, PanePlan, SlugCommand,
};
use herdr_projects::adopt::{adoptable_agent, Agent, ProjectRecord};
use herdr_projects::error::{ProjectStatus, ProjectsError};

fn empty_context() -> ActionContext {
    ActionContext {
        workspace_id: String::new(),
        workspace_label: String::new(),
        workspace_cwd: String::new(),
        focused_pane_id: String::new(),
    }
}

fn plugin_env(workspace: Option<&str>, context: ActionContext) -> ActionEnv {
    ActionEnv {
        socket: Some("/home/u/a.sock".to_string()),
        pane_id: None,
        workspace_id: workspace.map(|w| w.to_string()),
        context,
    }
}

fn agent(workspace: &str, tab: &str, pane: &str, cwd: &str, name: &str, status: &str) -> Agent {
    Agent {
        workspace_id: workspace.to_string(),
        tab_id: tab.to_string(),
        pane_id: pane.to_string(),
        cwd: cwd.to_string(),
        agent: "omp".to_string(),
        name: name.to_string(),
        agent_status: status.to_string(),
    }
}

#[test]
fn an_action_without_a_project_opens_the_picker_with_the_requested_command() {
    let env = plugin_env(Some("w42"), empty_context());
    assert!(action_needs_project("pause"));
    // The workspace w42 belongs to no project.
    let plan = decide_action("pause", &env, None);
    let handoff = match plan {
        ActionPlan::OpenPane { entrypoint, handoff } => {
            assert_eq!(entrypoint, "pick");
            let opened = pane_open_args(&entrypoint).join(" ");
            assert!(opened.contains("--plugin herdr-projects --entrypoint pick"));
            handoff
        }
        other => panic!("expected the picker, got {other:?}"),
    };
    assert_eq!(read_handoff(Some(handoff)).command, "pause");
}

#[test]
fn an_action_inside_a_project_workspace_acts_on_that_project() {
    let env = plugin_env(Some("w1"), empty_context());
    match decide_action("pause", &env, Some("demo".to_string())) {
        ActionPlan::OnSlug { command: SlugCommand::SetStatus { slug, status } } => {
            assert_eq!(slug, "demo");
            assert_eq!(status, ProjectStatus::Paused);
        }
        other => panic!("expected a status change, got {other:?}"),
    }
    match decide_action("resume", &env, Some("demo".to_string())) {
        ActionPlan::OnSlug { command: SlugCommand::SetStatus { slug, status } } => {
            assert_eq!(slug, "demo");
            assert_eq!(status, ProjectStatus::Active);
        }
        other => panic!("expected a status change, got {other:?}"),
    }
}

#[test]
fn adopt_workspace_captures_the_pane_in_the_action_and_refuses_without_an_agent() {
    let context = ActionContext {
        workspace_id: "w5".to_string(),
        workspace_label: "My Repo".to_string(),
        workspace_cwd: "/work".to_string(),
        focused_pane_id: "w5:p1".to_string(),
    };
    let env = plugin_env(None, context);
    let (pane, sock, handoff) = match decide_action("adopt-workspace", &env, None) {
        ActionPlan::AdoptWorkspace { pane, socket, entrypoint, handoff } => {
            assert_eq!(entrypoint, "adopt");
            (pane, socket, handoff)
        }
        other => panic!("expected the adoption check, got {other:?}"),
    };
    let projects: Vec<ProjectRecord> = Vec::new();
    // No agent in the pane: refused before any popup opens.
    assert!(adoptable_agent(&Ok(Vec::new()), &sock, &pane, &projects).is_err());

    let agents = vec![agent("w5", "w5:t1", "w5:p1", "/work", "", "idle")];
    assert!(adoptable_agent(&Ok(agents), &sock, &pane, &projects).is_ok());
    let handoff = read_handoff(Some(handoff));
    assert_eq!(
        (handoff.pane_id.as_str(), handoff.workspace_label.as_str(), handoff.workspace_cwd.as_str()),
        ("w5:p1", "My Repo", "/work")
    );
}

#[test]
fn every_action_plan() {
    let env = plugin_env(Some("w1"), empty_context());
    match decide_action("new", &env, None) {
        ActionPlan::OpenPane { entrypoint, handoff } => {
            assert_eq!(entrypoint, "new");
            assert_eq!(handoff.socket, "/home/u/a.sock");
            assert_eq!(handoff.slug, "");
        }
        other => panic!("{other:?}"),
    }
    match decide_action("overview", &env, Some("demo".to_string())) {
        ActionPlan::OpenPane { entrypoint, handoff } => {
            assert_eq!(entrypoint, "overview");
            assert_eq!(handoff.slug, "demo");
        }
        other => panic!("{other:?}"),
    }
    match decide_action("overview", &env, None) {
        ActionPlan::OpenPane { handoff, .. } => assert_eq!(handoff.slug, ""),
        other => panic!("{other:?}"),
    }
    match decide_action("open", &env, Some("demo".to_string())) {
        ActionPlan::OnSlug { command: SlugCommand::Open { slug, options } } => {
            assert_eq!(slug, "demo");
            assert_eq!(options.session.session, None);
            assert_eq!(options.session.socket.as_deref(), Some("/home/u/a.sock"));
            assert!(!options.reprime && !options.rebind);
        }
        other => panic!("{other:?}"),
    }
    match decide_action("focus", &env, Some("demo".to_string())) {
        ActionPlan::Focus { slug } => assert_eq!(slug, "demo"),
        other => panic!("{other:?}"),
    }
    match decide_action("focus", &env, None) {
        ActionPlan::Refuse { error } => assert_eq!(
            error.message(),
            "this workspace does not belong to a project; run `focus <slug>` from a terminal"
        ),
        other => panic!("{other:?}"),
    }
    assert!(matches!(decide_action("unfocus", &env, None), ActionPlan::Unfocus));
    assert!(matches!(decide_action("doctor", &env, None), ActionPlan::Doctor));
    match decide_action("launch", &env, None) {
        ActionPlan::Refuse { error } => assert_eq!(error.message(), "unknown action `launch`"),
        other => panic!("{other:?}"),
    }
    assert!(!action_needs_project("new"));
    assert!(!action_needs_project("adopt-workspace"));
    assert!(action_needs_project("focus"));
}

#[test]
fn adopt_workspace_action_refusals() {
    // No pane from herdr at all.
    let env = plugin_env(None, empty_context());
    match decide_action("adopt-workspace", &env, None) {
        ActionPlan::Refuse { error: ProjectsError::NoPane } => {}
        other => panic!("{other:?}"),
    }
    // HERDR_PANE_ID wins over the context's focused pane.
    let mut env = plugin_env(None, empty_context());
    env.pane_id = Some("w7:p3".to_string());
    env.context.focused_pane_id = "w5:p1".to_string();
    match decide_action("adopt-workspace", &env, None) {
        ActionPlan::AdoptWorkspace { pane, handoff, .. } => {
            assert_eq!(pane, "w7:p3");
            assert_eq!(handoff.pane_id, "w7:p3");
        }
        other => panic!("{other:?}"),
    }
    // No socket: the session cannot be asked.
    env.socket = None;
    match decide_action("adopt-workspace", &env, None) {
        ActionPlan::Refuse { error } => assert_eq!(
            error.message(),
            "HERDR_SOCKET_PATH is not set: this command is meant to be run by herdr"
        ),
        other => panic!("{other:?}"),
    }
}

#[test]
fn picker_commands() {
    match run_on_slug("open", "demo", Some("/run/a.sock")) {
        Ok(SlugCommand::Open { slug, options }) => {
            assert_eq!(slug, "demo");
            assert_eq!(options.session.socket.as_deref(), Some("/run/a.sock"));
        }
        other => panic!("{other:?}"),
    }
    // Opening needs the session's socket.
    assert!(matches!(run_on_slug("open", "demo", None), Err(ProjectsError::SocketNotSet)));
    // Pausing does not.
    assert!(matches!(run_on_slug("pause", "demo", None), Ok(SlugCommand::SetStatus { .. })));
    match run_on_slug("delete", "demo", Some("/run/a.sock")) {
        Err(e) => assert_eq!(e.message(), "`delete` cannot be run from the picker"),
        Ok(c) => panic!("{c:?}"),
    }
}

#[test]
fn the_picker_runs_what_the_workspace_would() {
    let env = plugin_env(None, empty_context());
    for id in ["open", "pause", "resume"] {
        let handoff = match decide_action(id, &env, None) {
            ActionPlan::OpenPane { handoff, .. } => handoff,
            other => panic!("{other:?}"),
        };
        let command = match decide_pane("pick", &handoff) {
            PanePlan::Pick { command } => command,
            other => panic!("{other:?}"),
        };
        let from_picker = format!("{:?}", run_on_slug(&command, "demo", Some("/home/u/a.sock")).unwrap());
        let direct = match decide_action(id, &env, Some("demo".to_string())) {
            ActionPlan::OnSlug { command } => format!("{command:?}"),
            other => panic!("{other:?}"),
        };
        assert_eq!(from_picker, direct);
    }
}

#[test]
fn state_file_and_socket() {
    assert_eq!(state_file(Some("/tmp/state")).unwrap(), "/tmp/state/handoff.json");
    assert_eq!(state_file(Some("/tmp/state/")).unwrap(), "/tmp/state/handoff.json");
    assert_eq!(state_file(Some("")).unwrap(), "handoff.json");
    assert_eq!(
        state_file(None).unwrap_err().message(),
        "HERDR_PLUGIN_STATE_DIR is not set: this command is meant to be run by herdr as a plugin action or pane"
    );
    assert_eq!(socket(Some("/run/a.sock")).unwrap(), "/run/a.sock");
    assert!(matches!(socket(None), Err(ProjectsError::SocketNotSet)));
}

#[test]
fn handoff_and_workspace() {
    let h = read_handoff(None);
    assert_eq!((h.command, h.slug, h.pane_id, h.socket), (String::new(), String::new(), String::new(), String::new()));
    let context = ActionContext {
        workspace_id: "w3".to_string(),
        workspace_label: String::new(),
        workspace_cwd: String::new(),
        focused_pane_id: String::new(),
    };
    assert_eq!(current_workspace(Some("w1"), &context), "w1");
    assert_eq!(current_workspace(None, &context), "w3");
    let mut env = plugin_env(Some("w1"), context);
    assert_eq!(workspace_lookup(&env), ("w1".to_string(), "/home/u/a.sock".to_string()));
    env.workspace_id = None;
    env.socket = None;
    assert_eq!(workspace_lookup(&env), ("w3".to_string(), String::new()));
}

#[test]
fn popups() {
    let mut h = Handoff::default();
    match decide_pane("overview", &h) {
        PanePlan::Overview { slug } => assert_eq!(slug, None),
        other => panic!("{other:?}"),
    }
    h.slug = "demo".to_string();
    match decide_pane("overview", &h) {
        PanePlan::Overview { slug } => assert_eq!(slug.as_deref(), Some("demo")),
        other => panic!("{other:?}"),
    }
    assert!(matches!(decide_pane("new", &h), PanePlan::NewProject));
    h.workspace_label = "My Repo".to_string();
    match decide_pane("adopt", &h) {
        PanePlan::Adopt { default_name } => assert_eq!(default_name, "My Repo"),
        other => panic!("{other:?}"),
    }
    match decide_pane("settings", &h) {
        PanePlan::Refuse { error } => assert_eq!(error.message(), "unknown pane `settings`"),
        other => panic!("{other:?}"),
    }
}

#[test]
fn questions_and_answers() {
    assert_eq!(ask_prompt("Name", ""), "Name: ");
    assert_eq!(ask_prompt("Agent (optional)", "omp"), "Agent (optional) [omp]: ");
    assert_eq!(answer_or_default("  Billing \n", "x"), "Billing");
    assert_eq!(answer_or_default(" \t\n", "omp"), "omp");
    assert_eq!(answer_or_default("\n", ""), "");
    assert_eq!(answer_or_default("\u{3000}omp\u{a0}", ""), "omp");
    assert!(matches!(given_name(String::new()), Err(ProjectsError::NoName)));
    assert_eq!(given_name("Billing".to_string()).unwrap(), "Billing");
    assert_eq!(ProjectsError::NoName.message(), "no name given");
}

#[test]
fn the_adopt_popup_request() {
    let mut h = Handoff::default();
    h.pane_id = "w5:p1".to_string();
    h.workspace_cwd = "/work".to_string();
    let r = adopt_workspace_request("My Repo".to_string(), &h, "/run/a.sock".to_string());
    assert_eq!(r.name, "My Repo");
    assert_eq!(r.goal, "");
    assert_eq!(r.pane, "w5:p1");
    assert_eq!(r.workspace_cwd, "/work");
    assert_eq!(r.session.session, None);
    assert_eq!(r.session.socket.as_deref(), Some("/run/a.sock"));
}

#[test]
fn doctor_notices() {
    assert_eq!(
        doctor_notice(true),
        "All required checks passed. Details: herdr plugin log --plugin herdr-projects"
    );
    assert_eq!(
        doctor_notice(false),
        "Some checks FAILED. Details: herdr plugin log --plugin herdr-projects"
    );
}

#[test]
fn the_new_project_popup_options() {
    let o = new_project_options("\n", "omp");
    assert_eq!(o.coordinator_agent.as_deref(), Some("omp"));
    assert_eq!(o.thread_agent.as_deref(), Some("omp"));
    let o = new_project_options("  codex \n", "omp");
    assert_eq!((o.coordinator_agent.as_deref(), o.thread_agent.as_deref()), (Some("codex"), Some("codex")));
    let o = new_project_options(" ", "");
    assert_eq!((o.coordinator_agent, o.thread_agent), (None, None));
}

#[test]
fn handoffs_compare_field_by_field() {
    let mut a = Handoff::default();
    a.slug = "demo".to_string();
    let mut b = Handoff::default();
    b.slug = "demo".to_string();
    assert!(a == b);
    b.socket = "/run/a.sock".to_string();
    assert!(a != b);
}
