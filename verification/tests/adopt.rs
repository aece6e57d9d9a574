use herdr_projects::adopt::{
    adopt_precheck, adopt_task, adoptable_agent, adopted_thread, create_options, git_answer,
    project_dir, prompt_pending, refuse_taken_slug, workspace_repos, AdoptWorkspace, Agent,
    CoordinatorRecord, ProjectRecord, SessionFlags, ThreadRecord,
};
use herdr_projects::error::{ProjectStatus, ProjectsError};
use herdr_projects::text::{blank, str_eq, trimmed};
use herdr_projects::thread_flow::{git_query_args, GitQuery, ThreadAction, ThreadAdoption, ThreadEvent, ThreadPhase};
use herdr_projects::workspace_flow::{WorkspaceAction, WorkspaceAdoption, WorkspaceEvent, WorkspacePhase};

const DEFAULT_TASK: &str = "Continue the work you were already doing in this pane. It now belongs to the project described above: follow its instructions, and when you finish or stop to wait for the user, write the report.";

fn agent(pane: &str, cwd: &str, name: &str, status: &str) -> Agent {
    Agent {
        workspace_id: "w5".to_string(),
        tab_id: "w5:t1".to_string(),
        pane_id: pane.to_string(),
        cwd: cwd.to_string(),
        agent: "omp".to_string(),
        name: name.to_string(),
        agent_status: status.to_string(),
    }
}

fn agents() -> Vec<Agent> {
    vec![agent("w5:p1", "/home/u/work", "my-agent", "idle"), agent("w5:p2", "/home/u/work", "", "idle")]
}

fn project(slug: &str, socket: &str, threads: Vec<ThreadRecord>) -> ProjectRecord {
    ProjectRecord {
        slug: slug.to_string(),
        coordinator: Some(CoordinatorRecord { socket: socket.to_string(), pane_id: "w1:p1".to_string(), agent_matches: true }),
        threads,
    }
}

fn live_thread(id: &str, pane: &str) -> ThreadRecord {
    ThreadRecord { id: id.to_string(), pane_id: pane.to_string(), remote: false, resolved: false, agent_matches: true }
}

/// What a finished adoption recorded of its thread.
#[derive(Debug)]
struct Recorded {
    id: String,
    prompt_pending: bool,
    last_state: String,
    prompts_sent: usize,
}

/// Runs a thread adoption to its end against `world`, the projects on record:
/// every git question is answered as a directory outside any repository does,
/// an allocated thread is recorded in its project, an `idle` agent counts as
/// ready, and every prompt is delivered.
fn adopt(world: &mut Vec<ProjectRecord>, slug: &str, pane: &str, title: &str) -> Result<Recorded, ProjectsError> {
    let socket = world
        .iter()
        .find(|p| p.slug == slug)
        .and_then(|p| p.coordinator.as_ref())
        .map(|c| c.socket.clone());
    let (mut s, mut a) = ThreadAdoption::start(slug.to_string(), pane.to_string(), title.to_string(), None);
    let mut prompts_sent = 0;
    loop {
        let event = match a {
            ThreadAction::LoadProject { slug: asked } => {
                assert_eq!(asked, slug);
                ThreadEvent::Loaded { status: ProjectStatus::Active, coordinator_socket: socket.clone() }
            }
            ThreadAction::StartTicker => ThreadEvent::TickerStarted,
            ThreadAction::ListAgents { socket: asked } => {
                assert_eq!(Some(asked), socket);
                ThreadEvent::Listed { agents: Ok(agents()), projects: world.clone() }
            }
            ThreadAction::AskGit { .. } => {
                ThreadEvent::GitAnswered { success: false, stdout: "fatal: not a git repository".to_string() }
            }
            ThreadAction::Allocate { thread } => {
                let project = world.iter_mut().find(|p| p.slug == slug).unwrap();
                let id = format!("t-{:04}", project.threads.len() + 1);
                project.threads.push(live_thread(&id, &thread.pane_id));
                ThreadEvent::Allocated { id }
            }
            ThreadAction::Brief { .. } => ThreadEvent::Briefed { failure: None },
            ThreadAction::CheckReady { agent } => ThreadEvent::Ready { ready: agent.agent_status == "idle" },
            ThreadAction::Prompt { .. } => {
                prompts_sent += 1;
                ThreadEvent::Prompted { delivered: true }
            }
            ThreadAction::Record { id, prompt_pending, last_state } => {
                assert_eq!(s.phase(), ThreadPhase::Done);
                return Ok(Recorded { id, prompt_pending, last_state, prompts_sent });
            }
            ThreadAction::Refuse { error } => {
                assert_eq!(s.phase(), ThreadPhase::Refused);
                return Err(error);
            }
            ThreadAction::MarkFailed { .. } | ThreadAction::Nothing => panic!("the adoption stopped"),
        };
        (s, a) = s.step(event);
    }
}

fn threads_of(world: &[ProjectRecord], slug: &str) -> usize {
    world.iter().find(|p| p.slug == slug).unwrap().threads.len()
}

#[test]
fn refusals_happen_before_anything_is_created() {
    let mut world = vec![project("demo", "a.sock", vec![])];
    // No detected agent in that pane.
    let err = adopt(&mut world, "demo", "w9:p9", "x").unwrap_err();
    assert!(err.message().contains("no agent is detected"));
    assert_eq!(threads_of(&world, "demo"), 0);
    // Already a thread.
    adopt(&mut world, "demo", "w5:p1", "first").unwrap();
    let err = adopt(&mut world, "demo", "w5:p1", "again").unwrap_err();
    assert!(err.message().contains("already thread t-0001"));
    assert_eq!(threads_of(&world, "demo"), 1);

    // Same pane id recorded by a project in ANOTHER socket is a different pane.
    world.push(project("other", "b.sock", vec![]));
    let t = adopt(&mut world, "other", "w5:p1", "other session");
    assert!(t.is_ok(), "{t:?}", t = t.as_ref().err());
}

#[test]
fn a_busy_agent_gets_its_prompt_later_even_when_it_ends_in_done() {
    // The pane's agent is working: the thread is recorded with its prompt
    // pending and no prompt is sent now. The later delivery, also when the
    // agent ends in `done`, is the ticker's work, which is not part of this
    // library; this test covers the adoption's half only.
    let busy = vec![agent("w5:p1", "/home/u/work", "my-agent", "working")];
    let world = vec![project("demo", "a.sock", vec![])];
    let (s, _) = ThreadAdoption::start("demo".to_string(), "w5:p1".to_string(), "Busy".to_string(), None);
    let (s, _) = s.step(ThreadEvent::Loaded { status: ProjectStatus::Active, coordinator_socket: Some("a.sock".to_string()) });
    let (s, _) = s.step(ThreadEvent::TickerStarted);
    let (mut s, mut a) = s.step(ThreadEvent::Listed { agents: Ok(busy), projects: world });
    while let ThreadAction::AskGit { .. } = a {
        (s, a) = s.step(ThreadEvent::GitAnswered { success: false, stdout: String::new() });
    }
    assert!(matches!(a, ThreadAction::Allocate { .. }));
    let (s, _) = s.step(ThreadEvent::Allocated { id: "t-0001".to_string() });
    let (s, a) = s.step(ThreadEvent::Briefed { failure: None });
    let ready = match a {
        ThreadAction::CheckReady { agent } => agent.agent_status == "idle",
        _ => panic!("readiness is asked after the brief"),
    };
    assert!(!ready);
    let (s, a) = s.step(ThreadEvent::Ready { ready });
    assert_eq!(s.phase(), ThreadPhase::Done);
    match a {
        ThreadAction::Record { id, prompt_pending, last_state } => {
            assert_eq!(id, "t-0001");
            assert!(prompt_pending);
            assert_eq!(last_state, "working");
        }
        _ => panic!("a busy agent is not prompted"),
    }
}

#[test]
fn a_ready_agent_is_prompted_at_once() {
    let mut world = vec![project("demo", "a.sock", vec![])];
    let t = adopt(&mut world, "demo", "w5:p1", "Ready").unwrap();
    assert_eq!(t.id, "t-0001");
    assert_eq!(t.prompts_sent, 1);
    assert!(!t.prompt_pending);
    assert_eq!(t.last_state, "idle");
}

#[test]
fn an_undelivered_prompt_stays_pending() {
    let (s, _) = ThreadAdoption::start("demo".to_string(), "w5:p1".to_string(), "x".to_string(), None);
    let (s, _) = s.step(ThreadEvent::Loaded { status: ProjectStatus::Active, coordinator_socket: Some("a.sock".to_string()) });
    let (s, _) = s.step(ThreadEvent::TickerStarted);
    let (mut s, mut a) = s.step(ThreadEvent::Listed { agents: Ok(agents()), projects: vec![] });
    while let ThreadAction::AskGit { .. } = a {
        (s, a) = s.step(ThreadEvent::GitAnswered { success: false, stdout: String::new() });
    }
    let (s, _) = s.step(ThreadEvent::Allocated { id: "t-0007".to_string() });
    let (s, _) = s.step(ThreadEvent::Briefed { failure: None });
    let (s, a) = s.step(ThreadEvent::Ready { ready: true });
    match a {
        ThreadAction::Prompt { socket, pane, slug, id } => {
            assert_eq!((socket.as_str(), pane.as_str(), slug.as_str(), id.as_str()), ("a.sock", "w5:p1", "demo", "t-0007"));
        }
        _ => panic!("a ready agent is prompted"),
    }
    assert_eq!(s.phase(), ThreadPhase::Prompt);
    let (_, a) = s.step(ThreadEvent::Prompted { delivered: false });
    match a {
        ThreadAction::Record { prompt_pending, .. } => assert!(prompt_pending),
        _ => panic!("the thread is recorded"),
    }
}

#[test]
fn a_failed_brief_marks_the_thread_failed() {
    let (s, _) = ThreadAdoption::start("demo".to_string(), "w5:p2".to_string(), "x".to_string(), None);
    let (s, _) = s.step(ThreadEvent::Loaded { status: ProjectStatus::Active, coordinator_socket: Some("a.sock".to_string()) });
    let (s, _) = s.step(ThreadEvent::TickerStarted);
    let (mut s, mut a) = s.step(ThreadEvent::Listed { agents: Ok(agents()), projects: vec![] });
    while let ThreadAction::AskGit { .. } = a {
        (s, a) = s.step(ThreadEvent::GitAnswered { success: false, stdout: String::new() });
    }
    let (s, _) = s.step(ThreadEvent::Allocated { id: "t-0002".to_string() });
    let (s, a) = s.step(ThreadEvent::Briefed { failure: Some("could not create /home/u/work/x".to_string()) });
    assert_eq!(s.phase(), ThreadPhase::Failed);
    match a {
        ThreadAction::MarkFailed { id, message } => {
            assert_eq!(id, "t-0002");
            assert_eq!(message, "could not create /home/u/work/x");
        }
        _ => panic!("the thread is marked failed"),
    }
    // Nothing moves it on from there.
    let (s, a) = s.step(ThreadEvent::Ready { ready: true });
    assert!(matches!(a, ThreadAction::Nothing));
    assert_eq!(s.phase(), ThreadPhase::Failed);
}

#[test]
fn adopt_workspace_refuses_without_an_agent_and_creates_nothing() {
    let request = AdoptWorkspace {
        name: "From Workspace".to_string(),
        goal: String::new(),
        pane: "w9:p9".to_string(),
        workspace_cwd: String::new(),
        session: SessionFlags { session: None, socket: Some("a.sock".to_string()) },
    };
    let (s, a) = WorkspaceAdoption::start(request, "a.sock".to_string(), "/home/u/.herdr-projects".to_string());
    assert!(matches!(a, WorkspaceAction::ListAgents { .. }));
    let (s, a) = s.step(WorkspaceEvent::Listed { agents: Ok(agents()), projects: vec![project("demo", "a.sock", vec![])] });
    assert!(matches!(a, WorkspaceAction::Refuse { error: ProjectsError::NoAgent { .. } }));
    assert_eq!(s.phase(), WorkspacePhase::Refused);
    // Nothing moves it on from there.
    let (s, a) = s.step(WorkspaceEvent::SlugTaken { taken: false });
    assert!(matches!(a, WorkspaceAction::Nothing));
    assert_eq!(s.phase(), WorkspacePhase::Refused);
}

#[test]
fn a_workspace_becomes_a_project() {
    let request = AdoptWorkspace {
        name: "My Repo".to_string(),
        goal: String::new(),
        pane: "w5:p1".to_string(),
        workspace_cwd: "/work".to_string(),
        session: SessionFlags { session: None, socket: Some("a.sock".to_string()) },
    };
    let (s, _) = WorkspaceAdoption::start(request, "a.sock".to_string(), "/root".to_string());
    let (s, a) = s.step(WorkspaceEvent::Listed { agents: Ok(agents()), projects: vec![] });
    match a {
        WorkspaceAction::NameProject { name } => assert_eq!(name, "My Repo"),
        _ => panic!("the name comes next"),
    }
    let (s, a) = s.step(WorkspaceEvent::Named { slug: "my-repo".to_string() });
    assert!(matches!(a, WorkspaceAction::CheckSlug { .. }));
    let (s, a) = s.step(WorkspaceEvent::SlugTaken { taken: false });
    match a {
        WorkspaceAction::FindRepo { dir } => assert_eq!(dir, "/work"),
        _ => panic!("the repository comes next"),
    }
    let (s, a) = s.step(WorkspaceEvent::RepoFound { success: true, stdout: "/work\n".to_string() });
    assert_eq!(s.phase(), WorkspacePhase::Create);
    match a {
        WorkspaceAction::Create { name, goal, repos, options } => {
            assert_eq!(name, "My Repo");
            assert_eq!(goal, "");
            assert_eq!(repos.len(), 1);
            assert_eq!(repos[0].path, "/work");
            assert_eq!(repos[0].machine, None);
            assert_eq!(options.coordinator_agent.as_deref(), Some("omp"));
            assert_eq!(options.thread_agent.as_deref(), Some("omp"));
        }
        _ => panic!("the project is created next"),
    }
    let (s, a) = s.step(WorkspaceEvent::Created { slug: "my-repo".to_string() });
    match a {
        WorkspaceAction::Open { slug, options } => {
            assert_eq!(slug, "my-repo");
            assert_eq!(options.session.session, None);
            assert_eq!(options.session.socket.as_deref(), Some("a.sock"));
            assert!(!options.reprime && !options.rebind);
        }
        _ => panic!("the coordinator is opened next"),
    }
    let (s, a) = s.step(WorkspaceEvent::Opened);
    assert_eq!(s.phase(), WorkspacePhase::Done);
    match a {
        WorkspaceAction::AdoptPane { slug, pane, title } => {
            assert_eq!((slug.as_str(), pane.as_str(), title.as_str()), ("my-repo", "w5:p1", "My Repo"));
        }
        _ => panic!("the pane is adopted last"),
    }
}

#[test]
fn a_taken_slug_is_refused() {
    let request = AdoptWorkspace {
        name: "Demo".to_string(),
        goal: String::new(),
        pane: "w5:p2".to_string(),
        workspace_cwd: String::new(),
        session: SessionFlags { session: None, socket: None },
    };
    let (s, _) = WorkspaceAdoption::start(request, "a.sock".to_string(), "/root".to_string());
    let (s, _) = s.step(WorkspaceEvent::Listed { agents: Ok(agents()), projects: vec![] });
    let (s, _) = s.step(WorkspaceEvent::Named { slug: "demo".to_string() });
    let (s, a) = s.step(WorkspaceEvent::SlugTaken { taken: true });
    assert_eq!(s.phase(), WorkspacePhase::Refused);
    match a {
        WorkspaceAction::Refuse { error } => assert_eq!(error.message(), "`demo` already exists in /root"),
        _ => panic!("refused"),
    }
}

#[test]
fn adopting_records_the_pane_and_the_default_task() {
    let (s, _) = ThreadAdoption::start("demo".to_string(), "w5:p1".to_string(), "  Adopted work ".to_string(), Some("  ".to_string()));
    let (s, _) = s.step(ThreadEvent::Loaded { status: ProjectStatus::Active, coordinator_socket: Some("a.sock".to_string()) });
    let (s, _) = s.step(ThreadEvent::TickerStarted);
    let (s, a) = s.step(ThreadEvent::Listed { agents: Ok(agents()), projects: vec![project("demo", "a.sock", vec![])] });
    match a {
        ThreadAction::AskGit { args } => assert_eq!(args, ["-C", "/home/u/work", "rev-parse", "--show-toplevel"]),
        _ => panic!("git is asked"),
    }
    let (s, a) = s.step(ThreadEvent::GitAnswered { success: true, stdout: "/home/u/work\n".to_string() });
    match a {
        ThreadAction::AskGit { args } => assert_eq!(args, ["-C", "/home/u/work", "rev-parse", "--abbrev-ref", "HEAD"]),
        _ => panic!("git is asked"),
    }
    let (s, a) = s.step(ThreadEvent::GitAnswered { success: true, stdout: "HEAD\n".to_string() });
    match a {
        ThreadAction::AskGit { args } => assert_eq!(args, ["-C", "/home/u/work", "remote", "get-url", "origin"]),
        _ => panic!("git is asked"),
    }
    let (s, a) = s.step(ThreadEvent::GitAnswered { success: true, stdout: "git@example.org:u/work.git\n".to_string() });
    match a {
        ThreadAction::Allocate { thread } => {
            assert_eq!(thread.title, "Adopted work");
            assert_eq!(thread.agent_name, "my-agent");
            assert_eq!(thread.repo, "/home/u/work");
            assert_eq!(thread.branch, "");
            assert_eq!(thread.origin, "git@example.org:u/work.git");
            assert_eq!(thread.pane_id, "w5:p1");
        }
        _ => panic!("the thread is allocated"),
    }
    let (_, a) = s.step(ThreadEvent::Allocated { id: "t-0001".to_string() });
    match a {
        ThreadAction::Brief { id, cwd, task } => {
            assert_eq!(id, "t-0001");
            assert_eq!(cwd, "/home/u/work");
            assert_eq!(task, DEFAULT_TASK);
        }
        _ => panic!("the thread is briefed"),
    }
}

#[test]
fn project_checks_come_in_order() {
    let msg = |r: Result<(), ProjectsError>| r.unwrap_err().message();
    assert_eq!(
        msg(adopt_precheck("demo", ProjectStatus::Paused, "", false)),
        "`demo` is paused; adopting is refused until it is active again"
    );
    assert_eq!(msg(adopt_precheck("demo", ProjectStatus::Active, " \t", false)), "--title may not be empty");
    assert_eq!(
        msg(adopt_precheck("demo", ProjectStatus::Active, "x", false)),
        "`demo` has never been opened; run `open demo` first"
    );
    assert!(adopt_precheck("demo", ProjectStatus::Active, "x", true).is_ok());
    // Through the adoption itself: a paused project refuses before the ticker starts.
    let (s, _) = ThreadAdoption::start("demo".to_string(), "w5:p1".to_string(), "x".to_string(), None);
    let (s, a) = s.step(ThreadEvent::Loaded { status: ProjectStatus::Paused, coordinator_socket: Some("a.sock".to_string()) });
    assert_eq!(s.phase(), ThreadPhase::Refused);
    assert!(matches!(a, ThreadAction::Refuse { error: ProjectsError::NotActive { .. } }));
}

#[test]
fn adoption_check_messages() {
    let projects = vec![project("demo", "a.sock", vec![])];
    let e = adoptable_agent(&Err("connection refused".to_string()), "a.sock", "w5:p1", &projects).unwrap_err();
    assert_eq!(e.message(), "the herdr session at a.sock is not reachable: connection refused");
    let e = adoptable_agent(&Ok(agents()), "a.sock", "w9:p9", &projects).unwrap_err();
    assert_eq!(
        e.message(),
        "no agent is detected in pane w9:p9 of the session at a.sock; only a running local agent pane can be adopted"
    );
    let e = adoptable_agent(&Ok(vec![agent("w1:p1", "/x", "", "idle")]), "a.sock", "w1:p1", &projects).unwrap_err();
    assert_eq!(e.message(), "pane w1:p1 is the coordinator of `demo`");
    let held = vec![project("demo", "a.sock", vec![live_thread("t-0003", "w5:p2")])];
    let e = adoptable_agent(&Ok(agents()), "a.sock", "w5:p2", &held).unwrap_err();
    assert_eq!(e.message(), "pane w5:p2 is already thread t-0003 of `demo`");
    let found = adoptable_agent(&Ok(agents()), "a.sock", "w5:p1", &held).unwrap();
    assert_eq!(found.name, "my-agent");
}

#[test]
fn threads_that_no_longer_hold_the_pane() {
    let mut resolved = live_thread("t-0001", "w5:p1");
    resolved.resolved = true;
    let mut remote = live_thread("t-0002", "w5:p1");
    remote.remote = true;
    let mut other_agent = live_thread("t-0003", "w5:p1");
    other_agent.agent_matches = false;
    let projects = vec![project("demo", "a.sock", vec![resolved, remote, other_agent])];
    assert!(adoptable_agent(&Ok(agents()), "a.sock", "w5:p1", &projects).is_ok());
    // A project never opened does not stand in the way either.
    let never = ProjectRecord { slug: "new".to_string(), coordinator: None, threads: vec![live_thread("t-0001", "w5:p1")] };
    assert!(adoptable_agent(&Ok(agents()), "a.sock", "w5:p1", &vec![never]).is_ok());
}

#[test]
fn git_answers_and_records() {
    assert_eq!(git_answer(true, "  /w \n"), Some("/w".to_string()));
    assert_eq!(git_answer(true, " \n"), None);
    assert_eq!(git_answer(false, "/w"), None);
    let a = agent("w5:p1", "/w", "", "working");
    let t = adopted_thread(" t ", &a, None, Some("main".to_string()), None);
    assert_eq!((t.title.as_str(), t.repo.as_str(), t.branch.as_str(), t.origin.as_str()), ("t", "", "main", ""));
    assert_eq!(adopt_task(Some("Finish the refactor.".to_string())), "Finish the refactor.");
    assert_eq!(adopt_task(None), DEFAULT_TASK);
    assert!(prompt_pending(false, true));
    assert!(prompt_pending(true, false));
    assert!(!prompt_pending(true, true));
    assert_eq!(project_dir("", &a), "/w");
    assert_eq!(project_dir("/work", &a), "/work");
    assert!(workspace_repos(None).is_empty());
    let o = create_options("");
    assert_eq!((o.coordinator_agent, o.thread_agent), (None, None));
    assert!(refuse_taken_slug("x", "/r", false).is_ok());
    assert_eq!(git_query_args("/w", GitQuery::Origin), ["-C", "/w", "remote", "get-url", "origin"]);
}

#[test]
fn text_operations() {
    assert_eq!(trimmed("\u{2003} a b\t\n"), "a b");
    assert_eq!(trimmed(""), "");
    assert!(blank(" \u{85}\r"));
    assert!(!blank(" x "));
    assert!(str_eq("héllo", "héllo"));
    assert!(!str_eq("a", "ab"));
    assert_eq!(ProjectStatus::Paused.name(), "paused");
}
