//! Adopting a running agent pane as a thread of an existing project, as a
//! sequence of decisions: the caller performs each action (talking to herdr,
//! to git, to the project store) and hands back what came of it. Every refusal
//! comes before the thread is allocated; after it, the thread is briefed, the
//! agent is prompted when it is ready, and the thread is recorded as open.

use vstd::prelude::*;

use crate::adopt::{
    adopt_precheck, adopt_precheck_spec, adopt_task, adopt_task_spec, adoptable, adoptable_agent,
    agent_in_pane,
    adopted_thread, agent_opt_view, git_answer, git_answer_spec, is_adopted_thread, listing_view, opt_view,
    prompt_pending, AdoptedThread, Agent, AgentView, ProjectRecord,
};
use crate::actions::{opt_clone, strings_view};
use crate::error::{ErrorView, ProjectStatus, ProjectsError};

verus! {

/// Where a thread adoption stands.
#[derive(PartialEq, Eq, Structural, Clone, Copy, Debug)]
pub enum ThreadPhase {
    /// Waiting for the project's status and coordinator record.
    LoadProject,
    /// Waiting for the ticker to run.
    StartTicker,
    /// Waiting for the session's agents and the projects.
    ListAgents,
    /// Waiting for git's answer about the pane's repository.
    AskRepo,
    /// Waiting for git's answer about the branch.
    AskBranch,
    /// Waiting for git's answer about the `origin` remote.
    AskOrigin,
    /// Waiting for the thread to be allocated.
    Allocate,
    /// Waiting for the thread's task and brief to be written.
    Brief,
    /// Waiting to learn whether the agent is ready for a prompt.
    CheckReady,
    /// Waiting for the launch prompt to be delivered.
    Prompt,
    /// The thread is to be recorded as open; nothing is left to decide.
    Done,
    /// Briefing failed; the thread is to be marked failed.
    Failed,
    /// Refused; nothing was created.
    Refused,
}

/// A question to git about the pane's directory.
#[derive(PartialEq, Eq, Structural, Clone, Copy, Debug)]
pub enum GitQuery {
    /// The top of the repository.
    TopLevel,
    /// The branch checked out.
    Branch,
    /// The URL of the `origin` remote.
    Origin,
}

/// The arguments of the git call that asks `query` about `dir`.
pub open spec fn git_query_args_spec(dir: Seq<char>, query: GitQuery) -> Seq<Seq<char>> {
    match query {
        GitQuery::TopLevel => seq!["-C"@, dir, "rev-parse"@, "--show-toplevel"@],
        GitQuery::Branch => seq!["-C"@, dir, "rev-parse"@, "--abbrev-ref"@, "HEAD"@],
        GitQuery::Origin => seq!["-C"@, dir, "remote"@, "get-url"@, "origin"@],
    }
}

pub fn git_query_args(dir: &str, query: GitQuery) -> (r: Vec<String>)
    ensures
        strings_view(r@) == git_query_args_spec(dir@, query),
{
    let mut r: Vec<String> = Vec::new();
    r.push(String::from_str("-C"));
    r.push(String::from_str(dir));
    match query {
        GitQuery::TopLevel => {
            r.push(String::from_str("rev-parse"));
            r.push(String::from_str("--show-toplevel"));
        },
        GitQuery::Branch => {
            r.push(String::from_str("rev-parse"));
            r.push(String::from_str("--abbrev-ref"));
            r.push(String::from_str("HEAD"));
        },
        GitQuery::Origin => {
            r.push(String::from_str("remote"));
            r.push(String::from_str("get-url"));
            r.push(String::from_str("origin"));
        },
    }
    assert(strings_view(r@) =~= git_query_args_spec(dir@, query));
    r
}

/// A thread adoption in progress. Only [`ThreadAdoption::start`] and
/// [`ThreadAdoption::step`] make one, so every adoption keeps
/// [`ThreadAdoptionView::wf`].
pub struct ThreadAdoption {
    slug: String,
    pane: String,
    title: String,
    task: Option<String>,
    phase: ThreadPhase,
    socket: Option<String>,
    agent: Option<Agent>,
    repo: Option<String>,
    branch: Option<String>,
    id: Option<String>,
    project: Ghost<(ProjectStatus, bool)>,
    checked: Ghost<(Result<Seq<AgentView>, Seq<char>>, Seq<ProjectRecord>)>,
    ready: Ghost<bool>,
    origin: Ghost<Option<Seq<char>>>,
    thread: Ghost<Option<AdoptedThread>>,
}

/// A thread adoption as the contracts speak of it.
pub struct ThreadAdoptionView {
    /// The project's slug.
    pub slug: Seq<char>,
    /// The pane to adopt.
    pub pane: Seq<char>,
    pub title: Seq<char>,
    pub task: Option<Seq<char>>,
    pub phase: ThreadPhase,
    /// The socket of the session of the project's coordinator, once known.
    pub socket: Option<Seq<char>>,
    /// The agent in the pane, once the pane passed the adoption check.
    pub agent: Option<AgentView>,
    pub repo: Option<Seq<char>>,
    pub branch: Option<Seq<char>>,
    /// The id of the allocated thread, once allocated.
    pub id: Option<Seq<char>>,
    /// The project status, and whether it had been opened, that the project
    /// checks passed on.
    pub project: (ProjectStatus, bool),
    /// The agent listing and the projects the pane was checked against.
    pub checked: (Result<Seq<AgentView>, Seq<char>>, Seq<ProjectRecord>),
    /// Whether the agent was found ready for a prompt.
    pub ready: bool,
    /// git's answer about the `origin` remote, once asked.
    pub origin: Option<Seq<char>>,
    /// The thread record allocated, once allocated.
    pub thread: Option<AdoptedThread>,
}

impl View for ThreadAdoption {
    type V = ThreadAdoptionView;

    closed spec fn view(&self) -> ThreadAdoptionView {
        ThreadAdoptionView {
            slug: self.slug@,
            pane: self.pane@,
            title: self.title@,
            task: opt_view(self.task),
            phase: self.phase,
            socket: opt_view(self.socket),
            agent: agent_opt_view(self.agent),
            repo: opt_view(self.repo),
            branch: opt_view(self.branch),
            id: opt_view(self.id),
            project: self.project@,
            checked: self.checked@,
            ready: self.ready@,
            origin: self.origin@,
            thread: self.thread@,
        }
    }
}

impl ThreadAdoptionView {
    /// The project and title checks passed, and the coordinator's session is known.
    pub open spec fn project_passed(self) -> bool {
        &&& adopt_precheck_spec(self.slug, self.project.0, self.title, self.project.1) is None
        &&& self.socket is Some
    }

    /// The adoption check passed in the coordinator's session.
    pub open spec fn pane_passed(self) -> bool {
        &&& self.socket matches Some(s)
        &&& self.agent matches Some(a)
        &&& adoptable(self.checked.0, s, self.pane, self.checked.1) == Ok::<AgentView, ErrorView>(a)
    }

    /// The phases reached only once the project checks passed.
    pub open spec fn past_project_check(self) -> bool {
        self.phase != ThreadPhase::LoadProject && self.phase != ThreadPhase::Refused
    }

    /// The phases reached only once the thread was allocated.
    pub open spec fn allocated(self) -> bool {
        ||| self.phase == ThreadPhase::Brief
        ||| self.phase == ThreadPhase::CheckReady
        ||| self.phase == ThreadPhase::Prompt
        ||| self.phase == ThreadPhase::Done
        ||| self.phase == ThreadPhase::Failed
    }

    /// The phases reached only once the pane passed the adoption check.
    pub open spec fn past_pane_check(self) -> bool {
        ||| self.phase == ThreadPhase::AskRepo
        ||| self.phase == ThreadPhase::AskBranch
        ||| self.phase == ThreadPhase::AskOrigin
        ||| self.phase == ThreadPhase::Allocate
        ||| self.allocated()
    }

    /// What every adoption keeps: the later phases are reached only through
    /// the earlier ones' checks, and the prompt only for a ready agent.
    pub open spec fn wf(self) -> bool {
        &&& self.past_project_check() ==> self.project_passed()
        &&& self.past_pane_check() ==> self.pane_passed()
        &&& self.allocated() ==> self.id is Some
        &&& (self.phase == ThreadPhase::Allocate || self.allocated()) ==> (self.agent matches Some(a)
            && self.thread matches Some(t) && is_adopted_thread(
            t,
            self.title,
            a,
            self.repo,
            self.branch,
            self.origin,
        ))
        &&& self.phase == ThreadPhase::Prompt ==> self.ready
    }

    /// The same request.
    pub open spec fn same_request(self, other: Self) -> bool {
        &&& self.slug == other.slug
        &&& self.pane == other.pane
        &&& self.title == other.title
        &&& self.task == other.task
    }

    /// The phase in which `event` is expected.
    pub open spec fn expects(self, event: ThreadEvent) -> bool {
        ||| self.phase == ThreadPhase::LoadProject && event is Loaded
        ||| self.phase == ThreadPhase::StartTicker && event is TickerStarted
        ||| self.phase == ThreadPhase::ListAgents && event is Listed
        ||| (self.phase == ThreadPhase::AskRepo || self.phase == ThreadPhase::AskBranch
            || self.phase == ThreadPhase::AskOrigin) && event is GitAnswered
        ||| self.phase == ThreadPhase::Allocate && event is Allocated
        ||| self.phase == ThreadPhase::Brief && event is Briefed
        ||| self.phase == ThreadPhase::CheckReady && event is Ready
        ||| self.phase == ThreadPhase::Prompt && event is Prompted
    }
}

/// What came of the last action.
#[derive(Debug)]
pub enum ThreadEvent {
    /// The project's status, and the session socket of its coordinator record
    /// (`None` when it has never been opened).
    Loaded { status: ProjectStatus, coordinator_socket: Option<String> },
    TickerStarted,
    /// herdr's agent listing of the session (or the text of its error), and
    /// the projects that could be loaded, in slug order.
    Listed { agents: Result<Vec<Agent>, String>, projects: Vec<ProjectRecord> },
    /// What the git call gave: whether it succeeded, and its output.
    GitAnswered { success: bool, stdout: String },
    /// The thread was allocated under `id`.
    Allocated { id: String },
    /// The task and brief were written, or the text of the error that stopped it.
    Briefed { failure: Option<String> },
    /// Whether the agent is ready for a prompt.
    Ready { ready: bool },
    /// Whether the launch prompt was delivered.
    Prompted { delivered: bool },
}

/// What to do next.
#[derive(Debug)]
pub enum ThreadAction {
    LoadProject { slug: String },
    /// Make sure the ticker runs.
    StartTicker,
    /// List the agents of the session at `socket` and load the projects.
    ListAgents { socket: String },
    /// Run git with these arguments.
    AskGit { args: Vec<String> },
    /// Allocate the thread.
    Allocate { thread: AdoptedThread },
    /// Store `task` as the task of thread `id`, write its brief in a thread
    /// directory under `cwd`, and record that directory.
    Brief { id: String, cwd: String, task: String },
    /// Mark thread `id` failed with `message`; the adoption fails with it.
    MarkFailed { id: String, message: String },
    /// Find out whether `agent` is ready for a prompt.
    CheckReady { agent: Agent },
    /// Send thread `id` of project `slug` its launch prompt, in `pane` of the
    /// session at `socket`.
    Prompt { socket: String, pane: String, slug: String, id: String },
    /// Record thread `id` as open, with `last_state` as the agent's last state.
    Record { id: String, prompt_pending: bool, last_state: String },
    Refuse { error: ProjectsError },
    /// The event does not belong to this phase: nothing to do.
    Nothing,
}

fn unwrap_or_empty(o: &Option<String>) -> (r: String)
    ensures
        o is Some ==> Some(r@) == opt_view(*o),
{
    match o {
        Some(x) => x.clone(),
        None => String::new(),
    }
}

impl ThreadAdoption {
    #[verifier::type_invariant]
    closed spec fn inv(self) -> bool {
        self@.wf()
    }

    /// Where the adoption stands. Every adoption keeps `wf`.
    pub fn phase(&self) -> (p: ThreadPhase)
        ensures
            p == self@.phase,
            self@.wf(),
    {
        proof {
            use_type_invariant(self);
        }
        self.phase
    }

    /// Starts adopting `pane` into the project `slug` as a thread titled
    /// `title`, with `task` as its task (the default task when it is missing
    /// or blank).
    pub fn start(slug: String, pane: String, title: String, task: Option<String>) -> (r: (
        Self,
        ThreadAction,
    ))
        ensures
            r.0@.wf(),
            r.0@.phase == ThreadPhase::LoadProject,
            r.0@.slug == slug@,
            r.0@.pane == pane@,
            r.0@.title == title@,
            r.0@.task == opt_view(task),
            r.1 matches ThreadAction::LoadProject { slug: s } && s@ == slug@,
    {
        let s = slug.clone();
        (
            ThreadAdoption {
                slug,
                pane,
                title,
                task,
                phase: ThreadPhase::LoadProject,
                socket: None,
                agent: None,
                repo: None,
                branch: None,
                id: None,
                project: Ghost((ProjectStatus::Paused, false)),
                checked: Ghost((Err(Seq::empty()), Seq::empty())),
                ready: Ghost(false),
                origin: Ghost(None),
                thread: Ghost(None),
            },
            ThreadAction::LoadProject { slug: s },
        )
    }

    /// The next decision, from what came of the last action.
    pub fn step(self, event: ThreadEvent) -> (r: (Self, ThreadAction))
        ensures
            r.0@.wf(),
            r.0@.same_request(self@),
            // The project and the title are checked first.
            self@.phase == ThreadPhase::LoadProject ==> (event matches ThreadEvent::Loaded {
                status,
                coordinator_socket,
            } ==> match adopt_precheck_spec(
                self@.slug,
                status,
                self@.title,
                coordinator_socket is Some,
            ) {
                Some(e) => r.0@.phase == ThreadPhase::Refused && (r.1 matches ThreadAction::Refuse {
                    error,
                } && error@ == e),
                None => r.0@.phase == ThreadPhase::StartTicker && r.0@.socket == opt_view(
                    coordinator_socket,
                ) && r.1 is StartTicker,
            }),
            // Then the ticker is started and the pane is checked in the
            // coordinator's session.
            self@.phase == ThreadPhase::StartTicker ==> (event is TickerStarted ==> r.0@.phase
                == ThreadPhase::ListAgents && r.0@.socket == self@.socket && (r.1 matches ThreadAction::ListAgents {
                socket,
            } && self@.socket == Some(socket@))),
            self@.phase == ThreadPhase::ListAgents ==> (event matches ThreadEvent::Listed {
                agents,
                projects,
            } ==> self@.socket matches Some(s) && match adoptable(
                listing_view(agents),
                s,
                self@.pane,
                projects@,
            ) {
                Err(e) => r.0@.phase == ThreadPhase::Refused && (r.1 matches ThreadAction::Refuse {
                    error,
                } && error@ == e),
                Ok(a) => r.0@.phase == ThreadPhase::AskRepo && r.0@.agent == Some(a) && (
                r.1 matches ThreadAction::AskGit { args } && strings_view(args@)
                    == git_query_args_spec(a.cwd, GitQuery::TopLevel)),
            }),
            // Then git is asked about the pane's directory.
            self@.phase == ThreadPhase::AskRepo ==> (event matches ThreadEvent::GitAnswered {
                success,
                stdout,
            } ==> r.0@.phase == ThreadPhase::AskBranch && r.0@.repo == git_answer_spec(
                success,
                stdout@,
            ) && r.0@.agent == self@.agent && (r.1 matches ThreadAction::AskGit { args }
                && self@.agent matches Some(a) && strings_view(args@) == git_query_args_spec(
                a.cwd,
                GitQuery::Branch,
            ))),
            self@.phase == ThreadPhase::AskBranch ==> (event matches ThreadEvent::GitAnswered {
                success,
                stdout,
            } ==> r.0@.phase == ThreadPhase::AskOrigin && r.0@.branch == git_answer_spec(
                success,
                stdout@,
            ) && r.0@.repo == self@.repo && r.0@.agent == self@.agent && (r.1 matches ThreadAction::AskGit {
                args,
            } && self@.agent matches Some(a) && strings_view(args@) == git_query_args_spec(
                a.cwd,
                GitQuery::Origin,
            ))),
            // Then the thread is allocated with what was found.
            self@.phase == ThreadPhase::AskOrigin ==> (event matches ThreadEvent::GitAnswered {
                success,
                stdout,
            } ==> r.0@.phase == ThreadPhase::Allocate && r.0@.agent == self@.agent && (
            r.1 matches ThreadAction::Allocate { thread } && r.0@.thread == Some(thread)
                && (self@.agent matches Some(a) && is_adopted_thread(
                thread,
                self@.title,
                a,
                self@.repo,
                self@.branch,
                git_answer_spec(success, stdout@),
            )))),
            // The allocated thread is given its task and brief, in the pane's directory.
            self@.phase == ThreadPhase::Allocate ==> (event matches ThreadEvent::Allocated { id }
                ==> r.0@.phase == ThreadPhase::Brief && r.0@.id == Some(id@) && r.0@.agent
                == self@.agent && (r.1 matches ThreadAction::Brief { id: i, cwd, task } && i@
                == id@ && (self@.agent matches Some(a) && cwd@ == a.cwd) && task@
                == adopt_task_spec(self@.task))),
            // A failed briefing marks the thread failed with the error's text;
            // otherwise the agent's readiness decides whether it is prompted now.
            self@.phase == ThreadPhase::Brief ==> (event matches ThreadEvent::Briefed { failure }
                ==> match failure {
                Some(m) => r.0@.phase == ThreadPhase::Failed && (r.1 matches ThreadAction::MarkFailed {
                    id,
                    message,
                } && self@.id == Some(id@) && message@ == m@),
                None => r.0@.phase == ThreadPhase::CheckReady && r.0@.id == self@.id && r.0@.agent
                    == self@.agent && (r.1 matches ThreadAction::CheckReady { agent }
                    && self@.agent == Some(agent@)),
            }),
            // A ready agent is prompted; a busy one is not, and its prompt
            // stays pending for the ticker to deliver later.
            self@.phase == ThreadPhase::CheckReady ==> (event matches ThreadEvent::Ready { ready }
                ==> if ready {
                r.0@.phase == ThreadPhase::Prompt && r.0@.id == self@.id && r.0@.agent
                    == self@.agent && (r.1 matches ThreadAction::Prompt { socket, pane, slug, id }
                    && self@.socket == Some(socket@) && pane@ == self@.pane && slug@ == self@.slug
                    && self@.id == Some(id@))
            } else {
                r.0@.phase == ThreadPhase::Done && (r.1 matches ThreadAction::Record {
                    id,
                    prompt_pending,
                    last_state,
                } && self@.id == Some(id@) && prompt_pending && (self@.agent matches Some(a)
                    && last_state@ == a.agent_status))
            }),
            // The thread is recorded open; its prompt is pending unless it was delivered.
            self@.phase == ThreadPhase::Prompt ==> (event matches ThreadEvent::Prompted {
                delivered,
            } ==> r.0@.phase == ThreadPhase::Done && (r.1 matches ThreadAction::Record {
                id,
                prompt_pending,
                last_state,
            } && self@.id == Some(id@) && prompt_pending == !delivered && (self@.agent matches Some(
                a,
            ) && last_state@ == a.agent_status))),
            // An event that does not belong to the phase changes nothing.
            !self@.expects(event) ==> (r.0@ == self@ && r.1 is Nothing),
    {
        proof {
            use_type_invariant(&self);
        }
        let ThreadAdoption {
            slug,
            pane,
            title,
            task,
            phase,
            socket,
            agent,
            repo,
            branch,
            id,
            project,
            checked,
            ready,
            origin,
            thread,
        } = self;
        let mut next = phase;
        let mut socket = socket;
        let mut agent = agent;
        let mut repo = repo;
        let mut branch = branch;
        let mut id = id;
        let mut project = project;
        let mut checked = checked;
        let mut ready = ready;
        let mut origin = origin;
        let mut recorded = thread;
        let action = match event {
            ThreadEvent::Loaded { status, coordinator_socket } => {
                if phase != ThreadPhase::LoadProject {
                    ThreadAction::Nothing
                } else {
                    let opened = coordinator_socket.is_some();
                    match adopt_precheck(slug.as_str(), status, title.as_str(), opened) {
                        Err(error) => {
                            next = ThreadPhase::Refused;
                            ThreadAction::Refuse { error }
                        },
                        Ok(()) => {
                            next = ThreadPhase::StartTicker;
                            socket = coordinator_socket;
                            project = Ghost((status, opened));
                            ThreadAction::StartTicker
                        },
                    }
                }
            },
            ThreadEvent::TickerStarted => {
                if phase != ThreadPhase::StartTicker {
                    ThreadAction::Nothing
                } else {
                    next = ThreadPhase::ListAgents;
                    ThreadAction::ListAgents { socket: unwrap_or_empty(&socket) }
                }
            },
            ThreadEvent::Listed { agents, projects } => {
                if phase != ThreadPhase::ListAgents {
                    ThreadAction::Nothing
                } else {
                    let s = unwrap_or_empty(&socket);
                    match adoptable_agent(&agents, s.as_str(), pane.as_str(), &projects) {
                        Err(error) => {
                            next = ThreadPhase::Refused;
                            ThreadAction::Refuse { error }
                        },
                        Ok(a) => {
                            let args = git_query_args(a.cwd.as_str(), GitQuery::TopLevel);
                            next = ThreadPhase::AskRepo;
                            agent = Some(a);
                            checked = Ghost((listing_view(agents), projects@));
                            ThreadAction::AskGit { args }
                        },
                    }
                }
            },
            ThreadEvent::GitAnswered { success, stdout } => {
                let answer = git_answer(success, stdout.as_str());
                if phase == ThreadPhase::AskRepo {
                    let args = match &agent {
                        Some(a) => git_query_args(a.cwd.as_str(), GitQuery::Branch),
                        None => Vec::new(),
                    };
                    next = ThreadPhase::AskBranch;
                    repo = answer;
                    ThreadAction::AskGit { args }
                } else if phase == ThreadPhase::AskBranch {
                    let args = match &agent {
                        Some(a) => git_query_args(a.cwd.as_str(), GitQuery::Origin),
                        None => Vec::new(),
                    };
                    next = ThreadPhase::AskOrigin;
                    branch = answer;
                    ThreadAction::AskGit { args }
                } else if phase == ThreadPhase::AskOrigin {
                    match &agent {
                        Some(a) => {
                            let ghost asked = opt_view(answer);
                            let thread = adopted_thread(
                                title.as_str(),
                                a,
                                opt_clone(&repo),
                                opt_clone(&branch),
                                answer,
                            );
                            origin = Ghost(asked);
                            recorded = Ghost(Some(thread));
                            next = ThreadPhase::Allocate;
                            ThreadAction::Allocate { thread }
                        },
                        None => ThreadAction::Nothing,
                    }
                } else {
                    ThreadAction::Nothing
                }
            },
            ThreadEvent::Allocated { id: allocated } => {
                if phase != ThreadPhase::Allocate {
                    ThreadAction::Nothing
                } else {
                    let cwd = match &agent {
                        Some(a) => a.cwd.clone(),
                        None => String::new(),
                    };
                    let i = allocated.clone();
                    id = Some(allocated);
                    next = ThreadPhase::Brief;
                    ThreadAction::Brief { id: i, cwd, task: adopt_task(opt_clone(&task)) }
                }
            },
            ThreadEvent::Briefed { failure } => {
                if phase != ThreadPhase::Brief {
                    ThreadAction::Nothing
                } else {
                    match failure {
                        Some(message) => {
                            next = ThreadPhase::Failed;
                            ThreadAction::MarkFailed { id: unwrap_or_empty(&id), message }
                        },
                        None => match &agent {
                            Some(a) => {
                                next = ThreadPhase::CheckReady;
                                ThreadAction::CheckReady { agent: a.clone() }
                            },
                            None => ThreadAction::Nothing,
                        },
                    }
                }
            },
            ThreadEvent::Ready { ready: is_ready } => {
                if phase != ThreadPhase::CheckReady {
                    ThreadAction::Nothing
                } else if is_ready {
                    next = ThreadPhase::Prompt;
                    ready = Ghost(true);
                    ThreadAction::Prompt {
                        socket: unwrap_or_empty(&socket),
                        pane: pane.clone(),
                        slug: slug.clone(),
                        id: unwrap_or_empty(&id),
                    }
                } else {
                    let last_state = match &agent {
                        Some(a) => a.agent_status.clone(),
                        None => String::new(),
                    };
                    next = ThreadPhase::Done;
                    ThreadAction::Record {
                        id: unwrap_or_empty(&id),
                        prompt_pending: prompt_pending(false, false),
                        last_state,
                    }
                }
            },
            ThreadEvent::Prompted { delivered } => {
                if phase != ThreadPhase::Prompt {
                    ThreadAction::Nothing
                } else {
                    let last_state = match &agent {
                        Some(a) => a.agent_status.clone(),
                        None => String::new(),
                    };
                    next = ThreadPhase::Done;
                    ThreadAction::Record {
                        id: unwrap_or_empty(&id),
                        prompt_pending: prompt_pending(true, delivered),
                        last_state,
                    }
                }
            },
        };
        (
            ThreadAdoption {
                slug,
                pane,
                title,
                task,
                phase: next,
                socket,
                agent,
                repo,
                branch,
                id,
                project,
                checked,
                ready,
                origin,
                thread: recorded,
            },
            action,
        )
    }
}

/// Nothing is allocated before every refusal has had its chance: an adoption
/// that reached the allocation of the thread (or anything after it) found the
/// project active, the title not blank, the project opened, and the pane
/// adoptable in the session of the project's coordinator. Every adoption keeps
/// `wf` (see [`ThreadAdoption::phase`]).
pub proof fn law_allocated_only_after_checks(s: ThreadAdoptionView)
    requires
        s.wf(),
        s.phase == ThreadPhase::Allocate || s.allocated(),
    ensures
        s.project.0 == ProjectStatus::Active,
        !crate::text::is_blank(s.title),
        s.project.1,
        s.socket matches Some(sock) && adoptable(s.checked.0, sock, s.pane, s.checked.1) is Ok,
{
    crate::text::lemma_blank_iff_trim_empty(s.title);
}

/// What a finished adoption recorded: the thread allocated is the record of
/// the first agent herdr lists in the pane (which passed the adoption check in
/// the session of the project's coordinator), under the trimmed title, with
/// git's answers about the agent's directory. (The record action then gives
/// the agent's state as the thread's last state; see [`ThreadAdoption::step`].)
pub proof fn law_adopted_thread_record(s: ThreadAdoptionView)
    requires
        s.wf(),
        s.phase == ThreadPhase::Done,
    ensures
        s.id is Some,
        s.socket is Some,
        s.agent matches Some(a) && adoptable(s.checked.0, s.socket->0, s.pane, s.checked.1) == Ok::<
            AgentView,
            ErrorView,
        >(a),
        s.agent matches Some(a) && (s.checked.0 matches Ok(list) && (agent_in_pane(list, s.pane) matches Some(
            k,
        ) && 0 <= k < list.len() && list[k] == a && (forall|j: int|
            0 <= j < k ==> #[trigger] list[j].pane_id != s.pane))),
        s.agent matches Some(a) && (s.thread matches Some(t) && is_adopted_thread(
            t,
            s.title,
            a,
            s.repo,
            s.branch,
            s.origin,
        ) && t.pane_id@ == s.pane && t.title@ == crate::text::trim(s.title) && t.agent@ == a.agent
            && t.agent_name@ == a.name),
{
    crate::adopt::lemma_adoptable_is_first_in_pane(s.checked.0, s.socket->0, s.pane, s.checked.1);
}

/// The launch prompt is sent only to an agent found ready, and only for an
/// allocated thread.
pub proof fn law_prompted_only_when_ready(s: ThreadAdoptionView)
    requires
        s.wf(),
        s.phase == ThreadPhase::Prompt,
    ensures
        s.ready,
        s.id is Some,
        s.agent is Some,
{
}

} // verus!
