//! "Continue this workspace as a project" as a sequence of decisions: the
//! caller performs each action (talking to herdr, to git, to the file system)
//! and hands back what came of it. Every refusal comes before the project is
//! created, under the same conditions as adopting a pane into an existing
//! project.

use vstd::prelude::*;

use crate::adopt::{
    adoptable, adoptable_agent, agent_opt_view, create_options, git_answer, git_answer_spec, kind_option,
    listing_view, open_options, opt_view, project_dir, refuse_taken_slug, workspace_repos, Agent,
    AgentView, AdoptWorkspace, CreateOptions, OpenOptions, ProjectRecord, Repo,
};
use crate::error::{ErrorView, ProjectsError};

verus! {

/// Where a workspace adoption stands.
#[derive(PartialEq, Eq, Structural, Clone, Copy, Debug)]
pub enum WorkspacePhase {
    /// Waiting for the session's agents and the projects.
    ListAgents,
    /// Waiting for the slug of the project name.
    NameProject,
    /// Waiting to learn whether the slug is taken.
    CheckSlug,
    /// Waiting for git's answer about the directory's repository.
    FindRepo,
    /// Waiting for the project to be created.
    Create,
    /// Waiting for the project's coordinator to be opened.
    Open,
    /// The pane is to be adopted into the new project; nothing is left to decide.
    Done,
    /// Refused; nothing was created.
    Refused,
}

/// A workspace adoption in progress. Only [`WorkspaceAdoption::start`] and
/// [`WorkspaceAdoption::step`] make one, so every adoption keeps
/// [`WorkspaceAdoptionView::wf`].
pub struct WorkspaceAdoption {
    name: String,
    goal: String,
    pane: String,
    workspace_cwd: String,
    socket: String,
    root: String,
    phase: WorkspacePhase,
    agent: Option<Agent>,
    slug: Option<String>,
    checked: Ghost<(Result<Seq<AgentView>, Seq<char>>, Seq<ProjectRecord>)>,
    slug_free: Ghost<bool>,
}

/// A workspace adoption as the contracts speak of it.
pub struct WorkspaceAdoptionView {
    pub name: Seq<char>,
    pub goal: Seq<char>,
    /// The pane to adopt.
    pub pane: Seq<char>,
    /// The workspace's directory as herdr reported it, possibly empty.
    pub workspace_cwd: Seq<char>,
    /// The socket of the session the request resolved to.
    pub socket: Seq<char>,
    /// The directory projects live in.
    pub root: Seq<char>,
    pub phase: WorkspacePhase,
    /// The agent in the pane, once the pane passed the adoption check.
    pub agent: Option<AgentView>,
    pub slug: Option<Seq<char>>,
    /// The agent listing and the projects the pane was checked against.
    pub checked: (Result<Seq<AgentView>, Seq<char>>, Seq<ProjectRecord>),
    /// Whether the slug was found free.
    pub slug_free: bool,
}

impl View for WorkspaceAdoption {
    type V = WorkspaceAdoptionView;

    closed spec fn view(&self) -> WorkspaceAdoptionView {
        WorkspaceAdoptionView {
            name: self.name@,
            goal: self.goal@,
            pane: self.pane@,
            workspace_cwd: self.workspace_cwd@,
            socket: self.socket@,
            root: self.root@,
            phase: self.phase,
            agent: agent_opt_view(self.agent),
            slug: opt_view(self.slug),
            checked: self.checked@,
            slug_free: self.slug_free@,
        }
    }
}

impl WorkspaceAdoptionView {
    /// The adoption check passed on the listing recorded.
    pub open spec fn pane_passed(self) -> bool {
        &&& self.agent matches Some(a)
        &&& adoptable(self.checked.0, self.socket, self.pane, self.checked.1) == Ok::<
            AgentView,
            ErrorView,
        >(a)
    }

    /// The phases reached only once the pane passed the adoption check.
    pub open spec fn past_pane_check(self) -> bool {
        ||| self.phase == WorkspacePhase::NameProject
        ||| self.phase == WorkspacePhase::CheckSlug
        ||| self.phase == WorkspacePhase::FindRepo
        ||| self.phase == WorkspacePhase::Create
        ||| self.phase == WorkspacePhase::Open
        ||| self.phase == WorkspacePhase::Done
    }

    /// The phases reached only once the slug was found free.
    pub open spec fn past_slug_check(self) -> bool {
        ||| self.phase == WorkspacePhase::FindRepo
        ||| self.phase == WorkspacePhase::Create
        ||| self.phase == WorkspacePhase::Open
        ||| self.phase == WorkspacePhase::Done
    }

    /// What every adoption keeps: the later phases are reached only through
    /// the earlier ones' checks.
    pub open spec fn wf(self) -> bool {
        &&& self.past_pane_check() ==> self.pane_passed()
        &&& (self.past_pane_check() && self.phase != WorkspacePhase::NameProject) ==> self.slug is Some
        &&& self.past_slug_check() ==> self.slug_free
    }

    /// The same request, socket and root.
    pub open spec fn same_request(self, other: Self) -> bool {
        &&& self.name == other.name
        &&& self.goal == other.goal
        &&& self.pane == other.pane
        &&& self.workspace_cwd == other.workspace_cwd
        &&& self.socket == other.socket
        &&& self.root == other.root
    }
}

/// What came of the last action.
#[derive(Debug)]
pub enum WorkspaceEvent {
    /// herdr's agent listing of the session (or the text of its error), and
    /// the projects that could be loaded, in slug order.
    Listed { agents: Result<Vec<Agent>, String>, projects: Vec<ProjectRecord> },
    /// The slug of the project name.
    Named { slug: String },
    /// Whether a project directory with the slug exists.
    SlugTaken { taken: bool },
    /// What `git rev-parse --show-toplevel` in the directory gave.
    RepoFound { success: bool, stdout: String },
    /// The project was created under `slug`.
    Created { slug: String },
    /// The project's coordinator was opened.
    Opened,
}

/// What to do next.
#[derive(Debug)]
pub enum WorkspaceAction {
    /// List the agents of the session at `socket` and load the projects.
    ListAgents { socket: String },
    /// Turn the project name into a slug.
    NameProject { name: String },
    /// Find out whether a project with this slug exists.
    CheckSlug { slug: String },
    /// Ask git which repository `dir` belongs to.
    FindRepo { dir: String },
    /// Create the project.
    Create { name: String, goal: String, repos: Vec<Repo>, options: CreateOptions },
    /// Open the coordinator of the project `slug`.
    Open { slug: String, options: OpenOptions },
    /// Adopt `pane` into the project `slug` as a thread titled `title`.
    AdoptPane { slug: String, pane: String, title: String },
    Refuse { error: ProjectsError },
    /// The event does not belong to this phase: nothing to do.
    Nothing,
}

impl WorkspaceAdoption {
    #[verifier::type_invariant]
    closed spec fn inv(self) -> bool {
        self@.wf()
    }

    /// Where the adoption stands. Every adoption keeps `wf`.
    pub fn phase(&self) -> (p: WorkspacePhase)
        ensures
            p == self@.phase,
            self@.wf(),
    {
        proof {
            use_type_invariant(self);
        }
        self.phase
    }

    /// Starts continuing a workspace as a project; `socket` is the socket of
    /// the session the request names.
    pub fn start(request: AdoptWorkspace, socket: String, root: String) -> (r: (
        Self,
        WorkspaceAction,
    ))
        ensures
            r.0@.wf(),
            r.0@.phase == WorkspacePhase::ListAgents,
            r.0@.name == request.name@,
            r.0@.goal == request.goal@,
            r.0@.pane == request.pane@,
            r.0@.workspace_cwd == request.workspace_cwd@,
            r.0@.socket == socket@,
            r.0@.root == root@,
            r.1 matches WorkspaceAction::ListAgents { socket: s } && s@ == socket@,
    {
        let s = socket.clone();
        (
            WorkspaceAdoption {
                name: request.name,
                goal: request.goal,
                pane: request.pane,
                workspace_cwd: request.workspace_cwd,
                socket,
                root,
                phase: WorkspacePhase::ListAgents,
                agent: None,
                slug: None,
                checked: Ghost((Err(Seq::empty()), Seq::empty())),
                slug_free: Ghost(false),
            },
            WorkspaceAction::ListAgents { socket: s },
        )
    }

    /// The next decision, from what came of the last action.
    pub fn step(self, event: WorkspaceEvent) -> (r: (Self, WorkspaceAction))
        ensures
            r.0@.wf(),
            r.0@.same_request(self@),
            // The pane is checked first; a refusal ends the adoption.
            self@.phase == WorkspacePhase::ListAgents ==> (event matches WorkspaceEvent::Listed {
                agents,
                projects,
            } ==> match adoptable(listing_view(agents), self@.socket, self@.pane, projects@) {
                Err(e) => r.0@.phase == WorkspacePhase::Refused && (r.1 matches WorkspaceAction::Refuse {
                    error,
                } && error@ == e),
                Ok(a) => r.0@.phase == WorkspacePhase::NameProject && r.0@.agent == Some(a) && (
                r.1 matches WorkspaceAction::NameProject { name } && name@ == self@.name),
            }),
            // Then the name is turned into a slug.
            self@.phase == WorkspacePhase::NameProject ==> (event matches WorkspaceEvent::Named {
                slug,
            } ==> r.0@.phase == WorkspacePhase::CheckSlug && r.0@.slug == Some(slug@) && r.0@.agent
                == self@.agent && (r.1 matches WorkspaceAction::CheckSlug { slug: s } && s@
                == slug@)),
            // A taken slug is refused; otherwise the directory's repository is looked up.
            self@.phase == WorkspacePhase::CheckSlug ==> (event matches WorkspaceEvent::SlugTaken {
                taken,
            } ==> if taken {
                r.0@.phase == WorkspacePhase::Refused && (r.1 matches WorkspaceAction::Refuse {
                    error,
                } && (self@.slug matches Some(slug) && error@ == (ErrorView::AlreadyExists {
                    slug: slug,
                    root: self@.root,
                })))
            } else {
                r.0@.phase == WorkspacePhase::FindRepo && r.0@.agent == self@.agent && r.0@.slug
                    == self@.slug && (r.1 matches WorkspaceAction::FindRepo { dir }
                    && (self@.agent matches Some(a) && dir@ == (if self@.workspace_cwd.len() == 0 {
                    a.cwd
                } else {
                    self@.workspace_cwd
                })))
            }),
            // Then the project is created with what was found.
            self@.phase == WorkspacePhase::FindRepo ==> (event matches WorkspaceEvent::RepoFound {
                success,
                stdout,
            } ==> r.0@.phase == WorkspacePhase::Create && r.0@.agent == self@.agent && r.0@.slug
                == self@.slug && (r.1 matches WorkspaceAction::Create { name, goal, repos, options }
                && name@ == self@.name && goal@ == self@.goal && (match git_answer_spec(
                success,
                stdout@,
            ) {
                Some(p) => repos@.len() == 1 && repos@[0].path@ == p && repos@[0].machine is None,
                None => repos@.len() == 0,
            }) && (self@.agent matches Some(a) && opt_view(options.coordinator_agent)
                == kind_option(a.agent) && opt_view(options.thread_agent) == kind_option(
                a.agent,
            )))),
            // Its coordinator is opened in the session of the request.
            self@.phase == WorkspacePhase::Create ==> (event matches WorkspaceEvent::Created {
                slug,
            } ==> r.0@.phase == WorkspacePhase::Open && r.0@.slug == Some(slug@) && (r.1 matches WorkspaceAction::Open {
                slug: s,
                options,
            } && s@ == slug@ && options.session.session is None && opt_view(options.session.socket)
                == Some(self@.socket) && !options.reprime && !options.rebind)),
            // Last, the pane is adopted into it, under the project's name.
            self@.phase == WorkspacePhase::Open ==> (event is Opened ==> r.0@.phase
                == WorkspacePhase::Done && (r.1 matches WorkspaceAction::AdoptPane {
                slug: s,
                pane,
                title,
            } && Some(s@) == self@.slug && pane@ == self@.pane && title@ == self@.name)),
            // An event that does not belong to the phase changes nothing.
            !((self@.phase == WorkspacePhase::ListAgents && event is Listed) || (self@.phase
                == WorkspacePhase::NameProject && event is Named) || (self@.phase
                == WorkspacePhase::CheckSlug && event is SlugTaken) || (self@.phase
                == WorkspacePhase::FindRepo && event is RepoFound) || (self@.phase
                == WorkspacePhase::Create && event is Created) || (self@.phase
                == WorkspacePhase::Open && event is Opened)) ==> (r.0@ == self@ && r.1 is Nothing),
    {
        proof {
            use_type_invariant(&self);
        }
        let WorkspaceAdoption {
            name,
            goal,
            pane,
            workspace_cwd,
            socket,
            root,
            phase,
            agent,
            slug,
            checked,
            slug_free,
        } = self;
        let mut next = phase;
        let mut agent = agent;
        let mut slug = slug;
        let mut checked = checked;
        let mut slug_free = slug_free;
        let action = match event {
            WorkspaceEvent::Listed { agents, projects } => {
                if phase != WorkspacePhase::ListAgents {
                    WorkspaceAction::Nothing
                } else {
                    match adoptable_agent(&agents, socket.as_str(), pane.as_str(), &projects) {
                        Err(error) => {
                            next = WorkspacePhase::Refused;
                            WorkspaceAction::Refuse { error }
                        },
                        Ok(a) => {
                            next = WorkspacePhase::NameProject;
                            agent = Some(a);
                            checked = Ghost((listing_view(agents), projects@));
                            WorkspaceAction::NameProject { name: name.clone() }
                        },
                    }
                }
            },
            WorkspaceEvent::Named { slug: named } => {
                if phase != WorkspacePhase::NameProject {
                    WorkspaceAction::Nothing
                } else {
                    next = WorkspacePhase::CheckSlug;
                    let t = named.clone();
                    slug = Some(named);
                    WorkspaceAction::CheckSlug { slug: t }
                }
            },
            WorkspaceEvent::SlugTaken { taken } => {
                if phase != WorkspacePhase::CheckSlug {
                    WorkspaceAction::Nothing
                } else {
                    let s = match &slug {
                        Some(x) => x.clone(),
                        None => String::new(),
                    };
                    match refuse_taken_slug(s.as_str(), root.as_str(), taken) {
                        Err(error) => {
                            next = WorkspacePhase::Refused;
                            WorkspaceAction::Refuse { error }
                        },
                        Ok(()) => {
                            let dir = match &agent {
                                Some(a) => project_dir(workspace_cwd.as_str(), a),
                                None => String::new(),
                            };
                            next = WorkspacePhase::FindRepo;
                            slug_free = Ghost(true);
                            WorkspaceAction::FindRepo { dir }
                        },
                    }
                }
            },
            WorkspaceEvent::RepoFound { success, stdout } => {
                if phase != WorkspacePhase::FindRepo {
                    WorkspaceAction::Nothing
                } else {
                    let repos = workspace_repos(git_answer(success, stdout.as_str()));
                    let options = match &agent {
                        Some(a) => create_options(a.agent.as_str()),
                        None => CreateOptions { coordinator_agent: None, thread_agent: None },
                    };
                    next = WorkspacePhase::Create;
                    WorkspaceAction::Create { name: name.clone(), goal: goal.clone(), repos, options }
                }
            },
            WorkspaceEvent::Created { slug: created } => {
                if phase != WorkspacePhase::Create {
                    WorkspaceAction::Nothing
                } else {
                    next = WorkspacePhase::Open;
                    let t = created.clone();
                    slug = Some(created);
                    WorkspaceAction::Open { slug: t, options: open_options(socket.clone()) }
                }
            },
            WorkspaceEvent::Opened => {
                if phase != WorkspacePhase::Open {
                    WorkspaceAction::Nothing
                } else {
                    next = WorkspacePhase::Done;
                    let s = match &slug {
                        Some(x) => x.clone(),
                        None => String::new(),
                    };
                    WorkspaceAction::AdoptPane { slug: s, pane: pane.clone(), title: name.clone() }
                }
            },
        };
        (
            WorkspaceAdoption {
                name,
                goal,
                pane,
                workspace_cwd,
                socket,
                root,
                phase: next,
                agent,
                slug,
                checked,
                slug_free,
            },
            action,
        )
    }
}

/// Nothing is created for a pane that may not be adopted, nor under a slug
/// that is taken: an adoption that reached the creation of the project (or
/// anything after it) found the pane adoptable, by the same check as adopting
/// it into an existing project, and found the slug free. Every adoption keeps
/// `wf` (see [`WorkspaceAdoption::phase`]).
pub proof fn law_created_only_after_checks(s: WorkspaceAdoptionView)
    requires
        s.wf(),
        s.phase == WorkspacePhase::Create || s.phase == WorkspacePhase::Open || s.phase
            == WorkspacePhase::Done,
    ensures
        s.agent is Some,
        adoptable(s.checked.0, s.socket, s.pane, s.checked.1) is Ok,
        s.slug is Some,
        s.slug_free,
{
}

} // verus!
