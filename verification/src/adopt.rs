//! Adopting an already-running local agent pane into a project: when a pane
//! may be adopted, and what the adopted thread records.

use vstd::prelude::*;

use crate::error::{ErrorView, ProjectStatus, ProjectsError};
use crate::text::{blank, str_eq, trim, trimmed};

verus! {

/// An agent that herdr detects in a pane.
#[derive(Debug)]
pub struct Agent {
    pub workspace_id: String,
    pub tab_id: String,
    pub pane_id: String,
    pub cwd: String,
    /// The agent kind, such as `omp`; possibly empty.
    pub agent: String,
    /// The name herdr reports for the agent; possibly empty.
    pub name: String,
    /// herdr's state of the agent, such as `idle` or `working`.
    pub agent_status: String,
}

pub struct AgentView {
    pub workspace_id: Seq<char>,
    pub tab_id: Seq<char>,
    pub pane_id: Seq<char>,
    pub cwd: Seq<char>,
    pub agent: Seq<char>,
    pub name: Seq<char>,
    pub agent_status: Seq<char>,
}

impl View for Agent {
    type V = AgentView;

    open spec fn view(&self) -> AgentView {
        AgentView {
            workspace_id: self.workspace_id@,
            tab_id: self.tab_id@,
            pane_id: self.pane_id@,
            cwd: self.cwd@,
            agent: self.agent@,
            name: self.name@,
            agent_status: self.agent_status@,
        }
    }
}

impl Clone for Agent {
    fn clone(&self) -> (r: Self)
        ensures
            r@ == self@,
    {
        Agent {
            workspace_id: self.workspace_id.clone(),
            tab_id: self.tab_id.clone(),
            pane_id: self.pane_id.clone(),
            cwd: self.cwd.clone(),
            agent: self.agent.clone(),
            name: self.name.clone(),
            agent_status: self.agent_status.clone(),
        }
    }
}

/// The pane a project's coordinator was started in.
#[derive(Clone, Debug)]
pub struct CoordinatorRecord {
    /// The socket of the herdr session the coordinator runs in.
    pub socket: String,
    pub pane_id: String,
    /// Whether the agent recorded for the coordinator is the agent now
    /// detected in the pane asked about.
    pub agent_matches: bool,
}

/// A thread of a project, as far as adoption looks at it.
#[derive(Clone, Debug)]
pub struct ThreadRecord {
    pub id: String,
    pub pane_id: String,
    /// The thread runs on another machine.
    pub remote: bool,
    /// The thread has been resolved.
    pub resolved: bool,
    /// Whether the agent recorded for the thread is the agent now detected in
    /// the pane asked about.
    pub agent_matches: bool,
}

/// A project that could be loaded, with what adoption looks at.
#[derive(Clone, Debug)]
pub struct ProjectRecord {
    pub slug: String,
    /// `None` for a project that has never been opened.
    pub coordinator: Option<CoordinatorRecord>,
    pub threads: Vec<ThreadRecord>,
}

/// The first index from `i` on of an agent in `pane`.
pub open spec fn agent_index_from(agents: Seq<AgentView>, pane: Seq<char>, i: int) -> Option<int>
    decreases agents.len() - i,
{
    if 0 <= i < agents.len() {
        if agents[i].pane_id == pane {
            Some(i)
        } else {
            agent_index_from(agents, pane, i + 1)
        }
    } else {
        None
    }
}

/// The index of the first agent that herdr lists in `pane`, if any.
pub open spec fn agent_in_pane(agents: Seq<AgentView>, pane: Seq<char>) -> Option<int> {
    agent_index_from(agents, pane, 0)
}

/// A live local thread of the agent now in `pane` holds that pane.
pub open spec fn thread_holds_pane(t: ThreadRecord, pane: Seq<char>) -> bool {
    &&& !t.remote
    &&& !t.resolved
    &&& t.pane_id@ == pane
    &&& t.agent_matches
}

/// The first index from `j` on of a thread that holds `pane`.
pub open spec fn holding_thread_from(threads: Seq<ThreadRecord>, pane: Seq<char>, j: int) -> Option<
    int,
>
    decreases threads.len() - j,
{
    if 0 <= j < threads.len() {
        if thread_holds_pane(threads[j], pane) {
            Some(j)
        } else {
            holding_thread_from(threads, pane, j + 1)
        }
    } else {
        None
    }
}

/// The project's coordinator runs in the session at `socket`. Pane ids are
/// compared within one session only: the same id in another session is
/// another pane.
pub open spec fn in_session(p: ProjectRecord, socket: Seq<char>) -> bool {
    p.coordinator matches Some(rec) && rec.socket@ == socket
}

/// Why project `p` forbids adopting `pane` of the session at `socket`, if it
/// does: the pane is its coordinator, or the first of its live local threads
/// that the pane already is.
pub open spec fn project_refusal(p: ProjectRecord, socket: Seq<char>, pane: Seq<char>) -> Option<
    ErrorView,
> {
    match p.coordinator {
        None => None,
        Some(rec) => if rec.socket@ != socket {
            None
        } else if rec.pane_id@ == pane && rec.agent_matches {
            Some(ErrorView::IsCoordinator { pane: pane, slug: p.slug@ })
        } else {
            match holding_thread_from(p.threads@, pane, 0) {
                Some(j) => Some(
                    ErrorView::AlreadyThread {
                        pane: pane,
                        thread: p.threads@[j].id@,
                        slug: p.slug@,
                    },
                ),
                None => None,
            }
        },
    }
}

/// The refusal of the first project from index `i` on that refuses.
pub open spec fn refusal_from(
    projects: Seq<ProjectRecord>,
    socket: Seq<char>,
    pane: Seq<char>,
    i: int,
) -> Option<ErrorView>
    decreases projects.len() - i,
{
    if 0 <= i < projects.len() {
        match project_refusal(projects[i], socket, pane) {
            Some(e) => Some(e),
            None => refusal_from(projects, socket, pane, i + 1),
        }
    } else {
        None
    }
}

/// The refusal of the first project, in the order given, that refuses.
pub open spec fn adoption_refusal(
    projects: Seq<ProjectRecord>,
    socket: Seq<char>,
    pane: Seq<char>,
) -> Option<ErrorView> {
    refusal_from(projects, socket, pane, 0)
}

/// What checking `pane` of the session at `socket` for adoption gives: the
/// agent in the pane, or the refusal.
pub open spec fn adoptable(
    agents: Result<Seq<AgentView>, Seq<char>>,
    socket: Seq<char>,
    pane: Seq<char>,
    projects: Seq<ProjectRecord>,
) -> Result<AgentView, ErrorView> {
    match agents {
        Err(detail) => Err(ErrorView::Unreachable { socket: socket, detail: detail }),
        Ok(list) => match agent_in_pane(list, pane) {
            None => Err(ErrorView::NoAgent { pane: pane, socket: socket }),
            Some(i) => match adoption_refusal(projects, socket, pane) {
                Some(e) => Err(e),
                None => Ok(list[i]),
            },
        },
    }
}

pub open spec fn agents_view(agents: Seq<Agent>) -> Seq<AgentView> {
    agents.map_values(|a: Agent| a@)
}

pub open spec fn listing_view(agents: Result<Vec<Agent>, String>) -> Result<
    Seq<AgentView>,
    Seq<char>,
> {
    match agents {
        Ok(list) => Ok(agents_view(list@)),
        Err(detail) => Err(detail@),
    }
}

pub open spec fn result_view<T: View>(r: Result<T, ProjectsError>) -> Result<T::V, ErrorView> {
    match r {
        Ok(t) => Ok(t@),
        Err(e) => Err(e@),
    }
}

/// The index of the first agent in `pane`.
fn find_agent(agents: &Vec<Agent>, pane: &str) -> (r: Option<usize>)
    ensures
        match r {
            Some(i) => i < agents.len() && agent_in_pane(agents_view(agents@), pane@) == Some(
                i as int,
            ),
            None => agent_in_pane(agents_view(agents@), pane@) is None,
        },
{
    let ghost v = agents_view(agents@);
    let mut i: usize = 0;
    while i < agents.len()
        invariant
            v == agents_view(agents@),
            i <= agents.len(),
            agent_in_pane(v, pane@) == agent_index_from(v, pane@, i as int),
        decreases agents.len() - i,
    {
        assert(v[i as int] == agents@[i as int]@);
        if str_eq(agents[i].pane_id.as_str(), pane) {
            return Some(i);
        }
        i = i + 1;
    }
    None
}

/// The index of the first thread that holds `pane`.
fn find_holding_thread(threads: &Vec<ThreadRecord>, pane: &str) -> (r: Option<usize>)
    ensures
        match r {
            Some(j) => j < threads.len() && holding_thread_from(threads@, pane@, 0) == Some(
                j as int,
            ),
            None => holding_thread_from(threads@, pane@, 0) is None,
        },
{
    let mut j: usize = 0;
    while j < threads.len()
        invariant
            j <= threads.len(),
            holding_thread_from(threads@, pane@, 0) == holding_thread_from(
                threads@,
                pane@,
                j as int,
            ),
        decreases threads.len() - j,
    {
        let t = &threads[j];
        if !t.remote && !t.resolved && t.agent_matches && str_eq(t.pane_id.as_str(), pane) {
            return Some(j);
        }
        j = j + 1;
    }
    None
}

/// Why `project` forbids adopting `pane` of the session at `socket`, if it does.
fn refusal_of_project(project: &ProjectRecord, socket: &str, pane: &str) -> (r: Option<
    ProjectsError,
>)
    ensures
        match r {
            Some(e) => project_refusal(*project, socket@, pane@) == Some(e@),
            None => project_refusal(*project, socket@, pane@) is None,
        },
{
    match &project.coordinator {
        None => None,
        Some(rec) => {
            if !str_eq(rec.socket.as_str(), socket) {
                return None;
            }
            if rec.agent_matches && str_eq(rec.pane_id.as_str(), pane) {
                return Some(
                    ProjectsError::IsCoordinator {
                        pane: String::from_str(pane),
                        slug: project.slug.clone(),
                    },
                );
            }
            match find_holding_thread(&project.threads, pane) {
                Some(j) => Some(
                    ProjectsError::AlreadyThread {
                        pane: String::from_str(pane),
                        thread: project.threads[j].id.clone(),
                        slug: project.slug.clone(),
                    },
                ),
                None => None,
            }
        },
    }
}

/// The refusals shared by `thread adopt` and `adopt-workspace`, checked before
/// anything is created. `agents` is herdr's agent listing of the session at
/// `socket` (or the text of the error that getting it gave); `projects` are
/// the projects that could be loaded, in slug order. Returns the agent herdr
/// detects in `pane`.
pub fn adoptable_agent(
    agents: &Result<Vec<Agent>, String>,
    socket: &str,
    pane: &str,
    projects: &Vec<ProjectRecord>,
) -> (r: Result<Agent, ProjectsError>)
    ensures
        result_view(r) == adoptable(listing_view(*agents), socket@, pane@, projects@),
        r matches Ok(a) ==> a.pane_id@ == pane@,
{
    let list = match agents {
        Err(detail) => {
            return Err(
                ProjectsError::Unreachable { socket: String::from_str(socket), detail: detail.clone() },
            );
        },
        Ok(list) => list,
    };
    let ghost v = agents_view(list@);
    let idx = match find_agent(list, pane) {
        None => {
            return Err(
                ProjectsError::NoAgent { pane: String::from_str(pane), socket: String::from_str(socket) },
            );
        },
        Some(i) => i,
    };
    proof {
        assert(v[idx as int] == list@[idx as int]@);
        lemma_agent_index_found(v, pane@, 0);
    }
    let mut i: usize = 0;
    while i < projects.len()
        invariant
            i <= projects.len(),
            listing_view(*agents) == Ok::<Seq<AgentView>, Seq<char>>(v),
            agent_in_pane(v, pane@) == Some(idx as int),
            adoption_refusal(projects@, socket@, pane@) == refusal_from(
                projects@,
                socket@,
                pane@,
                i as int,
            ),
        decreases projects.len() - i,
    {
        match refusal_of_project(&projects[i], socket, pane) {
            Some(e) => {
                assert(refusal_from(projects@, socket@, pane@, i as int) == Some(e@));
                return Err(e);
            },
            None => {},
        }
        i = i + 1;
    }
    Ok(list[idx].clone())
}

/// An index found from `i` on holds an agent in `pane`.
proof fn lemma_agent_index_found(agents: Seq<AgentView>, pane: Seq<char>, i: int)
    ensures
        agent_index_from(agents, pane, i) matches Some(k) ==> (0 <= k < agents.len()
            && agents[k].pane_id == pane),
    decreases agents.len() - i,
{
    if 0 <= i < agents.len() && agents[i].pane_id != pane {
        lemma_agent_index_found(agents, pane, i + 1);
    }
}

/// An index found from `i` on is the first from `i` on with an agent in `pane`.
proof fn lemma_agent_index_first(agents: Seq<AgentView>, pane: Seq<char>, i: int)
    requires
        0 <= i,
    ensures
        agent_index_from(agents, pane, i) matches Some(k) ==> (i <= k && forall|j: int|
            i <= j < k ==> #[trigger] agents[j].pane_id != pane),
    decreases agents.len() - i,
{
    if 0 <= i < agents.len() && agents[i].pane_id != pane {
        lemma_agent_index_first(agents, pane, i + 1);
    }
}

/// The agent that passes the adoption check is the first one herdr lists in
/// the pane.
pub proof fn lemma_adoptable_is_first_in_pane(
    agents: Result<Seq<AgentView>, Seq<char>>,
    socket: Seq<char>,
    pane: Seq<char>,
    projects: Seq<ProjectRecord>,
)
    ensures
        adoptable(agents, socket, pane, projects) matches Ok(a) ==> (agents matches Ok(list)
            && (agent_in_pane(list, pane) matches Some(k) && 0 <= k < list.len() && list[k] == a
            && a.pane_id == pane && forall|j: int| 0 <= j < k ==> #[trigger] list[j].pane_id != pane)),
{
    if let Ok(list) = agents {
        lemma_agent_index_found(list, pane, 0);
        lemma_agent_index_first(list, pane, 0);
    }
}

/// Projects from index `k` on of `x + y`, for `k` past `x`, refuse as `y`
/// does from `k - x.len()` on.
proof fn lemma_refusal_from_shift(
    x: Seq<ProjectRecord>,
    y: Seq<ProjectRecord>,
    socket: Seq<char>,
    pane: Seq<char>,
    k: int,
)
    requires
        0 <= k <= y.len(),
    ensures
        refusal_from(x + y, socket, pane, x.len() + k) == refusal_from(y, socket, pane, k),
    decreases y.len() - k,
{
    if k < y.len() {
        assert((x + y)[x.len() + k] == y[k]);
        lemma_refusal_from_shift(x, y, socket, pane, k + 1);
    }
}

/// The projects of `x + y` refuse as `x` does, and as `y` does where `x`
/// does not refuse.
proof fn lemma_refusal_concat(
    x: Seq<ProjectRecord>,
    y: Seq<ProjectRecord>,
    socket: Seq<char>,
    pane: Seq<char>,
    i: int,
)
    requires
        0 <= i <= x.len(),
    ensures
        refusal_from(x + y, socket, pane, i) == match refusal_from(x, socket, pane, i) {
            Some(e) => Some(e),
            None => refusal_from(y, socket, pane, 0),
        },
    decreases x.len() - i,
{
    if i < x.len() {
        assert((x + y)[i] == x[i]);
        lemma_refusal_concat(x, y, socket, pane, i + 1);
    } else {
        lemma_refusal_from_shift(x, y, socket, pane, 0);
    }
}

/// From `j` on, no thread holds the pane when none of them is a live local
/// thread of the agent in it.
proof fn lemma_no_holding_thread(threads: Seq<ThreadRecord>, pane: Seq<char>, j: int)
    requires
        0 <= j,
        forall|t: int| 0 <= t < threads.len() ==> !(!(#[trigger] threads[t]).remote
            && !threads[t].resolved && threads[t].pane_id@ == pane && threads[t].agent_matches),
    ensures
        holding_thread_from(threads, pane, j) is None,
    decreases threads.len() - j,
{
    if j < threads.len() {
        lemma_no_holding_thread(threads, pane, j + 1);
    }
}

/// From `i` on, no project refuses when none in the session has its
/// coordinator recorded in the pane with the agent now there, nor a live local
/// thread of that agent in the pane.
proof fn lemma_no_refusal(projects: Seq<ProjectRecord>, socket: Seq<char>, pane: Seq<char>, i: int)
    requires
        0 <= i,
        forall|p: int|
            0 <= p < projects.len() && (#[trigger] projects[p]).coordinator is Some
                && projects[p].coordinator->0.socket@ == socket ==> !(
            projects[p].coordinator->0.pane_id@ == pane && projects[p].coordinator->0.agent_matches)
                && forall|t: int| 0 <= t < projects[p].threads@.len() ==> !(
            !(#[trigger] projects[p].threads@[t]).remote && !projects[p].threads@[t].resolved
                && projects[p].threads@[t].pane_id@ == pane
                && projects[p].threads@[t].agent_matches),
    ensures
        refusal_from(projects, socket, pane, i) is None,
    decreases projects.len() - i,
{
    if i < projects.len() {
        let p = projects[i];
        if p.coordinator is Some && p.coordinator->0.socket@ == socket {
            lemma_no_holding_thread(p.threads@, pane, 0);
        }
        lemma_no_refusal(projects, socket, pane, i + 1);
    }
}

/// Searching from `i` up to the first agent in the pane finds it.
proof fn lemma_agent_index_reaches(agents: Seq<AgentView>, pane: Seq<char>, i: int, k: int)
    requires
        0 <= i <= k < agents.len(),
        agents[k].pane_id == pane,
        forall|j: int| i <= j < k ==> (#[trigger] agents[j]).pane_id != pane,
    ensures
        agent_index_from(agents, pane, i) == Some(k),
    decreases k - i,
{
    if i < k {
        lemma_agent_index_reaches(agents, pane, i + 1, k);
    }
}

/// Only a record of the agent now in the pane stands in the way: a project
/// whose coordinator record names the pane but records another agent (as
/// after herdr was restarted), or whose threads there are remote, resolved or
/// of another agent, does not refuse. When no project of the session has its
/// coordinator recorded in the pane with the agent now there, nor a live local
/// thread of that agent in the pane, the pane is adoptable and the agent is
/// the first one herdr lists in it.
pub proof fn law_only_the_current_agent_refuses(
    list: Seq<AgentView>,
    socket: Seq<char>,
    pane: Seq<char>,
    projects: Seq<ProjectRecord>,
    k: int,
)
    requires
        0 <= k < list.len(),
        list[k].pane_id == pane,
        forall|j: int| 0 <= j < k ==> (#[trigger] list[j]).pane_id != pane,
        forall|p: int|
            0 <= p < projects.len() && (#[trigger] projects[p]).coordinator is Some
                && projects[p].coordinator->0.socket@ == socket ==> !(
            projects[p].coordinator->0.pane_id@ == pane && projects[p].coordinator->0.agent_matches)
                && forall|t: int| 0 <= t < projects[p].threads@.len() ==> !(
            !(#[trigger] projects[p].threads@[t]).remote && !projects[p].threads@[t].resolved
                && projects[p].threads@[t].pane_id@ == pane
                && projects[p].threads@[t].agent_matches),
    ensures
        adoptable(Ok(list), socket, pane, projects) == Ok::<AgentView, ErrorView>(list[k]),
{
    lemma_agent_index_reaches(list, pane, 0, k);
    lemma_no_refusal(projects, socket, pane, 0);
}

/// An adopted thread records the detected agent's kind as its agent, and
/// herdr's name for it only as its agent name; it sits in the agent's pane,
/// tab, workspace and directory.
pub proof fn law_adopted_thread_records_the_kind(
    t: AdoptedThread,
    title: Seq<char>,
    agent: AgentView,
    repo: Option<Seq<char>>,
    branch: Option<Seq<char>>,
    origin: Option<Seq<char>>,
)
    requires
        is_adopted_thread(t, title, agent, repo, branch, origin),
    ensures
        t.agent@ == agent.agent,
        t.agent_name@ == agent.name,
        t.pane_id@ == agent.pane_id,
        t.tab_id@ == agent.tab_id,
        t.workspace_id@ == agent.workspace_id,
        t.cwd@ == agent.cwd,
{
}

/// A pane is identified by its session and its id: a project whose
/// coordinator runs in another session, or that has never been opened, never
/// stands in the way of adopting a pane, wherever it stands among the projects.
pub proof fn law_other_sessions_never_refuse(
    agents: Result<Seq<AgentView>, Seq<char>>,
    socket: Seq<char>,
    pane: Seq<char>,
    before: Seq<ProjectRecord>,
    other: ProjectRecord,
    after: Seq<ProjectRecord>,
)
    requires
        !in_session(other, socket),
    ensures
        adoptable(agents, socket, pane, before + seq![other] + after) == adoptable(
            agents,
            socket,
            pane,
            before + after,
        ),
{
    let one = seq![other];
    assert(project_refusal(other, socket, pane) is None);
    assert(refusal_from(one, socket, pane, 1) is None);
    assert(refusal_from(one, socket, pane, 0) is None);
    lemma_refusal_concat(one, after, socket, pane, 0);
    lemma_refusal_concat(before, one + after, socket, pane, 0);
    lemma_refusal_concat(before, after, socket, pane, 0);
    assert(before + seq![other] + after =~= before + (one + after));
}

/// What `thread adopt` checks, in this order, before it looks at the pane:
/// the project is active, the title is not blank, the project has been opened.
pub open spec fn adopt_precheck_spec(
    slug: Seq<char>,
    status: ProjectStatus,
    title: Seq<char>,
    opened: bool,
) -> Option<ErrorView> {
    if status != ProjectStatus::Active {
        Some(ErrorView::NotActive { slug: slug, status: status })
    } else if trim(title).len() == 0 {
        Some(ErrorView::EmptyTitle)
    } else if !opened {
        Some(ErrorView::NeverOpened { slug: slug })
    } else {
        None
    }
}

/// The refusals of `thread adopt` that come from the project and the title;
/// `opened` tells whether the project has a coordinator record.
pub fn adopt_precheck(slug: &str, status: ProjectStatus, title: &str, opened: bool) -> (r: Result<
    (),
    ProjectsError,
>)
    ensures
        match adopt_precheck_spec(slug@, status, title@, opened) {
            Some(e) => r matches Err(x) && x@ == e,
            None => r is Ok,
        },
{
    if status != ProjectStatus::Active {
        return Err(ProjectsError::NotActive { slug: String::from_str(slug), status });
    }
    if blank(title) {
        return Err(ProjectsError::EmptyTitle);
    }
    if !opened {
        return Err(ProjectsError::NeverOpened { slug: String::from_str(slug) });
    }
    Ok(())
}

/// What a git query in the pane's directory answers: its trimmed output when
/// git succeeded and printed something.
pub open spec fn git_answer_spec(success: bool, stdout: Seq<char>) -> Option<Seq<char>> {
    if success && trim(stdout).len() > 0 {
        Some(trim(stdout))
    } else {
        None
    }
}

pub open spec fn opt_view(o: Option<String>) -> Option<Seq<char>> {
    match o {
        Some(s) => Some(s@),
        None => None,
    }
}

pub open spec fn agent_opt_view(a: Option<Agent>) -> Option<AgentView> {
    match a {
        Some(x) => Some(x@),
        None => None,
    }
}

/// The answer of a git query, from whether git succeeded and what it printed.
pub fn git_answer(success: bool, stdout: &str) -> (r: Option<String>)
    ensures
        opt_view(r) == git_answer_spec(success, stdout@),
{
    if !success {
        return None;
    }
    let t = trimmed(stdout);
    if t.as_str().is_empty() {
        None
    } else {
        Some(t)
    }
}

/// A thread record that adoption creates: a thread of kind `adopted` in the
/// pane of an agent that this program did not start.
#[derive(Debug)]
pub struct AdoptedThread {
    pub title: String,
    /// The repository the pane's directory belongs to, or empty.
    pub repo: String,
    /// The branch checked out there, or empty (also for a detached `HEAD`).
    pub branch: String,
    /// The URL of the `origin` remote, or empty.
    pub origin: String,
    pub agent: String,
    /// Whatever name herdr reports for the agent, possibly empty.
    pub agent_name: String,
    pub cwd: String,
    pub workspace_id: String,
    pub tab_id: String,
    pub pane_id: String,
}

pub open spec fn or_empty(o: Option<Seq<char>>) -> Seq<char> {
    match o {
        Some(s) => s,
        None => Seq::empty(),
    }
}

/// The branch to record: git's answer, unless it names no branch (`HEAD`).
pub open spec fn branch_spec(branch: Option<Seq<char>>) -> Seq<char> {
    match branch {
        Some(b) => if b == "HEAD"@ {
            Seq::empty()
        } else {
            b
        },
        None => Seq::empty(),
    }
}

fn string_or_empty(o: Option<String>) -> (r: String)
    ensures
        r@ == or_empty(opt_view(o)),
{
    match o {
        Some(s) => s,
        None => String::new(),
    }
}

/// `t` is the record of adopting the agent `agent` under `title`, where git
/// answered `repo`, `branch` and `origin` about the pane's directory.
pub open spec fn is_adopted_thread(
    t: AdoptedThread,
    title: Seq<char>,
    agent: AgentView,
    repo: Option<Seq<char>>,
    branch: Option<Seq<char>>,
    origin: Option<Seq<char>>,
) -> bool {
    &&& t.title@ == trim(title)
    &&& t.repo@ == or_empty(repo)
    &&& t.branch@ == branch_spec(branch)
    &&& t.origin@ == or_empty(origin)
    &&& t.agent@ == agent.agent
    &&& t.agent_name@ == agent.name
    &&& t.cwd@ == agent.cwd
    &&& t.workspace_id@ == agent.workspace_id
    &&& t.tab_id@ == agent.tab_id
    &&& t.pane_id@ == agent.pane_id
}

/// The thread record for adopting `agent` under `title`, with git's answers
/// for the pane's repository, branch and origin.
pub fn adopted_thread(
    title: &str,
    agent: &Agent,
    repo: Option<String>,
    branch: Option<String>,
    origin: Option<String>,
) -> (t: AdoptedThread)
    ensures
        is_adopted_thread(t, title@, agent@, opt_view(repo), opt_view(branch), opt_view(origin)),
{
    let branch = match branch {
        Some(b) => if str_eq(b.as_str(), "HEAD") {
            String::new()
        } else {
            b
        },
        None => String::new(),
    };
    AdoptedThread {
        title: trimmed(title),
        repo: string_or_empty(repo),
        branch,
        origin: string_or_empty(origin),
        agent: agent.agent.clone(),
        agent_name: agent.name.clone(),
        cwd: agent.cwd.clone(),
        workspace_id: agent.workspace_id.clone(),
        tab_id: agent.tab_id.clone(),
        pane_id: agent.pane_id.clone(),
    }
}

/// The task an adopted thread is given when none is.
pub open spec fn default_task() -> Seq<char> {
    "Continue the work you were already doing in this pane. It now belongs to the project described above: follow its instructions, and when you finish or stop to wait for the user, write the report."@
}

/// The task of an adopted thread: the one given, unless it is missing or blank.
pub open spec fn adopt_task_spec(task: Option<Seq<char>>) -> Seq<char> {
    match task {
        Some(t) => if trim(t).len() == 0 {
            default_task()
        } else {
            t
        },
        None => default_task(),
    }
}

pub fn adopt_task(task: Option<String>) -> (r: String)
    ensures
        r@ == adopt_task_spec(opt_view(task)),
{
    match task {
        Some(t) => if blank(t.as_str()) {
            String::from_str(
                "Continue the work you were already doing in this pane. It now belongs to the project described above: follow its instructions, and when you finish or stop to wait for the user, write the report.",
            )
        } else {
            t
        },
        None => String::from_str(
            "Continue the work you were already doing in this pane. It now belongs to the project described above: follow its instructions, and when you finish or stop to wait for the user, write the report.",
        ),
    }
}

/// Whether the launch prompt is still owed after adoption: it is sent at once
/// only to an agent that is ready for one, and is owed when that did not
/// happen or failed. The ticker delivers an owed prompt later.
pub fn prompt_pending(ready: bool, delivered: bool) -> (r: bool)
    ensures
        r == !(ready && delivered),
{
    !(ready && delivered)
}

/// The directory whose repository a workspace continued as a project gets:
/// the workspace's own directory, or the agent's when the workspace gave none.
pub fn project_dir(workspace_cwd: &str, agent: &Agent) -> (r: String)
    ensures
        r@ == if workspace_cwd@.len() == 0 {
            agent.cwd@
        } else {
            workspace_cwd@
        },
{
    if workspace_cwd.is_empty() {
        agent.cwd.clone()
    } else {
        String::from_str(workspace_cwd)
    }
}

/// A repository a project lists; `machine` is `None` for a local one.
#[derive(Debug)]
pub struct Repo {
    pub path: String,
    pub machine: Option<String>,
}

/// The repositories of a workspace continued as a project: the one its
/// directory belongs to, if git found one.
pub fn workspace_repos(toplevel: Option<String>) -> (r: Vec<Repo>)
    ensures
        toplevel is None ==> r@.len() == 0,
        toplevel matches Some(p) ==> r@.len() == 1 && r@[0].path@ == p@ && r@[0].machine is None,
{
    let mut r: Vec<Repo> = Vec::new();
    match toplevel {
        Some(path) => {
            r.push(Repo { path, machine: None });
        },
        None => {},
    }
    r
}

/// The agent kinds a new project is created with.
#[derive(Debug)]
pub struct CreateOptions {
    pub coordinator_agent: Option<String>,
    pub thread_agent: Option<String>,
}

/// An agent kind as an option: none when it is empty.
pub open spec fn kind_option(kind: Seq<char>) -> Option<Seq<char>> {
    if kind.len() == 0 {
        None
    } else {
        Some(kind)
    }
}

/// Options that give both the coordinator and the threads the agent kind
/// `kind`, or leave both to the default when it is empty.
pub fn create_options(kind: &str) -> (o: CreateOptions)
    ensures
        opt_view(o.coordinator_agent) == kind_option(kind@),
        opt_view(o.thread_agent) == kind_option(kind@),
{
    if kind.is_empty() {
        CreateOptions { coordinator_agent: None, thread_agent: None }
    } else {
        CreateOptions {
            coordinator_agent: Some(String::from_str(kind)),
            thread_agent: Some(String::from_str(kind)),
        }
    }
}

/// The refusal of a workspace continued as a project whose slug is taken.
pub fn refuse_taken_slug(slug: &str, root: &str, taken: bool) -> (r: Result<(), ProjectsError>)
    ensures
        taken ==> (r matches Err(e) && e@ == (ErrorView::AlreadyExists { slug: slug@, root: root@ })),
        !taken ==> r is Ok,
{
    if taken {
        Err(ProjectsError::AlreadyExists { slug: String::from_str(slug), root: String::from_str(root) })
    } else {
        Ok(())
    }
}

/// Which herdr session a command talks to: by name, or by the path of its
/// socket.
#[derive(Debug)]
pub struct SessionFlags {
    pub session: Option<String>,
    pub socket: Option<String>,
}

/// "Continue this workspace as a project": the project to create and the pane
/// to adopt into it.
#[derive(Debug)]
pub struct AdoptWorkspace {
    pub name: String,
    pub goal: String,
    pub pane: String,
    /// The workspace's directory as herdr reported it, possibly empty.
    pub workspace_cwd: String,
    pub session: SessionFlags,
}

/// How a project's coordinator is opened.
#[derive(Debug)]
pub struct OpenOptions {
    pub session: SessionFlags,
    /// Send the priming line again to a coordinator that already runs.
    pub reprime: bool,
    /// Move the project to another session.
    pub rebind: bool,
}

/// Opening a coordinator in the session at `socket`, neither repriming nor
/// rebinding: how the action menu, the popups and a workspace continued as a
/// project open one.
pub fn open_options(socket: String) -> (o: OpenOptions)
    ensures
        o.session.session is None,
        opt_view(o.session.socket) == Some(socket@),
        !o.reprime,
        !o.rebind,
{
    OpenOptions { session: SessionFlags { session: None, socket: Some(socket) }, reprime: false, rebind: false }
}

} // verus!
