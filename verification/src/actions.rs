//! What herdr's action menu and the four popup panes decide. An action that
//! needs to ask the user something opens a popup, passing what it already
//! knows in a handoff record kept in the plugin state directory.

use vstd::prelude::*;

use crate::adopt::{
    create_options, kind_option, open_options, opt_view, or_empty, AdoptWorkspace, CreateOptions,
    OpenOptions, SessionFlags,
};
use crate::error::{join3, ErrorView, ProjectStatus, ProjectsError};
use crate::text::{str_eq, trim, trimmed};

verus! {

/// What an action hands to the popup it opens.
#[derive(Debug)]
pub struct Handoff {
    /// The subcommand the `pick` pane should run: `open`, `pause` or `resume`.
    pub command: String,
    pub slug: String,
    /// Captured by the action, before any popup opens.
    pub pane_id: String,
    pub workspace_label: String,
    pub workspace_cwd: String,
    pub socket: String,
}

pub struct HandoffView {
    pub command: Seq<char>,
    pub slug: Seq<char>,
    pub pane_id: Seq<char>,
    pub workspace_label: Seq<char>,
    pub workspace_cwd: Seq<char>,
    pub socket: Seq<char>,
}

impl View for Handoff {
    type V = HandoffView;

    open spec fn view(&self) -> HandoffView {
        HandoffView {
            command: self.command@,
            slug: self.slug@,
            pane_id: self.pane_id@,
            workspace_label: self.workspace_label@,
            workspace_cwd: self.workspace_cwd@,
            socket: self.socket@,
        }
    }
}

impl PartialEq for Handoff {
    fn eq(&self, other: &Self) -> (r: bool) {
        let same = str_eq(self.command.as_str(), other.command.as_str());
        let same = same && str_eq(self.slug.as_str(), other.slug.as_str());
        let same = same && str_eq(self.pane_id.as_str(), other.pane_id.as_str());
        let same = same && str_eq(self.workspace_label.as_str(), other.workspace_label.as_str());
        let same = same && str_eq(self.workspace_cwd.as_str(), other.workspace_cwd.as_str());
        same && str_eq(self.socket.as_str(), other.socket.as_str())
    }
}

impl vstd::std_specs::cmp::PartialEqSpecImpl for Handoff {
    open spec fn obeys_eq_spec() -> bool {
        true
    }

    /// Two handoffs are equal when every field is.
    open spec fn eq_spec(&self, other: &Self) -> bool {
        &&& self.command@ == other.command@
        &&& self.slug@ == other.slug@
        &&& self.pane_id@ == other.pane_id@
        &&& self.workspace_label@ == other.workspace_label@
        &&& self.workspace_cwd@ == other.workspace_cwd@
        &&& self.socket@ == other.socket@
    }
}

/// A handoff with every field empty.
pub open spec fn empty_handoff() -> HandoffView {
    HandoffView {
        command: Seq::empty(),
        slug: Seq::empty(),
        pane_id: Seq::empty(),
        workspace_label: Seq::empty(),
        workspace_cwd: Seq::empty(),
        socket: Seq::empty(),
    }
}

impl Default for Handoff {
    fn default() -> (h: Self)
        ensures
            h@ == empty_handoff(),
    {
        Handoff {
            command: String::new(),
            slug: String::new(),
            pane_id: String::new(),
            workspace_label: String::new(),
            workspace_cwd: String::new(),
            socket: String::new(),
        }
    }
}

impl Clone for Handoff {
    fn clone(&self) -> (r: Self)
        ensures
            r@ == self@,
    {
        Handoff {
            command: self.command.clone(),
            slug: self.slug.clone(),
            pane_id: self.pane_id.clone(),
            workspace_label: self.workspace_label.clone(),
            workspace_cwd: self.workspace_cwd.clone(),
            socket: self.socket.clone(),
        }
    }
}

/// The originating pane and workspace as herdr describes them to an action.
#[derive(Debug)]
pub struct ActionContext {
    pub workspace_id: String,
    pub workspace_label: String,
    pub workspace_cwd: String,
    pub focused_pane_id: String,
}

/// What an action is started with: the values herdr sets for it.
#[derive(Debug)]
pub struct ActionEnv {
    /// `HERDR_SOCKET_PATH`.
    pub socket: Option<String>,
    /// `HERDR_PANE_ID`.
    pub pane_id: Option<String>,
    /// `HERDR_WORKSPACE_ID`.
    pub workspace_id: Option<String>,
    /// The context herdr describes, or an empty one when it gave none.
    pub context: ActionContext,
}

/// `dir` joined with the relative file name `file`, with one `/` between them
/// unless `dir` is empty or already ends in one.
pub open spec fn join_path(dir: Seq<char>, file: Seq<char>) -> Seq<char> {
    if dir.len() == 0 || dir.last() == '/' {
        dir + file
    } else {
        dir + seq!['/'] + file
    }
}

/// The file that holds the handoff, in the plugin state directory.
pub fn state_file(state_dir: Option<&str>) -> (r: Result<String, ProjectsError>)
    ensures
        state_dir is None ==> (r matches Err(e) && e@ == ErrorView::StateDirNotSet),
        state_dir matches Some(d) ==> (r matches Ok(f) && f@ == join_path(d@, "handoff.json"@)),
{
    match state_dir {
        None => Err(ProjectsError::StateDirNotSet),
        Some(dir) => {
            let n = dir.unicode_len();
            let mut path = String::from_str(dir);
            if n > 0 && dir.get_char(n - 1) != '/' {
                proof {
                    reveal_strlit("/");
                }
                path.append("/");
            }
            path.append("handoff.json");
            Ok(path)
        },
    }
}

/// The socket of the herdr session the command was started from.
pub fn socket(socket_path: Option<&str>) -> (r: Result<String, ProjectsError>)
    ensures
        socket_path is None ==> (r matches Err(e) && e@ == ErrorView::SocketNotSet),
        socket_path matches Some(s) ==> (r matches Ok(x) && x@ == s@),
{
    match socket_path {
        None => Err(ProjectsError::SocketNotSet),
        Some(s) => Ok(String::from_str(s)),
    }
}

/// The handoff a popup starts from: the stored one, or an empty one when none
/// could be read.
pub fn read_handoff(stored: Option<Handoff>) -> (h: Handoff)
    ensures
        stored matches Some(s) ==> h@ == s@,
        stored is None ==> h@ == empty_handoff(),
{
    match stored {
        Some(s) => s,
        None => Handoff::default(),
    }
}

/// The workspace whose project an action acts on: herdr's `HERDR_WORKSPACE_ID`,
/// or the workspace of the context.
pub fn current_workspace(workspace_env: Option<&str>, context: &ActionContext) -> (r: String)
    ensures
        workspace_env matches Some(w) ==> r@ == w@,
        workspace_env is None ==> r@ == context.workspace_id@,
{
    match workspace_env {
        Some(w) => String::from_str(w),
        None => context.workspace_id.clone(),
    }
}

/// What a project command of the picker does.
#[derive(Debug)]
pub enum SlugCommand {
    /// Open the project's coordinator.
    Open { slug: String, options: OpenOptions },
    /// Give the project a new status.
    SetStatus { slug: String, status: ProjectStatus },
}

pub enum SlugCommandView {
    Open {
        slug: Seq<char>,
        session: Option<Seq<char>>,
        socket: Option<Seq<char>>,
        reprime: bool,
        rebind: bool,
    },
    SetStatus { slug: Seq<char>, status: ProjectStatus },
}

impl View for SlugCommand {
    type V = SlugCommandView;

    open spec fn view(&self) -> SlugCommandView {
        match self {
            SlugCommand::Open { slug, options } => SlugCommandView::Open {
                slug: slug@,
                session: opt_view(options.session.session),
                socket: opt_view(options.session.socket),
                reprime: options.reprime,
                rebind: options.rebind,
            },
            SlugCommand::SetStatus { slug, status } => SlugCommandView::SetStatus {
                slug: slug@,
                status: *status,
            },
        }
    }
}

/// What running `command` on the project `slug` does, from a command started
/// with `socket` as its `HERDR_SOCKET_PATH`: `open` opens the coordinator in
/// that session (neither repriming nor rebinding), and is refused without a
/// socket; `pause` and `resume` set the project's status; any other command
/// is refused.
pub open spec fn slug_command(command: Seq<char>, slug: Seq<char>, socket: Option<Seq<char>>) -> Result<
    SlugCommandView,
    ErrorView,
> {
    if command == "open"@ {
        match socket {
            Some(s) => Ok(
                SlugCommandView::Open {
                    slug: slug,
                    session: None,
                    socket: Some(s),
                    reprime: false,
                    rebind: false,
                },
            ),
            None => Err(ErrorView::SocketNotSet),
        }
    } else if command == "pause"@ {
        Ok(SlugCommandView::SetStatus { slug: slug, status: ProjectStatus::Paused })
    } else if command == "resume"@ {
        Ok(SlugCommandView::SetStatus { slug: slug, status: ProjectStatus::Active })
    } else {
        Err(ErrorView::NotFromPicker { command: command })
    }
}

pub open spec fn command_view(r: Result<SlugCommand, ProjectsError>) -> Result<
    SlugCommandView,
    ErrorView,
> {
    match r {
        Ok(c) => Ok(c@),
        Err(e) => Err(e@),
    }
}

pub open spec fn opt_str_view(o: Option<&str>) -> Option<Seq<char>> {
    match o {
        Some(s) => Some(s@),
        None => None,
    }
}

/// The project command `command` on `slug`, as the picker and the actions run
/// it; `socket_path` is the command's `HERDR_SOCKET_PATH`.
pub fn run_on_slug(command: &str, slug: &str, socket_path: Option<&str>) -> (r: Result<
    SlugCommand,
    ProjectsError,
>)
    ensures
        command_view(r) == slug_command(command@, slug@, opt_str_view(socket_path)),
{
    if str_eq(command, "open") {
        match socket_path {
            Some(s) => Ok(
                SlugCommand::Open {
                    slug: String::from_str(slug),
                    options: open_options(String::from_str(s)),
                },
            ),
            None => Err(ProjectsError::SocketNotSet),
        }
    } else if str_eq(command, "pause") {
        Ok(SlugCommand::SetStatus { slug: String::from_str(slug), status: ProjectStatus::Paused })
    } else if str_eq(command, "resume") {
        Ok(SlugCommand::SetStatus { slug: String::from_str(slug), status: ProjectStatus::Active })
    } else {
        Err(ProjectsError::NotFromPicker { command: String::from_str(command) })
    }
}

/// Where the project of the current workspace is looked up: the workspace (as
/// [`current_workspace`] picks it) in the session at `HERDR_SOCKET_PATH`, or
/// at the empty socket when that is not set.
pub fn workspace_lookup(env: &ActionEnv) -> (r: (String, String))
    ensures
        env.workspace_id matches Some(w) ==> r.0@ == w@,
        env.workspace_id is None ==> r.0@ == env.context.workspace_id@,
        r.1@ == or_empty(opt_view(env.socket)),
{
    let workspace = match &env.workspace_id {
        Some(w) => String::from_str(w.as_str()),
        None => env.context.workspace_id.clone(),
    };
    let socket = match &env.socket {
        Some(s) => s.clone(),
        None => String::new(),
    };
    (workspace, socket)
}

/// The actions that act on the project of the current workspace.
pub open spec fn needs_project(id: Seq<char>) -> bool {
    ||| id == "overview"@
    ||| id == "open"@
    ||| id == "pause"@
    ||| id == "resume"@
    ||| id == "focus"@
}

/// Whether action `id` needs to know the project of the current workspace;
/// for other actions it is not looked up.
pub fn action_needs_project(id: &str) -> (r: bool)
    ensures
        r == needs_project(id@),
{
    str_eq(id, "overview") || str_eq(id, "open") || str_eq(id, "pause") || str_eq(id, "resume")
        || str_eq(id, "focus")
}

/// What an action does next.
#[derive(Debug)]
pub enum ActionPlan {
    /// Store the handoff and open the popup `entrypoint`.
    OpenPane { entrypoint: String, handoff: Handoff },
    /// Run a project command.
    OnSlug { command: SlugCommand },
    /// Focus the project's workspace.
    Focus { slug: String },
    Unfocus,
    /// Check that `pane` of the session at `socket` may be adopted, and only
    /// then store the handoff and open the popup `entrypoint`.
    AdoptWorkspace { pane: String, socket: String, entrypoint: String, handoff: Handoff },
    /// Run the health checks and show their outcome as a notification.
    Doctor,
    Refuse { error: ProjectsError },
}

pub enum ActionPlanView {
    OpenPane { entrypoint: Seq<char>, handoff: HandoffView },
    OnSlug { command: SlugCommandView },
    Focus { slug: Seq<char> },
    Unfocus,
    AdoptWorkspace { pane: Seq<char>, socket: Seq<char>, entrypoint: Seq<char>, handoff: HandoffView },
    Doctor,
    Refuse { error: ErrorView },
}

impl View for ActionPlan {
    type V = ActionPlanView;

    open spec fn view(&self) -> ActionPlanView {
        match self {
            ActionPlan::OpenPane { entrypoint, handoff } => ActionPlanView::OpenPane {
                entrypoint: entrypoint@,
                handoff: handoff@,
            },
            ActionPlan::OnSlug { command } => ActionPlanView::OnSlug { command: command@ },
            ActionPlan::Focus { slug } => ActionPlanView::Focus { slug: slug@ },
            ActionPlan::Unfocus => ActionPlanView::Unfocus,
            ActionPlan::AdoptWorkspace { pane, socket, entrypoint, handoff } => ActionPlanView::AdoptWorkspace {
                pane: pane@,
                socket: socket@,
                entrypoint: entrypoint@,
                handoff: handoff@,
            },
            ActionPlan::Doctor => ActionPlanView::Doctor,
            ActionPlan::Refuse { error } => ActionPlanView::Refuse { error: error@ },
        }
    }
}

/// The handoff every action starts from: empty but for the session's socket.
pub open spec fn base_handoff(env: ActionEnv) -> HandoffView {
    HandoffView { socket: or_empty(opt_view(env.socket)), ..empty_handoff() }
}

/// The pane an `adopt-workspace` action adopts: herdr's `HERDR_PANE_ID`, or
/// the focused pane of the context.
pub open spec fn action_pane(env: ActionEnv) -> Seq<char> {
    match env.pane_id {
        Some(p) => p@,
        None => env.context.focused_pane_id@,
    }
}

/// What action `id` does, where `current` is the project of the current
/// workspace (looked up only for the actions that need it).
pub open spec fn action_plan(id: Seq<char>, env: ActionEnv, current: Option<Seq<char>>) -> ActionPlanView {
    let base = base_handoff(env);
    if id == "new"@ {
        ActionPlanView::OpenPane { entrypoint: "new"@, handoff: base }
    } else if id == "overview"@ {
        ActionPlanView::OpenPane {
            entrypoint: "overview"@,
            handoff: HandoffView { slug: or_empty(current), ..base },
        }
    } else if id == "open"@ || id == "pause"@ || id == "resume"@ {
        match current {
            Some(slug) => match slug_command(id, slug, opt_view(env.socket)) {
                Ok(c) => ActionPlanView::OnSlug { command: c },
                Err(e) => ActionPlanView::Refuse { error: e },
            },
            None => ActionPlanView::OpenPane {
                entrypoint: "pick"@,
                handoff: HandoffView { command: id, ..base },
            },
        }
    } else if id == "focus"@ {
        match current {
            Some(slug) => ActionPlanView::Focus { slug: slug },
            None => ActionPlanView::Refuse { error: ErrorView::NotInProject },
        }
    } else if id == "unfocus"@ {
        ActionPlanView::Unfocus
    } else if id == "adopt-workspace"@ {
        let pane = action_pane(env);
        if pane.len() == 0 {
            ActionPlanView::Refuse { error: ErrorView::NoPane }
        } else {
            match env.socket {
                None => ActionPlanView::Refuse { error: ErrorView::SocketNotSet },
                Some(s) => ActionPlanView::AdoptWorkspace {
                    pane: pane,
                    socket: s@,
                    entrypoint: "adopt"@,
                    handoff: HandoffView {
                        pane_id: pane,
                        workspace_label: env.context.workspace_label@,
                        workspace_cwd: env.context.workspace_cwd@,
                        ..base
                    },
                },
            }
        }
    } else if id == "doctor"@ {
        ActionPlanView::Doctor
    } else {
        ActionPlanView::Refuse { error: ErrorView::UnknownAction { id: id } }
    }
}

fn opt_as_str(o: &Option<String>) -> (r: Option<&str>)
    ensures
        opt_str_view(r) == opt_view(*o),
{
    match o {
        Some(s) => Some(s.as_str()),
        None => None,
    }
}

pub(crate) fn opt_clone(o: &Option<String>) -> (r: Option<String>)
    ensures
        opt_view(r) == opt_view(*o),
{
    match o {
        Some(s) => Some(s.clone()),
        None => None,
    }
}

fn base_handoff_of(env: &ActionEnv) -> (h: Handoff)
    ensures
        h@ == base_handoff(*env),
{
    let mut h = Handoff::default();
    match &env.socket {
        Some(s) => {
            h.socket = s.clone();
        },
        None => {},
    }
    h
}

/// What action `id` of herdr's action menu does. `current` is the project of
/// the current workspace, which the caller looks up when
/// [`action_needs_project`] says so and leaves `None` otherwise.
pub fn decide_action(id: &str, env: &ActionEnv, current: Option<String>) -> (r: ActionPlan)
    ensures
        r@ == action_plan(id@, *env, opt_view(current)),
{
    let mut base = base_handoff_of(env);
    if str_eq(id, "new") {
        ActionPlan::OpenPane { entrypoint: String::from_str("new"), handoff: base }
    } else if str_eq(id, "overview") {
        match current {
            Some(slug) => {
                base.slug = slug;
            },
            None => {},
        }
        ActionPlan::OpenPane { entrypoint: String::from_str("overview"), handoff: base }
    } else if str_eq(id, "open") || str_eq(id, "pause") || str_eq(id, "resume") {
        match current {
            Some(slug) => match run_on_slug(id, slug.as_str(), opt_as_str(&env.socket)) {
                Ok(command) => ActionPlan::OnSlug { command },
                Err(error) => ActionPlan::Refuse { error },
            },
            None => {
                base.command = String::from_str(id);
                ActionPlan::OpenPane { entrypoint: String::from_str("pick"), handoff: base }
            },
        }
    } else if str_eq(id, "focus") {
        match current {
            Some(slug) => ActionPlan::Focus { slug },
            None => ActionPlan::Refuse { error: ProjectsError::NotInProject },
        }
    } else if str_eq(id, "unfocus") {
        ActionPlan::Unfocus
    } else if str_eq(id, "adopt-workspace") {
        let pane = match &env.pane_id {
            Some(p) => p.clone(),
            None => env.context.focused_pane_id.clone(),
        };
        if pane.as_str().is_empty() {
            ActionPlan::Refuse { error: ProjectsError::NoPane }
        } else {
            match opt_clone(&env.socket) {
                None => ActionPlan::Refuse { error: ProjectsError::SocketNotSet },
                Some(s) => {
                    base.pane_id = pane.clone();
                    base.workspace_label = env.context.workspace_label.clone();
                    base.workspace_cwd = env.context.workspace_cwd.clone();
                    ActionPlan::AdoptWorkspace {
                        pane,
                        socket: s,
                        entrypoint: String::from_str("adopt"),
                        handoff: base,
                    }
                },
            }
        }
    } else if str_eq(id, "doctor") {
        ActionPlan::Doctor
    } else {
        ActionPlan::Refuse { error: ProjectsError::UnknownAction { id: String::from_str(id) } }
    }
}

pub open spec fn strings_view(v: Seq<String>) -> Seq<Seq<char>> {
    v.map_values(|s: String| s@)
}

/// The arguments of the herdr call that opens popup `entrypoint` of this plugin.
pub fn pane_open_args(entrypoint: &str) -> (r: Vec<String>)
    ensures
        strings_view(r@) == seq![
            "plugin"@,
            "pane"@,
            "open"@,
            "--plugin"@,
            "herdr-projects"@,
            "--entrypoint"@,
            entrypoint@,
        ],
{
    let mut r: Vec<String> = Vec::new();
    r.push(String::from_str("plugin"));
    r.push(String::from_str("pane"));
    r.push(String::from_str("open"));
    r.push(String::from_str("--plugin"));
    r.push(String::from_str("herdr-projects"));
    r.push(String::from_str("--entrypoint"));
    r.push(String::from_str(entrypoint));
    assert(strings_view(r@) =~= seq![
        "plugin"@,
        "pane"@,
        "open"@,
        "--plugin"@,
        "herdr-projects"@,
        "--entrypoint"@,
        entrypoint@,
    ]);
    r
}

/// The body of the notification that shows the outcome of the health checks.
pub open spec fn doctor_notice_spec(healthy: bool) -> Seq<char> {
    if healthy {
        "All required checks passed. Details: herdr plugin log --plugin herdr-projects"@
    } else {
        "Some checks FAILED. Details: herdr plugin log --plugin herdr-projects"@
    }
}

pub fn doctor_notice(healthy: bool) -> (r: String)
    ensures
        r@ == doctor_notice_spec(healthy),
{
    if healthy {
        String::from_str(
            "All required checks passed. Details: herdr plugin log --plugin herdr-projects",
        )
    } else {
        String::from_str("Some checks FAILED. Details: herdr plugin log --plugin herdr-projects")
    }
}

/// What a popup pane does with the handoff it finds.
#[derive(Debug)]
pub enum PanePlan {
    /// Show the overview, of one project when `slug` names one.
    Overview { slug: Option<String> },
    /// Ask for a name, a goal and an agent, create the project and open it.
    NewProject,
    /// Ask which project to act on, then run `command` on it.
    Pick { command: String },
    /// Ask for a project name (offering `default_name`) and continue the
    /// workspace as that project.
    Adopt { default_name: String },
    Refuse { error: ProjectsError },
}

pub enum PanePlanView {
    Overview { slug: Option<Seq<char>> },
    NewProject,
    Pick { command: Seq<char> },
    Adopt { default_name: Seq<char> },
    Refuse { error: ErrorView },
}

impl View for PanePlan {
    type V = PanePlanView;

    open spec fn view(&self) -> PanePlanView {
        match self {
            PanePlan::Overview { slug } => PanePlanView::Overview { slug: opt_view(*slug) },
            PanePlan::NewProject => PanePlanView::NewProject,
            PanePlan::Pick { command } => PanePlanView::Pick { command: command@ },
            PanePlan::Adopt { default_name } => PanePlanView::Adopt { default_name: default_name@ },
            PanePlan::Refuse { error } => PanePlanView::Refuse { error: error@ },
        }
    }
}

/// What popup `id` does with `handoff`.
pub open spec fn pane_plan(id: Seq<char>, handoff: HandoffView) -> PanePlanView {
    if id == "overview"@ {
        PanePlanView::Overview {
            slug: if handoff.slug.len() == 0 {
                None
            } else {
                Some(handoff.slug)
            },
        }
    } else if id == "new"@ {
        PanePlanView::NewProject
    } else if id == "pick"@ {
        PanePlanView::Pick { command: handoff.command }
    } else if id == "adopt"@ {
        PanePlanView::Adopt { default_name: handoff.workspace_label }
    } else {
        PanePlanView::Refuse { error: ErrorView::UnknownPane { id: id } }
    }
}

/// What popup `id` does with the handoff its action left.
pub fn decide_pane(id: &str, handoff: &Handoff) -> (r: PanePlan)
    ensures
        r@ == pane_plan(id@, handoff@),
{
    if str_eq(id, "overview") {
        if handoff.slug.as_str().is_empty() {
            PanePlan::Overview { slug: None }
        } else {
            PanePlan::Overview { slug: Some(handoff.slug.clone()) }
        }
    } else if str_eq(id, "new") {
        PanePlan::NewProject
    } else if str_eq(id, "pick") {
        PanePlan::Pick { command: handoff.command.clone() }
    } else if str_eq(id, "adopt") {
        PanePlan::Adopt { default_name: handoff.workspace_label.clone() }
    } else {
        PanePlan::Refuse { error: ProjectsError::UnknownPane { id: String::from_str(id) } }
    }
}

/// The prompt of a question, with its default in brackets when it has one.
pub open spec fn prompt_spec(question: Seq<char>, default: Seq<char>) -> Seq<char> {
    if default.len() == 0 {
        question + ": "@
    } else {
        question + " ["@ + default + "]: "@
    }
}

pub fn ask_prompt(question: &str, default: &str) -> (r: String)
    ensures
        r@ == prompt_spec(question@, default@),
{
    if default.is_empty() {
        let mut r = String::from_str(question);
        r.append(": ");
        r
    } else {
        let mut r = join3(question, " [", default);
        r.append("]: ");
        r
    }
}

/// The answer to a question: the line typed, trimmed, or the default when
/// nothing but whitespace was typed.
pub open spec fn answer_spec(line: Seq<char>, default: Seq<char>) -> Seq<char> {
    if trim(line).len() == 0 {
        default
    } else {
        trim(line)
    }
}

pub fn answer_or_default(line: &str, default: &str) -> (r: String)
    ensures
        r@ == answer_spec(line@, default@),
{
    let answer = trimmed(line);
    if answer.as_str().is_empty() {
        String::from_str(default)
    } else {
        answer
    }
}

/// The options of a project created from the new-project popup, from the
/// line answered to its agent question and the default it offered: the
/// answer, or `default` when the line is blank, for both the coordinator and
/// the threads (neither when that is empty).
pub fn new_project_options(agent_line: &str, default: &str) -> (o: CreateOptions)
    ensures
        opt_view(o.coordinator_agent) == kind_option(answer_spec(agent_line@, default@)),
        opt_view(o.thread_agent) == kind_option(answer_spec(agent_line@, default@)),
{
    let agent = answer_or_default(agent_line, default);
    create_options(agent.as_str())
}

/// The project name a popup was given: refused when empty.
pub fn given_name(name: String) -> (r: Result<String, ProjectsError>)
    ensures
        name@.len() == 0 ==> (r matches Err(e) && e@ == ErrorView::NoName),
        name@.len() > 0 ==> (r matches Ok(n) && n@ == name@),
{
    if name.as_str().is_empty() {
        Err(ProjectsError::NoName)
    } else {
        Ok(name)
    }
}

/// What the `adopt` popup asks for: continue the workspace captured in
/// `handoff` as the project `name`, in the session at `socket`, with no goal.
pub fn adopt_workspace_request(name: String, handoff: &Handoff, socket: String) -> (r: AdoptWorkspace)
    ensures
        r.name@ == name@,
        r.goal@.len() == 0,
        r.pane@ == handoff.pane_id@,
        r.workspace_cwd@ == handoff.workspace_cwd@,
        r.session.session is None,
        opt_view(r.session.socket) == Some(socket@),
{
    AdoptWorkspace {
        name,
        goal: String::new(),
        pane: handoff.pane_id.clone(),
        workspace_cwd: handoff.workspace_cwd.clone(),
        session: SessionFlags { session: None, socket: Some(socket) },
    }
}

/// An action run from the picker does what the same action run inside the
/// project's workspace does: without a project, `open`, `pause` and `resume`
/// open the picker with the action as its command, and the picker running
/// that command on the project chosen yields the very command the action
/// runs directly in that project's workspace.
pub proof fn law_picker_acts_like_workspace(
    id: Seq<char>,
    env: ActionEnv,
    slug: Seq<char>,
)
    requires
        id == "open"@ || id == "pause"@ || id == "resume"@,
    ensures
        action_plan(id, env, None) matches ActionPlanView::OpenPane { entrypoint, handoff } && {
            &&& entrypoint == "pick"@
            &&& pane_plan(entrypoint, handoff) == (PanePlanView::Pick { command: id })
            &&& action_plan(id, env, Some(slug)) == match slug_command(
                handoff.command,
                slug,
                opt_view(env.socket),
            ) {
                Ok(c) => ActionPlanView::OnSlug { command: c },
                Err(e) => ActionPlanView::Refuse { error: e },
            }
        },
{
    reveal_strlit("open");
    reveal_strlit("pause");
    reveal_strlit("resume");
    reveal_strlit("pick");
    reveal_strlit("new");
    reveal_strlit("overview");
    assert("open"@.len() == 4 && "pause"@.len() == 5 && "resume"@.len() == 6);
    assert("pick"@.len() == 4 && "new"@.len() == 3 && "overview"@.len() == 8);
    assert(id != "new"@ && id != "overview"@);
    assert("pick"@ != "new"@ && "pick"@ != "overview"@);
}

/// Actions that do not act on the current workspace's project do not depend
/// on it: whatever the lookup would give, they do the same.
pub proof fn law_lookup_only_where_needed(
    id: Seq<char>,
    env: ActionEnv,
    a: Option<Seq<char>>,
    b: Option<Seq<char>>,
)
    requires
        !needs_project(id),
    ensures
        action_plan(id, env, a) == action_plan(id, env, b),
{
}

/// Every popup an action opens inherits the session's socket, and the
/// `adopt-workspace` action captures the pane before any popup opens.
pub proof fn law_handoff_carries_session(id: Seq<char>, env: ActionEnv, current: Option<Seq<char>>)
    ensures
        action_plan(id, env, current) matches ActionPlanView::OpenPane { handoff, .. }
            ==> handoff.socket == or_empty(opt_view(env.socket)),
        action_plan(id, env, current) matches ActionPlanView::AdoptWorkspace { pane, handoff, .. }
            ==> handoff.pane_id == pane && pane == action_pane(env) && pane.len() > 0,
{
}

/// The literals of the action ids, told apart by their lengths.
proof fn lemma_action_ids()
    ensures
        "adopt-workspace"@.len() == 15,
        "new"@.len() == 3,
        "overview"@.len() == 8,
        "open"@.len() == 4,
        "pause"@.len() == 5,
        "resume"@.len() == 6,
        "focus"@.len() == 5,
        "unfocus"@.len() == 7,
        "adopt"@.len() == 5,
        "pick"@.len() == 4,
{
    reveal_strlit("adopt-workspace");
    reveal_strlit("new");
    reveal_strlit("overview");
    reveal_strlit("open");
    reveal_strlit("pause");
    reveal_strlit("resume");
    reveal_strlit("focus");
    reveal_strlit("unfocus");
    reveal_strlit("adopt");
    reveal_strlit("pick");
}

/// `adopt-workspace` adopts the pane herdr names in `HERDR_PANE_ID`, or else
/// the context's focused pane. It refuses with `NoPane` exactly when that pane
/// is empty, whatever else the context holds; with a pane and a socket it
/// checks that pane of that session and hands the popup the pane and the
/// workspace's label and directory.
pub proof fn law_adopt_workspace_takes_the_named_pane(env: ActionEnv, current: Option<Seq<char>>)
    ensures
        ({
            let pane = match env.pane_id {
                Some(p) => p@,
                None => env.context.focused_pane_id@,
            };
            &&& (action_plan("adopt-workspace"@, env, current) == ActionPlanView::Refuse {
                error: ErrorView::NoPane,
            }) <==> pane.len() == 0
            &&& (pane.len() > 0 && env.socket is Some) ==> (action_plan(
                "adopt-workspace"@,
                env,
                current,
            ) matches ActionPlanView::AdoptWorkspace { pane: p, socket, entrypoint, handoff } && p
                == pane && Some(socket) == opt_view(env.socket) && entrypoint == "adopt"@
                && handoff.pane_id == pane && handoff.socket == socket && handoff.workspace_label
                == env.context.workspace_label@ && handoff.workspace_cwd == env.context.workspace_cwd@)
            &&& (pane.len() > 0 && env.socket is None) ==> action_plan(
                "adopt-workspace"@,
                env,
                current,
            ) == ActionPlanView::Refuse { error: ErrorView::SocketNotSet }
        }),
{
    lemma_action_ids();
}

/// The adopt popup offers the workspace's label as the project name, whatever
/// else the handoff holds; so the popup that `adopt-workspace` opens offers the
/// label of the workspace the action was invoked from.
pub proof fn law_adopt_popup_offers_the_label(h: HandoffView, env: ActionEnv, current: Option<Seq<char>>)
    ensures
        pane_plan("adopt"@, h) == (PanePlanView::Adopt { default_name: h.workspace_label }),
        action_plan("adopt-workspace"@, env, current) matches ActionPlanView::AdoptWorkspace {
            entrypoint,
            handoff,
            ..
        } ==> pane_plan(entrypoint, handoff) == (PanePlanView::Adopt {
            default_name: env.context.workspace_label@,
        }),
{
    lemma_action_ids();
}

/// A popup's answer is the typed line without its leading and trailing
/// whitespace, everything between kept as typed: when `line[i]` is its first
/// character that is not whitespace and `line[j - 1]` its last, the answer is
/// `line[i..j]`. A line of whitespace only gives the default.
pub proof fn law_answer_is_the_line_trimmed(line: Seq<char>, default: Seq<char>, i: int, j: int)
    ensures
        (0 <= i < j <= line.len() && !crate::text::is_ws(line[i]) && !crate::text::is_ws(line[j - 1])
            && (forall|k: int| 0 <= k < i ==> crate::text::is_ws(#[trigger] line[k])) && (forall|k: int|
            j <= k < line.len() ==> crate::text::is_ws(#[trigger] line[k]))) ==> answer_spec(
            line,
            default,
        ) == line.subrange(i, j),
        crate::text::is_blank(line) ==> answer_spec(line, default) == default,
{
    if 0 <= i < j <= line.len() && !crate::text::is_ws(line[i]) && !crate::text::is_ws(line[j - 1])
        && (forall|k: int| 0 <= k < i ==> crate::text::is_ws(#[trigger] line[k])) && (forall|k: int|
        j <= k < line.len() ==> crate::text::is_ws(#[trigger] line[k])) {
        crate::text::law_trim_keeps_the_inside(line, i, j);
    }
    crate::text::lemma_blank_iff_trim_empty(line);
}

} // verus!
