//! The refusals of actions, popups and adoption, and the message each one
//! shows the user.

use vstd::prelude::*;

verus! {

/// The lifecycle state of a project.
#[derive(PartialEq, Eq, Structural, Clone, Copy, Debug)]
pub enum ProjectStatus {
    Active,
    Paused,
}

/// How a status is written in messages and listings.
pub open spec fn status_name(s: ProjectStatus) -> Seq<char> {
    match s {
        ProjectStatus::Active => "active"@,
        ProjectStatus::Paused => "paused"@,
    }
}

impl ProjectStatus {
    pub fn name(&self) -> (r: String)
        ensures
            r@ == status_name(*self),
    {
        match self {
            ProjectStatus::Active => String::from_str("active"),
            ProjectStatus::Paused => String::from_str("paused"),
        }
    }
}

/// A refusal.
#[derive(Debug)]
pub enum ProjectsError {
    /// The plugin state directory was not handed to the command.
    StateDirNotSet,
    /// The herdr socket path was not handed to the command.
    SocketNotSet,
    /// A `focus` action outside any project's workspace.
    NotInProject,
    /// An `adopt-workspace` action without a pane to adopt.
    NoPane,
    UnknownAction { id: String },
    /// A picker command other than `open`, `pause` or `resume`.
    NotFromPicker { command: String },
    UnknownPane { id: String },
    /// An empty project name in a popup.
    NoName,
    /// The agent list of the session could not be had.
    Unreachable { socket: String, detail: String },
    /// No agent runs in the pane.
    NoAgent { pane: String, socket: String },
    /// The pane is a project's coordinator.
    IsCoordinator { pane: String, slug: String },
    /// The pane already is a live thread of a project.
    AlreadyThread { pane: String, thread: String, slug: String },
    NotActive { slug: String, status: ProjectStatus },
    EmptyTitle,
    /// The project has no coordinator record yet.
    NeverOpened { slug: String },
    AlreadyExists { slug: String, root: String },
}

/// A refusal, with its texts as character sequences.
pub enum ErrorView {
    StateDirNotSet,
    SocketNotSet,
    NotInProject,
    NoPane,
    UnknownAction { id: Seq<char> },
    NotFromPicker { command: Seq<char> },
    UnknownPane { id: Seq<char> },
    NoName,
    Unreachable { socket: Seq<char>, detail: Seq<char> },
    NoAgent { pane: Seq<char>, socket: Seq<char> },
    IsCoordinator { pane: Seq<char>, slug: Seq<char> },
    AlreadyThread { pane: Seq<char>, thread: Seq<char>, slug: Seq<char> },
    NotActive { slug: Seq<char>, status: ProjectStatus },
    EmptyTitle,
    NeverOpened { slug: Seq<char> },
    AlreadyExists { slug: Seq<char>, root: Seq<char> },
}

impl View for ProjectsError {
    type V = ErrorView;

    open spec fn view(&self) -> ErrorView {
        match self {
            ProjectsError::StateDirNotSet => ErrorView::StateDirNotSet,
            ProjectsError::SocketNotSet => ErrorView::SocketNotSet,
            ProjectsError::NotInProject => ErrorView::NotInProject,
            ProjectsError::NoPane => ErrorView::NoPane,
            ProjectsError::UnknownAction { id } => ErrorView::UnknownAction { id: id@ },
            ProjectsError::NotFromPicker { command } => ErrorView::NotFromPicker {
                command: command@,
            },
            ProjectsError::UnknownPane { id } => ErrorView::UnknownPane { id: id@ },
            ProjectsError::NoName => ErrorView::NoName,
            ProjectsError::Unreachable { socket, detail } => ErrorView::Unreachable {
                socket: socket@,
                detail: detail@,
            },
            ProjectsError::NoAgent { pane, socket } => ErrorView::NoAgent {
                pane: pane@,
                socket: socket@,
            },
            ProjectsError::IsCoordinator { pane, slug } => ErrorView::IsCoordinator {
                pane: pane@,
                slug: slug@,
            },
            ProjectsError::AlreadyThread { pane, thread, slug } => ErrorView::AlreadyThread {
                pane: pane@,
                thread: thread@,
                slug: slug@,
            },
            ProjectsError::NotActive { slug, status } => ErrorView::NotActive {
                slug: slug@,
                status: *status,
            },
            ProjectsError::EmptyTitle => ErrorView::EmptyTitle,
            ProjectsError::NeverOpened { slug } => ErrorView::NeverOpened { slug: slug@ },
            ProjectsError::AlreadyExists { slug, root } => ErrorView::AlreadyExists {
                slug: slug@,
                root: root@,
            },
        }
    }
}

/// The message shown for a refusal.
pub open spec fn message(e: ErrorView) -> Seq<char> {
    match e {
        ErrorView::StateDirNotSet =>
            "HERDR_PLUGIN_STATE_DIR is not set: this command is meant to be run by herdr as a plugin action or pane"@,
        ErrorView::SocketNotSet =>
            "HERDR_SOCKET_PATH is not set: this command is meant to be run by herdr"@,
        ErrorView::NotInProject =>
            "this workspace does not belong to a project; run `focus <slug>` from a terminal"@,
        ErrorView::NoPane => "herdr did not say which pane this action was invoked from"@,
        ErrorView::UnknownAction { id } => "unknown action `"@ + id + "`"@,
        ErrorView::NotFromPicker { command } => "`"@ + command + "` cannot be run from the picker"@,
        ErrorView::UnknownPane { id } => "unknown pane `"@ + id + "`"@,
        ErrorView::NoName => "no name given"@,
        ErrorView::Unreachable { socket, detail } => "the herdr session at "@ + socket
            + " is not reachable: "@ + detail,
        ErrorView::NoAgent { pane, socket } => "no agent is detected in pane "@ + pane
            + " of the session at "@ + socket
            + "; only a running local agent pane can be adopted"@,
        ErrorView::IsCoordinator { pane, slug } => "pane "@ + pane + " is the coordinator of `"@
            + slug + "`"@,
        ErrorView::AlreadyThread { pane, thread, slug } => "pane "@ + pane
            + " is already thread "@ + thread + " of `"@ + slug + "`"@,
        ErrorView::NotActive { slug, status } => "`"@ + slug + "` is "@ + status_name(status)
            + "; adopting is refused until it is active again"@,
        ErrorView::EmptyTitle => "--title may not be empty"@,
        ErrorView::NeverOpened { slug } => "`"@ + slug + "` has never been opened; run `open "@
            + slug + "` first"@,
        ErrorView::AlreadyExists { slug, root } => "`"@ + slug + "` already exists in "@ + root,
    }
}

/// `a` followed by `b`.
pub fn join2(a: &str, b: &str) -> (r: String)
    ensures
        r@ == a@ + b@,
{
    let mut r = String::from_str(a);
    r.append(b);
    r
}

/// `a`, `b` and `c` one after another.
pub fn join3(a: &str, b: &str, c: &str) -> (r: String)
    ensures
        r@ == a@ + b@ + c@,
{
    let mut r = join2(a, b);
    r.append(c);
    r
}

impl ProjectsError {
    /// The message shown to the user for this refusal.
    pub fn message(&self) -> (r: String)
        ensures
            r@ == message(self@),
    {
        match self {
            ProjectsError::StateDirNotSet => String::from_str(
                "HERDR_PLUGIN_STATE_DIR is not set: this command is meant to be run by herdr as a plugin action or pane",
            ),
            ProjectsError::SocketNotSet => String::from_str(
                "HERDR_SOCKET_PATH is not set: this command is meant to be run by herdr",
            ),
            ProjectsError::NotInProject => String::from_str(
                "this workspace does not belong to a project; run `focus <slug>` from a terminal",
            ),
            ProjectsError::NoPane => String::from_str(
                "herdr did not say which pane this action was invoked from",
            ),
            ProjectsError::UnknownAction { id } => join3("unknown action `", id.as_str(), "`"),
            ProjectsError::NotFromPicker { command } => join3(
                "`",
                command.as_str(),
                "` cannot be run from the picker",
            ),
            ProjectsError::UnknownPane { id } => join3("unknown pane `", id.as_str(), "`"),
            ProjectsError::NoName => String::from_str("no name given"),
            ProjectsError::Unreachable { socket, detail } => {
                let mut r = join3("the herdr session at ", socket.as_str(), " is not reachable: ");
                r.append(detail.as_str());
                r
            },
            ProjectsError::NoAgent { pane, socket } => {
                let mut r = join3("no agent is detected in pane ", pane.as_str(), " of the session at ");
                r.append(socket.as_str());
                r.append("; only a running local agent pane can be adopted");
                r
            },
            ProjectsError::IsCoordinator { pane, slug } => {
                let mut r = join3("pane ", pane.as_str(), " is the coordinator of `");
                r.append(slug.as_str());
                r.append("`");
                r
            },
            ProjectsError::AlreadyThread { pane, thread, slug } => {
                let mut r = join3("pane ", pane.as_str(), " is already thread ");
                r.append(thread.as_str());
                r.append(" of `");
                r.append(slug.as_str());
                r.append("`");
                r
            },
            ProjectsError::NotActive { slug, status } => {
                let mut r = join3("`", slug.as_str(), "` is ");
                let name = status.name();
                r.append(name.as_str());
                r.append("; adopting is refused until it is active again");
                r
            },
            ProjectsError::EmptyTitle => String::from_str("--title may not be empty"),
            ProjectsError::NeverOpened { slug } => {
                let mut r = join3("`", slug.as_str(), "` has never been opened; run `open ");
                r.append(slug.as_str());
                r.append("` first");
                r
            },
            ProjectsError::AlreadyExists { slug, root } => {
                let mut r = join3("`", slug.as_str(), "` already exists in ");
                r.append(root.as_str());
                r
            },
        }
    }
}

} // verus!
