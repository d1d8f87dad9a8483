//! The workspace model: the typed, validated form of the configuration.
//!
//! A `RutConfig` holds the declared workspaces; each `WorkspaceConfig` names
//! a session-to-be and lists its windows in creation order; each `Window`
//! carries a name, a working directory, and an optional startup command.

use vstd::prelude::*;

verus! {

/// One window of a workspace: its name, the command to run in it (if any),
/// and the directory it starts in.
#[derive(Debug, Clone)]
pub struct Window {
    pub name: String,
    pub command: Option<String>,
    pub dir: String,
}

/// Mathematical image of a `Window`: every string as a sequence of chars.
#[verifier::ext_equal]
pub struct WindowView {
    pub name: Seq<char>,
    pub command: Option<Seq<char>>,
    pub dir: Seq<char>,
}

impl View for Window {
    type V = WindowView;

    open spec fn view(&self) -> WindowView {
        WindowView {
            name: self.name@,
            command: match self.command {
                Some(c) => Some(c@),
                None => None,
            },
            dir: self.dir@,
        }
    }
}

impl PartialEq for Window {
    fn eq(&self, other: &Window) -> (r: bool) {
        let names_eq = self.name == other.name;
        let dirs_eq = self.dir == other.dir;
        let commands_eq = match (&self.command, &other.command) {
            (Some(a), Some(b)) => *a == *b,
            (None, None) => true,
            _ => false,
        };
        proof {
            if names_eq && dirs_eq && commands_eq {
                assert(self@ =~= other@);
            }
        }
        names_eq && dirs_eq && commands_eq
    }
}

impl vstd::std_specs::cmp::PartialEqSpecImpl for Window {
    open spec fn obeys_eq_spec() -> bool {
        true
    }

    open spec fn eq_spec(&self, other: &Window) -> bool {
        self@ == other@
    }
}

/// One declared workspace: the session name and the windows to create for
/// it, in creation order. The first window is made together with the
/// session itself; the rest follow in sequence.
#[derive(Debug, Clone)]
pub struct WorkspaceConfig {
    pub name: String,
    pub windows: Option<Vec<Window>>,
}

/// Mathematical image of a `WorkspaceConfig`.
#[verifier::ext_equal]
pub struct WorkspaceConfigView {
    pub name: Seq<char>,
    pub windows: Option<Seq<WindowView>>,
}

/// The views of a sequence of windows, elementwise.
pub open spec fn window_views(v: Seq<Window>) -> Seq<WindowView> {
    v.map_values(|w: Window| w@)
}

impl View for WorkspaceConfig {
    type V = WorkspaceConfigView;

    open spec fn view(&self) -> WorkspaceConfigView {
        WorkspaceConfigView {
            name: self.name@,
            windows: match self.windows {
                Some(v) => Some(window_views(v@)),
                None => None,
            },
        }
    }
}

/// The windows a workspace effectively declares: an absent list counts as
/// an empty one.
pub open spec fn windows_of(w: WorkspaceConfigView) -> Seq<WindowView> {
    match w.windows {
        Some(v) => v,
        None => Seq::empty(),
    }
}

fn windows_eq(a: &Vec<Window>, b: &Vec<Window>) -> (r: bool)
    ensures
        r == (window_views(a@) == window_views(b@)),
{
    if a.len() != b.len() {
        assert(window_views(a@).len() != window_views(b@).len());
        return false;
    }
    let n = a.len();
    let mut i: usize = 0;
    while i < n
        invariant
            n == a@.len() == b@.len(),
            i <= n,
            forall|j: int| 0 <= j < i ==> a@[j]@ == b@[j]@,
        decreases n - i,
    {
        if !(a[i] == b[i]) {
            assert(window_views(a@)[i as int] != window_views(b@)[i as int]);
            return false;
        }
        i += 1;
    }
    assert(window_views(a@) =~= window_views(b@));
    true
}

impl PartialEq for WorkspaceConfig {
    fn eq(&self, other: &WorkspaceConfig) -> (r: bool) {
        let names_eq = self.name == other.name;
        let windows_same = match (&self.windows, &other.windows) {
            (Some(a), Some(b)) => windows_eq(a, b),
            (None, None) => true,
            _ => false,
        };
        proof {
            if names_eq && windows_same {
                assert(self@ =~= other@);
            }
        }
        names_eq && windows_same
    }
}

impl vstd::std_specs::cmp::PartialEqSpecImpl for WorkspaceConfig {
    open spec fn obeys_eq_spec() -> bool {
        true
    }

    open spec fn eq_spec(&self, other: &WorkspaceConfig) -> bool {
        self@ == other@
    }
}

/// The whole loaded configuration: the declared workspaces, if any.
#[derive(Debug)]
pub struct RutConfig {
    pub workspaces: Option<Vec<WorkspaceConfig>>,
}

/// Mathematical image of a `RutConfig`.
#[verifier::ext_equal]
pub struct RutConfigView {
    pub workspaces: Option<Seq<WorkspaceConfigView>>,
}

/// The views of a sequence of workspaces, elementwise.
pub open spec fn workspace_views(v: Seq<WorkspaceConfig>) -> Seq<WorkspaceConfigView> {
    v.map_values(|w: WorkspaceConfig| w@)
}

impl View for RutConfig {
    type V = RutConfigView;

    open spec fn view(&self) -> RutConfigView {
        RutConfigView {
            workspaces: match self.workspaces {
                Some(v) => Some(workspace_views(v@)),
                None => None,
            },
        }
    }
}

/// The workspaces a configuration effectively declares: an absent list
/// counts as an empty one.
pub open spec fn workspaces_of(c: RutConfigView) -> Seq<WorkspaceConfigView> {
    match c.workspaces {
        Some(v) => v,
        None => Seq::empty(),
    }
}

/// The first workspace of `ws` named `name`, if any, as its index.
pub fn find_workspace(ws: &Vec<WorkspaceConfig>, name: &String) -> (r: Option<usize>)
    ensures
        match r {
            Some(i) => {
                &&& i < ws@.len()
                &&& workspace_views(ws@)[i as int].name == name@
                &&& forall|j: int| 0 <= j < i ==> workspace_views(ws@)[j].name != name@
            },
            None => forall|j: int| 0 <= j < ws@.len() ==> workspace_views(ws@)[j].name != name@,
        },
{
    let n = ws.len();
    let mut i: usize = 0;
    while i < n
        invariant
            n == ws@.len(),
            i <= n,
            forall|j: int| 0 <= j < i ==> workspace_views(ws@)[j].name != name@,
        decreases n - i,
    {
        if ws[i].name == *name {
            return Some(i);
        }
        i += 1;
    }
    None
}

impl RutConfig {
    /// Looks a workspace up by exact name: the first declared workspace
    /// whose name equals `name`, or `None` when no workspace matches.
    pub fn lookup<'a>(&'a self, name: &String) -> (r: Option<&'a WorkspaceConfig>)
        ensures
            match r {
                Some(w) => exists|i: int|
                    {
                        &&& 0 <= i < workspaces_of(self@).len()
                        &&& #[trigger] workspaces_of(self@)[i] == w@
                        &&& workspaces_of(self@)[i].name == name@
                        &&& forall|j: int| 0 <= j < i ==> workspaces_of(self@)[j].name != name@
                    },
                None => forall|j: int|
                    0 <= j < workspaces_of(self@).len() ==> workspaces_of(self@)[j].name != name@,
            },
    {
        match &self.workspaces {
            Some(v) => match find_workspace(v, name) {
                Some(i) => {
                    let w = &v[i];
                    proof {
                        assert(workspaces_of(self@)[i as int] == w@);
                    }
                    Some(w)
                },
                None => None,
            },
            None => None,
        }
    }
}

} // verus!
