//! The orchestrator: all the decision and sequencing logic.
//!
//! Each operation takes the loaded workspace model and the names of the
//! sessions that are live right now, and returns either the lines to print
//! (listing) or the ordered host commands to run (attach, start). Nothing
//! here touches the host: the plans are plain values, so every ordering
//! and error rule is stated in the contracts below.

use vstd::prelude::*;
use vstd::string::StringExecFns;

use crate::config::RutConfig;
use crate::config::Window;
use crate::config::WorkspaceConfig;
use crate::config::WindowView;
use crate::config::WorkspaceConfigView;
use crate::config::find_workspace;
use crate::config::windows_of;
use crate::config::workspace_views;
use crate::config::workspaces_of;
use crate::host::HostCall;
use crate::host::HostCallView;
use crate::host::plan_view;

verus! {

/// The text typed into a fresh window: change to the window's directory,
/// then run its command, if it has one. The text is taken verbatim; no
/// shell escaping is applied.
pub open spec fn composed_text(w: WindowView) -> Seq<char> {
    match w.command {
        Some(c) => "cd "@ + w.dir + " && "@ + c,
        None => "cd "@ + w.dir,
    }
}

/// Builds the shell text to send for one window.
pub fn compose_command(w: &Window) -> (r: String)
    ensures
        r@ == composed_text(w@),
{
    let mut text = String::from_str("cd ");
    text.append(w.dir.as_str());
    match &w.command {
        Some(c) => {
            text.append(" && ");
            text.append(c.as_str());
        },
        None => {},
    }
    text
}

/// The views of the live session names, elementwise.
pub open spec fn name_views(v: Seq<String>) -> Seq<Seq<char>> {
    v.map_values(|s: String| s@)
}

/// Whether one of the strings in `v` reads as `name`.
fn contains_name(v: &Vec<String>, name: &String) -> (r: bool)
    ensures
        r == name_views(v@).contains(name@),
{
    let n = v.len();
    let mut i: usize = 0;
    while i < n
        invariant
            n == v@.len(),
            i <= n,
            forall|j: int| 0 <= j < i ==> name_views(v@)[j] != name@,
        decreases n - i,
    {
        if v[i] == *name {
            assert(name_views(v@)[i as int] == name@);
            return true;
        }
        i += 1;
    }
    assert(forall|j: int| 0 <= j < name_views(v@).len() ==> name_views(v@)[j] != name@);
    false
}

/// Attaching to a session that is not live is refused; no host command is
/// issued for it.
#[derive(Debug, Clone, Copy, PartialEq, Eq, Structural)]
pub enum AttachError {
    SessionNotFound,
}

/// Decides an attach request: the one attach command when a live session
/// is named exactly `name`, and an error — hence an empty plan — when none
/// is.
pub fn plan_attach(live: &Vec<String>, name: &String) -> (r: Result<HostCall, AttachError>)
    ensures
        match r {
            Ok(call) => name_views(live@).contains(name@) && call@ == (HostCallView::AttachSession {
                session: name@,
            }),
            Err(e) => !name_views(live@).contains(name@) && e == AttachError::SessionNotFound,
        },
{
    if contains_name(live, name) {
        Ok(HostCall::AttachSession { session: name.clone() })
    } else {
        Err(AttachError::SessionNotFound)
    }
}

/// Starting a workspace fails without any host command when the name is
/// not declared, or when the declared workspace has no window to create
/// the session with.
#[derive(Debug, Clone, Copy, PartialEq, Eq, Structural)]
pub enum StartError {
    WorkspaceNotFound,
    NoWindows,
}

/// Whether the workspace at index `i` is the first one named `name`.
pub open spec fn first_match_at(ws: Seq<WorkspaceConfigView>, name: Seq<char>, i: int) -> bool {
    &&& 0 <= i < ws.len()
    &&& ws[i].name == name
    &&& forall|j: int| 0 <= j < i ==> ws[j].name != name
}

/// The full command sequence that materializes workspace `w`: create the
/// session, detached, with the first window; type that window's composed
/// text; then, for each later window in declared order, create it and type
/// its text.
pub open spec fn start_plan(w: WorkspaceConfigView) -> Seq<HostCallView> {
    let windows = windows_of(w);
    Seq::new(
        2 * windows.len(),
        |i: int|
            if i == 0 {
                HostCallView::CreateSession { session: w.name, window: windows[0].name }
            } else if i % 2 == 0 {
                HostCallView::CreateWindow { window: windows[i / 2].name }
            } else {
                HostCallView::SendKeys { text: composed_text(windows[(i - 1) / 2]) }
            },
    )
}

/// Decides a start request: the exact command sequence `start_plan` for
/// the first declared workspace named `name`, or the error that says why
/// nothing may run.
pub fn plan_start(config: &RutConfig, name: &String) -> (r: Result<Vec<HostCall>, StartError>)
    ensures
        match r {
            Ok(plan) => exists|i: int|
                {
                    &&& #[trigger] first_match_at(workspaces_of(config@), name@, i)
                    &&& windows_of(workspaces_of(config@)[i]).len() > 0
                    &&& plan_view(plan@) == start_plan(workspaces_of(config@)[i])
                },
            Err(StartError::WorkspaceNotFound) => forall|j: int|
                0 <= j < workspaces_of(config@).len() ==> workspaces_of(config@)[j].name != name@,
            Err(StartError::NoWindows) => exists|i: int|
                {
                    &&& #[trigger] first_match_at(workspaces_of(config@), name@, i)
                    &&& windows_of(workspaces_of(config@)[i]).len() == 0
                },
        },
{
    let empty_list: Vec<WorkspaceConfig> = Vec::new();
    let workspaces: &Vec<WorkspaceConfig> = match &config.workspaces {
        Some(v) => v,
        None => &empty_list,
    };
    proof {
        assert(workspace_views(workspaces@) =~= workspaces_of(config@));
    }
    let idx = match find_workspace(workspaces, name) {
        Some(i) => i,
        None => {
            return Err(StartError::WorkspaceNotFound);
        },
    };
    let workspace = &workspaces[idx];
    let ghost wsv = workspaces_of(config@)[idx as int];
    proof {
        assert(wsv == workspace@);
        assert(first_match_at(workspaces_of(config@), name@, idx as int));
    }
    let windows: &Vec<Window> = match &workspace.windows {
        Some(v) => v,
        None => {
            return Err(StartError::NoWindows);
        },
    };
    if windows.len() == 0 {
        return Err(StartError::NoWindows);
    }
    proof {
        assert(windows_of(wsv) == crate::config::window_views(windows@));
    }
    let mut plan: Vec<HostCall> = Vec::new();
    plan.push(
        HostCall::CreateSession { session: workspace.name.clone(), window: windows[0].name.clone() },
    );
    plan.push(HostCall::SendKeys { text: compose_command(&windows[0]) });
    proof {
        assert(plan_view(plan@) =~= start_plan(wsv).take(2));
    }
    let n = windows.len();
    let mut k: usize = 1;
    while k < n
        invariant
            n == windows@.len(),
            1 <= k <= n,
            windows_of(wsv) == crate::config::window_views(windows@),
            plan@.len() == 2 * k,
            plan_view(plan@) == start_plan(wsv).take(2 * k as int),
        decreases n - k,
    {
        plan.push(HostCall::CreateWindow { window: windows[k].name.clone() });
        plan.push(HostCall::SendKeys { text: compose_command(&windows[k]) });
        proof {
            assert(plan_view(plan@) =~= start_plan(wsv).take(2 * (k + 1) as int));
        }
        k += 1;
    }
    proof {
        assert(start_plan(wsv).take(2 * n as int) =~= start_plan(wsv));
        assert(windows_of(wsv).len() > 0);
    }
    Ok(plan)
}

/// The declared names of a sequence of workspaces, in declared order.
pub open spec fn names_of(ws: Seq<WorkspaceConfigView>) -> Seq<Seq<char>> {
    ws.map_values(|w: WorkspaceConfigView| w.name)
}

/// The running listing: the declared names that are live, each kept once,
/// in the order of their first declaration.
pub open spec fn running_names(names: Seq<Seq<char>>, live: Seq<Seq<char>>) -> Seq<Seq<char>>
    decreases names.len(),
{
    if names.len() == 0 {
        Seq::empty()
    } else {
        let prefix = running_names(names.drop_last(), live);
        if live.contains(names.last()) && !prefix.contains(names.last()) {
            prefix.push(names.last())
        } else {
            prefix
        }
    }
}

proof fn lemma_contains_drop_last(s: Seq<Seq<char>>, x: Seq<char>)
    requires
        s.len() > 0,
    ensures
        s.contains(x) <==> (s.drop_last().contains(x) || s.last() == x),
{
    if s.contains(x) {
        let i = choose|i: int| 0 <= i < s.len() && s[i] == x;
        if i < s.len() - 1 {
            assert(s.drop_last()[i] == x);
            assert(s.drop_last().contains(x));
        }
    }
    if s.drop_last().contains(x) {
        let i = choose|i: int| 0 <= i < s.drop_last().len() && s.drop_last()[i] == x;
        assert(s[i] == x);
    }
    if s.last() == x {
        assert(s[s.len() - 1] == x);
    }
}

proof fn lemma_running_names_elements(names: Seq<Seq<char>>, live: Seq<Seq<char>>, x: Seq<char>)
    ensures
        running_names(names, live).contains(x) <==> (names.contains(x) && live.contains(x)),
    decreases names.len(),
{
    broadcast use vstd::seq_lib::lemma_seq_contains_after_push;

    if names.len() > 0 {
        lemma_running_names_elements(names.drop_last(), live, x);
        lemma_contains_drop_last(names, x);
    }
}

proof fn lemma_running_names_distinct(names: Seq<Seq<char>>, live: Seq<Seq<char>>)
    ensures
        forall|i: int, j: int|
            0 <= i < j < running_names(names, live).len() ==> running_names(names, live)[i]
                != running_names(names, live)[j],
    decreases names.len(),
{
    broadcast use vstd::prelude::Seq::lemma_index_contains;

    if names.len() > 0 {
        lemma_running_names_distinct(names.drop_last(), live);
        let prefix = running_names(names.drop_last(), live);
        let r = running_names(names, live);
        if live.contains(names.last()) && !prefix.contains(names.last()) {
            assert forall|i: int, j: int| 0 <= i < j < r.len() implies r[i] != r[j] by {
                if j == r.len() - 1 {
                    assert(r[i] == prefix[i]);
                    assert(prefix.contains(prefix[i]));
                } else {
                    assert(r[i] == prefix[i] && r[j] == prefix[j]);
                }
            }
        }
    }
}

/// Law: the running listing holds exactly the names that are both declared
/// and live — the intersection of the two name sets — and holds no name
/// twice.
pub proof fn lemma_running_names_is_intersection(names: Seq<Seq<char>>, live: Seq<Seq<char>>)
    ensures
        running_names(names, live).to_set() == names.to_set().intersect(live.to_set()),
        forall|i: int, j: int|
            0 <= i < j < running_names(names, live).len() ==> running_names(names, live)[i]
                != running_names(names, live)[j],
{
    broadcast use vstd::set::group_set_axioms;

    lemma_running_names_distinct(names, live);
    assert forall|x: Seq<char>|
        running_names(names, live).to_set().contains(x)
            == names.to_set().intersect(live.to_set()).contains(x) by {
        lemma_running_names_elements(names, live, x);
    }
    assert(running_names(names, live).to_set() =~= names.to_set().intersect(live.to_set()));
}

proof fn lemma_running_names_step(names: Seq<Seq<char>>, live: Seq<Seq<char>>, i: int)
    requires
        0 <= i < names.len(),
    ensures
        running_names(names.take(i + 1), live) == {
            let prefix = running_names(names.take(i), live);
            if live.contains(names[i]) && !prefix.contains(names[i]) {
                prefix.push(names[i])
            } else {
                prefix
            }
        },
{
    let s = names.take(i + 1);
    assert(s.drop_last() =~= names.take(i));
    assert(s.last() == names[i]);
}

/// Lists the declared workspaces that are live right now: each such name
/// once, in the order of its first declaration.
pub fn list_running(config: &RutConfig, live: &Vec<String>) -> (r: Vec<String>)
    ensures
        name_views(r@) == running_names(
            names_of(workspaces_of(config@)),
            name_views(live@),
        ),
{
    let empty_list: Vec<WorkspaceConfig> = Vec::new();
    let workspaces: &Vec<WorkspaceConfig> = match &config.workspaces {
        Some(v) => v,
        None => &empty_list,
    };
    proof {
        assert(workspace_views(workspaces@) =~= workspaces_of(config@));
    }
    let ghost names = names_of(workspaces_of(config@));
    let n = workspaces.len();
    let mut result: Vec<String> = Vec::new();
    let mut i: usize = 0;
    while i < n
        invariant
            n == workspaces@.len(),
            i <= n,
            workspace_views(workspaces@) == workspaces_of(config@),
            names == names_of(workspaces_of(config@)),
            name_views(result@) == running_names(names.take(i as int), name_views(live@)),
        decreases n - i,
    {
        let name = &workspaces[i].name;
        proof {
            assert(names[i as int] == name@);
            lemma_running_names_step(names, name_views(live@), i as int);
        }
        let is_live = contains_name(live, name);
        let seen = contains_name(&result, name);
        if is_live && !seen {
            let ghost before = name_views(result@);
            result.push(name.clone());
            proof {
                assert(name_views(result@) =~= before.push(name@));
            }
        }
        i += 1;
    }
    proof {
        assert(names.take(n as int) =~= names);
    }
    result
}

/// One line of the full listing: the declared name, led by a `*` marker
/// exactly when a live session bears it.
pub open spec fn listing_line(name: Seq<char>, live: Seq<Seq<char>>) -> Seq<char> {
    if live.contains(name) {
        "*"@ + name
    } else {
        name
    }
}

/// Lists every declared workspace, one line each in declared order, marking
/// the ones that are live right now.
pub fn list_lines(config: &RutConfig, live: &Vec<String>) -> (r: Vec<String>)
    ensures
        r@.len() == workspaces_of(config@).len(),
        forall|i: int|
            0 <= i < r@.len() ==> r@[i]@ == listing_line(
                workspaces_of(config@)[i].name,
                name_views(live@),
            ),
{
    let empty_list: Vec<WorkspaceConfig> = Vec::new();
    let workspaces: &Vec<WorkspaceConfig> = match &config.workspaces {
        Some(v) => v,
        None => &empty_list,
    };
    proof {
        assert(workspace_views(workspaces@) =~= workspaces_of(config@));
    }
    let n = workspaces.len();
    let mut result: Vec<String> = Vec::new();
    let mut i: usize = 0;
    while i < n
        invariant
            n == workspaces@.len(),
            i <= n,
            workspace_views(workspaces@) == workspaces_of(config@),
            result@.len() == i,
            forall|j: int|
                0 <= j < i ==> result@[j]@ == listing_line(
                    workspaces_of(config@)[j].name,
                    name_views(live@),
                ),
        decreases n - i,
    {
        let name = &workspaces[i].name;
        if contains_name(live, name) {
            let mut line = String::from_str("*");
            line.append(name.as_str());
            result.push(line);
        } else {
            result.push(name.clone());
        }
        i += 1;
    }
    result
}

/// The message reported when an attach target has no live session.
pub fn attach_not_found_message(name: &String) -> (r: String)
    ensures
        r@ == "Workspace \""@ + name@ + "\", not found."@,
{
    let mut text = String::from_str("Workspace \"");
    text.append(name.as_str());
    text.append("\", not found.");
    text
}

} // verus!

