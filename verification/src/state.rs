//! Canonical application state: navigation, settings, notices and the
//! progress of the demonstration task.

use vstd::prelude::*;

use crate::config::{AppSettings, ThemePreference};
use crate::domain::{TaskProgress, TaskState};
use crate::minecraft::catalog::{CatalogSource, CatalogUpdate};
use crate::minecraft::metadata::{VersionKind, VersionManifest, VersionSummary};

verus! {

#[derive(Debug, Clone, Copy, PartialEq, Eq, Structural)]
pub enum Page {
    Home,
    Instances,
    Downloads,
    Accounts,
    Logs,
    Settings,
}

/// The display name of a page.
pub open spec fn page_title(page: Page) -> Seq<char> {
    match page {
        Page::Home => "Home"@,
        Page::Instances => "Instances"@,
        Page::Downloads => "Downloads"@,
        Page::Accounts => "Accounts"@,
        Page::Logs => "Logs"@,
        Page::Settings => "Settings"@,
    }
}

/// The display name of a page.
pub fn page_name(page: Page) -> (r: &'static str)
    ensures
        r@ == page_title(page),
{
    match page {
        Page::Home => "Home",
        Page::Instances => "Instances",
        Page::Downloads => "Downloads",
        Page::Accounts => "Accounts",
        Page::Logs => "Logs",
        Page::Settings => "Settings",
    }
}

/// The window title for a page.
pub fn window_title(page: Page) -> (r: String)
    ensures
        r@ == "Andromeda Client — "@ + page_title(page),
{
    let mut r = String::from_str("Andromeda Client — ");
    r.append(page_name(page));
    r
}

impl Default for Page {
    /// The home page.
    fn default() -> (r: Self)
        ensures
            r == Page::Home,
    {
        Page::Home
    }
}

/// The phase label of the demonstration at a completed count.
pub open spec fn demo_phase(completed: u64) -> Seq<char> {
    if completed <= 24 {
        "Preparing installation plan"@
    } else if completed <= 69 {
        "Downloading libraries"@
    } else if completed <= 94 {
        "Verifying assets"@
    } else {
        "Finalizing"@
    }
}

fn demo_phase_text(completed: u64) -> (r: String)
    ensures
        r@ == demo_phase(completed),
{
    if completed <= 24 {
        String::from_str("Preparing installation plan")
    } else if completed <= 69 {
        String::from_str("Downloading libraries")
    } else if completed <= 94 {
        String::from_str("Verifying assets")
    } else {
        String::from_str("Finalizing")
    }
}

/// The state of the version catalog as the UI shows it.
#[derive(Debug, Clone)]
pub enum CatalogState {
    NotLoaded,
    Loading,
    Ready { manifest: VersionManifest, source: CatalogSource, warning: Option<String> },
    Failed(String),
}

/// The application state.
#[derive(Debug, Clone)]
pub struct AppState {
    pub page: Page,
    pub settings: AppSettings,
    pub recovery_notice: Option<String>,
    pub task: Option<TaskProgress>,
    pub catalog: CatalogState,
}

/// What the user or the runtime asks of the application.
#[derive(Debug)]
pub enum UiEvent {
    Navigate(Page),
    StartDemo,
    CancelDemo,
    Tick,
    DismissNotice,
    SetTheme(ThemePreference),
    ToggleSnapshots,
    RefreshCatalog,
    CatalogLoaded(Result<CatalogUpdate, String>),
}

/// Work the shell must perform after an event.
#[derive(Debug, Clone, Copy, PartialEq, Eq, Structural)]
pub enum UiEffect {
    Nothing,
    PersistSettings,
    RefreshCatalog,
}

/// The task after one tick: a running task advances by two, stops at its
/// total, is relabelled for its new count, and completes on reaching the
/// total; other tasks are unchanged.
pub open spec fn ticked(t: TaskProgress, next: TaskProgress) -> bool {
    if t.state == TaskState::Running {
        let c = if t.completed + 2 <= t.total { (t.completed + 2) as u64 } else { t.total };
        &&& next.completed == c
        &&& next.total == t.total
        &&& next.phase@ == demo_phase(c)
        &&& next.state == if c == t.total { TaskState::Completed } else { TaskState::Running }
    } else {
        next == t
    }
}

/// The task right after the demonstration starts: running, at 0 of 100.
pub open spec fn demo_started(task: Option<TaskProgress>) -> bool {
    task matches Some(t) && t.state == TaskState::Running && t.completed == 0 && t.total == 100
        && t.phase@ == "Preparing installation plan"@
}

/// A tick is defined: a running task's count can advance by two.
pub open spec fn tick_allowed(task: Option<TaskProgress>) -> bool {
    task matches Some(t) ==> (t.state == TaskState::Running ==> t.completed + 2 <= u64::MAX)
}

/// The optional task after one tick (see `ticked`).
pub open spec fn task_ticked(before: Option<TaskProgress>, after: Option<TaskProgress>) -> bool {
    match before {
        None => after is None,
        Some(t) => after matches Some(n) && ticked(t, n),
    }
}

/// The optional task after cancellation: a running task is cancelled with its
/// count kept; any other task is unchanged.
pub open spec fn task_cancelled(before: Option<TaskProgress>, after: Option<TaskProgress>) -> bool {
    match before {
        None => after is None,
        Some(t) => after matches Some(n) && if t.state == TaskState::Running {
            n.state == TaskState::Cancelled && n.completed == t.completed && n.total == t.total
                && n.phase@ == "Cancelled safely"@
        } else {
            n == t
        },
    }
}

/// The state after an event, and the effect the shell must perform.
pub open spec fn update_spec(s: AppState, event: UiEvent, n: AppState, effect: UiEffect) -> bool {
    match event {
        UiEvent::Navigate(p) => n == AppState { page: p, ..s } && effect == UiEffect::Nothing,
        UiEvent::StartDemo => {
            &&& n.page == Page::Downloads
            &&& n.settings == s.settings
            &&& n.recovery_notice == s.recovery_notice
            &&& n.catalog == s.catalog
            &&& demo_started(n.task)
            &&& effect == UiEffect::Nothing
        },
        UiEvent::CancelDemo => {
            &&& n.page == s.page
            &&& n.settings == s.settings
            &&& n.recovery_notice == s.recovery_notice
            &&& n.catalog == s.catalog
            &&& task_cancelled(s.task, n.task)
            &&& effect == UiEffect::Nothing
        },
        UiEvent::Tick => {
            &&& n.page == s.page
            &&& n.settings == s.settings
            &&& n.recovery_notice == s.recovery_notice
            &&& n.catalog == s.catalog
            &&& task_ticked(s.task, n.task)
            &&& effect == UiEffect::Nothing
        },
        UiEvent::DismissNotice => n == AppState { recovery_notice: None, ..s } && effect
            == UiEffect::Nothing,
        UiEvent::SetTheme(theme) => n == AppState { settings: AppSettings { theme, ..s.settings }, ..s }
            && effect == UiEffect::PersistSettings,
        UiEvent::ToggleSnapshots => n == AppState {
            settings: AppSettings { show_snapshots: !s.settings.show_snapshots, ..s.settings },
            ..s
        } && effect == UiEffect::PersistSettings,
        UiEvent::RefreshCatalog => n == AppState { catalog: CatalogState::Loading, ..s } && effect
            == UiEffect::RefreshCatalog,
        UiEvent::CatalogLoaded(result) => n == AppState {
            catalog: match result {
                Ok(u) => CatalogState::Ready { manifest: u.manifest, source: u.source, warning: u.warning },
                Err(e) => CatalogState::Failed(e),
            },
            ..s
        } && effect == UiEffect::Nothing,
    }
}

impl AppState {
    /// The state at start-up: the home page, no task.
    pub fn new(settings: AppSettings, recovery_notice: Option<String>) -> (r: AppState)
        ensures
            r.page == Page::Home,
            r.settings == settings,
            r.recovery_notice == recovery_notice,
            r.task is None,
            r.catalog is NotLoaded,
    {
        AppState { page: Page::Home, settings, recovery_notice, task: None, catalog: CatalogState::NotLoaded }
    }

    /// Whether a task is running, so progress ticks are wanted.
    pub fn task_running(&self) -> (r: bool)
        ensures
            r == (self.task matches Some(t) && t.state == TaskState::Running),
    {
        match &self.task {
            Some(t) => t.state == TaskState::Running,
            None => false,
        }
    }

    /// Whether a tick can be applied: a running task's count can still
    /// advance by two without overflowing.
    pub fn can_tick(&self) -> (r: bool)
        ensures
            r == tick_allowed(self.task),
    {
        match &self.task {
            Some(t) => t.state != TaskState::Running || t.completed <= u64::MAX - 2,
            None => true,
        }
    }

    /// Reports that the settings could not be saved.
    pub fn report_save_failure(&mut self, error: &str)
        ensures
            final(self).page == old(self).page,
            final(self).settings == old(self).settings,
            final(self).task == old(self).task,
            final(self).catalog == old(self).catalog,
            final(self).recovery_notice matches Some(n) && n@ == "Your settings could not be saved: "@
                + error@,
    {
        let mut notice = String::from_str("Your settings could not be saved: ");
        notice.append(error);
        self.recovery_notice = Some(notice);
    }

    /// Applies an event (see `update_spec`): navigation, the demonstration
    /// task, notices, settings changes (which must then be persisted) and
    /// catalog refreshes (which must then be performed).
    pub fn update(&mut self, event: UiEvent) -> (effect: UiEffect)
        requires
            event is Tick ==> tick_allowed(old(self).task),
        ensures
            update_spec(*old(self), event, *final(self), effect),
    {
        match event {
            UiEvent::Navigate(page) => {
                self.page = page;
            },
            UiEvent::StartDemo => {
                self.start_demo();
                self.page = Page::Downloads;
            },
            UiEvent::CancelDemo => self.cancel_demo(),
            UiEvent::Tick => self.tick(),
            UiEvent::DismissNotice => {
                self.recovery_notice = None;
            },
            UiEvent::SetTheme(theme) => {
                self.settings.theme = theme;
                return UiEffect::PersistSettings;
            },
            UiEvent::ToggleSnapshots => {
                self.settings.show_snapshots = !self.settings.show_snapshots;
                return UiEffect::PersistSettings;
            },
            UiEvent::RefreshCatalog => {
                self.catalog = CatalogState::Loading;
                return UiEffect::RefreshCatalog;
            },
            UiEvent::CatalogLoaded(result) => {
                self.catalog = match result {
                    Ok(update) => CatalogState::Ready {
                        manifest: update.manifest,
                        source: update.source,
                        warning: update.warning,
                    },
                    Err(error) => CatalogState::Failed(error),
                };
            },
        }
        UiEffect::Nothing
    }

    /// Starts the demonstration task: running, at 0 of 100.
    pub fn start_demo(&mut self)
        ensures
            final(self).page == old(self).page,
            final(self).settings == old(self).settings,
            final(self).recovery_notice == old(self).recovery_notice,
            final(self).catalog == old(self).catalog,
            demo_started(final(self).task),
    {
        self.task = Some(TaskProgress {
            state: TaskState::Running,
            completed: 0,
            total: 100,
            phase: String::from_str("Preparing installation plan"),
        });
    }

    /// Advances a running task by one step (see `ticked`).
    pub fn tick(&mut self)
        requires
            tick_allowed(old(self).task),
        ensures
            final(self).page == old(self).page,
            final(self).settings == old(self).settings,
            final(self).recovery_notice == old(self).recovery_notice,
            final(self).catalog == old(self).catalog,
            task_ticked(old(self).task, final(self).task),
    {
        match &mut self.task {
            None => {},
            Some(task) => {
                if task.state == TaskState::Running {
                    let next = task.completed + 2;
                    task.completed = if next <= task.total { next } else { task.total };
                    task.phase = demo_phase_text(task.completed);
                    if task.completed == task.total {
                        task.state = TaskState::Completed;
                    }
                }
            },
        }
    }

    /// Cancels a running task; other tasks are unchanged.
    pub fn cancel_demo(&mut self)
        ensures
            final(self).page == old(self).page,
            final(self).settings == old(self).settings,
            final(self).recovery_notice == old(self).recovery_notice,
            final(self).catalog == old(self).catalog,
            task_cancelled(old(self).task, final(self).task),
    {
        match &mut self.task {
            None => {},
            Some(task) => {
                if task.state == TaskState::Running {
                    task.state = TaskState::Cancelled;
                    task.phase = String::from_str("Cancelled safely");
                }
            },
        }
    }
}

/// Whether a listed version is shown: releases always, others only when
/// snapshots are shown.
pub open spec fn version_shown(v: VersionSummary, show_snapshots: bool) -> bool {
    show_snapshots || v.kind == VersionKind::Release
}

/// The indices below `n` of the versions shown, in order.
pub open spec fn shown_indices(vs: Seq<VersionSummary>, show_snapshots: bool, n: int) -> Seq<usize>
    decreases n,
{
    if n <= 0 {
        Seq::empty()
    } else if version_shown(vs[n - 1], show_snapshots) {
        shown_indices(vs, show_snapshots, n - 1).push((n - 1) as usize)
    } else {
        shown_indices(vs, show_snapshots, n - 1)
    }
}

/// Most versions the catalog list shows.
pub const VERSION_LIST_LIMIT: usize = 40;

proof fn lemma_shown_indices_len(vs: Seq<VersionSummary>, show: bool, m: int, n: int)
    requires
        0 <= m <= n,
    ensures
        shown_indices(vs, show, m).len() <= shown_indices(vs, show, n).len(),
        shown_indices(vs, show, n).take(shown_indices(vs, show, m).len() as int) == shown_indices(vs, show, m),
    decreases n - m,
{
    if n > m {
        lemma_shown_indices_len(vs, show, m, n - 1);
        let a = shown_indices(vs, show, n - 1);
        let k = shown_indices(vs, show, m).len() as int;
        if version_shown(vs[n - 1], show) {
            assert(a.push((n - 1) as usize).take(k) =~= a.take(k));
        }
    } else {
        assert(shown_indices(vs, show, n).take(shown_indices(vs, show, n).len() as int) =~= shown_indices(vs, show, n));
    }
}

/// The indices of the versions the catalog list shows: the first 40 that are
/// releases, or of any kind when snapshots are shown.
pub fn visible_versions(versions: &Vec<VersionSummary>, show_snapshots: bool) -> (r: Vec<usize>)
    ensures
        r@ == {
            let all = shown_indices(versions@, show_snapshots, versions@.len() as int);
            if all.len() <= 40 {
                all
            } else {
                all.take(40)
            }
        },
{
    let mut r: Vec<usize> = Vec::new();
    let mut i: usize = 0;
    while i < versions.len()
        invariant
            i <= versions.len(),
            r@ == {
                let all = shown_indices(versions@, show_snapshots, i as int);
                if all.len() <= 40 {
                    all
                } else {
                    all.take(40)
                }
            },
        decreases versions.len() - i,
    {
        let ghost before = shown_indices(versions@, show_snapshots, i as int);
        proof {
            lemma_shown_indices_len(versions@, show_snapshots, i as int, i + 1);
        }
        if r.len() < VERSION_LIST_LIMIT && (show_snapshots || versions[i].kind == VersionKind::Release) {
            r.push(i);
        }
        i += 1;
        let ghost after = shown_indices(versions@, show_snapshots, i as int);
        assert(r@ =~= if after.len() <= 40 { after } else { after.take(40) }) by {
            if before.len() >= 40 {
                assert(after.take(40) =~= before.take(40)) by {
                    assert(after.take(before.len() as int) == before);
                    assert(after.take(40) =~= after.take(before.len() as int).take(40));
                }
            }
        }
    }
    r
}

/// The number of listed versions of a kind.
pub open spec fn kind_count(vs: Seq<VersionSummary>, kind: VersionKind, n: int) -> nat
    decreases n,
{
    if n <= 0 {
        0
    } else {
        kind_count(vs, kind, n - 1) + if vs[n - 1].kind == kind {
            1nat
        } else {
            0nat
        }
    }
}

proof fn lemma_kind_count_bound(vs: Seq<VersionSummary>, kind: VersionKind, n: int)
    requires
        0 <= n,
    ensures
        kind_count(vs, kind, n) <= n,
    decreases n,
{
    if n > 0 {
        lemma_kind_count_bound(vs, kind, n - 1);
    }
}

/// How many listed versions are of `kind` (shown in the catalog summary).
pub fn count_kind(versions: &Vec<VersionSummary>, kind: VersionKind) -> (r: usize)
    ensures
        r == kind_count(versions@, kind, versions@.len() as int),
{
    let mut count: usize = 0;
    let mut i: usize = 0;
    while i < versions.len()
        invariant
            i <= versions.len(),
            count == kind_count(versions@, kind, i as int),
        decreases versions.len() - i,
    {
        proof {
            lemma_kind_count_bound(versions@, kind, i as int);
        }
        if versions[i].kind == kind {
            count += 1;
        }
        i += 1;
    }
    count
}

proof fn lemma_shown_indices_shown(vs: Seq<VersionSummary>, show: bool, n: int)
    requires
        0 <= n <= vs.len(),
        vs.len() <= usize::MAX,
    ensures
        forall|k: int|
            0 <= k < shown_indices(vs, show, n).len() ==> {
                let i = #[trigger] shown_indices(vs, show, n)[k];
                &&& i < n
                &&& version_shown(vs[i as int], show)
            },
    decreases n,
{
    if n > 0 {
        lemma_shown_indices_shown(vs, show, n - 1);
        let p = shown_indices(vs, show, n - 1);
        let q = shown_indices(vs, show, n);
        assert forall|k: int| 0 <= k < q.len() implies {
            let i = #[trigger] q[k];
            &&& i < n
            &&& version_shown(vs[i as int], show)
        } by {
            if version_shown(vs[n - 1], show) {
                assert(q == p.push((n - 1) as usize));
                if k < p.len() {
                    assert(q[k] == p[k]);
                }
            } else {
                assert(q == p);
            }
        }
    }
}

/// The catalog list shows at most 40 versions, each a release unless
/// snapshots are shown.
pub proof fn law_visible_versions_are_filtered(vs: Seq<VersionSummary>, show: bool)
    requires
        vs.len() <= usize::MAX,
    ensures
        ({
            let all = shown_indices(vs, show, vs.len() as int);
            let list = if all.len() <= 40 { all } else { all.take(40) };
            &&& list.len() <= 40
            &&& forall|k: int|
                0 <= k < list.len() ==> {
                    let i = #[trigger] list[k];
                    &&& i < vs.len()
                    &&& (show || vs[i as int].kind == VersionKind::Release)
                }
        }),
{
    lemma_shown_indices_shown(vs, show, vs.len() as int);
    let all = shown_indices(vs, show, vs.len() as int);
    let list = if all.len() <= 40 { all } else { all.take(40) };
    assert forall|k: int| 0 <= k < list.len() implies {
        let i = #[trigger] list[k];
        &&& i < vs.len()
        &&& (show || vs[i as int].kind == VersionKind::Release)
    } by {
        assert(list[k] == all[k]);
    }
}

/// A tick never moves a running task past its total, and never moves it back.
pub proof fn law_tick_bounded_and_monotone(t: TaskProgress, n: TaskProgress)
    requires
        ticked(t, n),
        t.completed <= t.total,
    ensures
        n.completed <= n.total,
        n.completed >= t.completed,
        n.total == t.total,
{
}

/// Completed and cancelled tasks are final: a tick leaves them unchanged.
pub proof fn law_finished_tasks_are_final(t: TaskProgress, n: TaskProgress)
    requires
        ticked(t, n),
        t.state != TaskState::Running,
    ensures
        n == t,
{
}

/// A running task completes exactly when it reaches its total.
pub proof fn law_completion_at_total(t: TaskProgress, n: TaskProgress)
    requires
        ticked(t, n),
        t.state == TaskState::Running,
    ensures
        (n.state == TaskState::Completed) <==> (n.completed == n.total),
        n.state != TaskState::Cancelled,
{
}

} // verus!
