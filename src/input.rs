use vstd::prelude::*;

pub use crate::model::{ActiveComponent, ActiveTable, AppState, DeleteButton};
use crate::model::{
    lookup_id, partition, partition_configs, retain_absent, without, Config, ConfigState, Key,
};
use crate::registry::{unreaped, ProcessingEntry, ProcessingRegistry};
use crate::selection::{all_rows, lemma_selection_bounded, Selection};
use crate::text::{
    decimal, decimal_digits, failure_text, parsed_u32, parse_u32, task_failure_message,
    with_detail,
};

verus! {

/// Rows of the screen taken by everything but the table bodies.
pub const CHROME_ROWS: u16 = 19;

/// The last entry of the top menu.
pub const LAST_MENU_ITEM: usize = 6;

/// One start or stop operation for the host to run concurrently.
#[derive(Clone, Copy, Debug)]
pub struct Task {
    pub config: Config,
    pub config_id: i64,
    /// `true` to start the session, `false` to stop it.
    pub start: bool,
}

/// What a finished task reports back: which configuration, which direction,
/// and the failure's words if it failed.
#[derive(Clone, Debug)]
pub struct TaskReport {
    pub config_id: i64,
    pub start: bool,
    pub failure: Option<String>,
}

/// Outside work that a key press asks the host to perform.
#[derive(Debug)]
pub enum Effect {
    Nothing,
    /// Stop every running session and exit.
    Shutdown,
    /// Read the settings and hand them to `settings_loaded`.
    LoadSettings,
    /// Discover the cluster contexts and hand them to `finish_auto_add`.
    AutoAddConfigs,
    /// Import the configurations of this context, then call `finish_context_selection`.
    SelectContext(String),
    /// Delete these configurations, then call `finish_delete`.
    DeleteConfigs(Vec<i64>),
    /// Save the disconnect timeout, then call `finish_timeout_save`.
    SaveTimeout(u32),
    /// Save the network-monitor setting, then call `finish_network_monitor_save`.
    SaveNetworkMonitor(bool),
    /// Restart the network monitor, then call `finish_network_monitor_call`.
    RestartNetworkMonitor,
    /// Stop the network monitor, then call `finish_network_monitor_call`.
    StopNetworkMonitor,
    /// Run each task concurrently; each one reports through `accept_task_report`.
    Dispatch(Vec<Task>),
    /// A file explorer was opened: point it at the working directory.
    ExplorerOpened,
    /// Scroll the log view one page up.
    LogsPageUp,
    /// Scroll the log view one page down.
    LogsPageDown,
    /// A key for the open dialog, which the host draws and drives.
    Popup(Key),
}

/// The orchestrator: navigation state, the two list views, their selections,
/// the processing registry and the queue of failures that tasks reported.
#[derive(Debug)]
pub struct App {
    pub details_scroll_offset: usize,
    pub details_scroll_max_offset: usize,
    pub selected_rows_stopped: Selection,
    pub selected_rows_running: Selection,
    pub state: AppState,
    pub selected_row_stopped: usize,
    pub selected_row_running: usize,
    pub active_table: ActiveTable,
    pub stopped_configs: Vec<Config>,
    pub running_configs: Vec<Config>,
    pub error_message: Option<String>,
    pub active_component: ActiveComponent,
    pub selected_menu_item: usize,
    pub delete_confirmation_message: Option<String>,
    pub selected_delete_button: DeleteButton,
    pub visible_rows: usize,
    /// The highlighted row of the stopped table.
    pub table_state_stopped: Option<usize>,
    /// The highlighted row of the running table.
    pub table_state_running: Option<usize>,
    pub contexts: Vec<String>,
    pub selected_context_index: usize,
    /// The highlighted entry of the context list.
    pub context_list_state: Option<usize>,
    pub settings_timeout_input: Vec<char>,
    pub settings_editing: bool,
    pub settings_network_monitor: bool,
    pub settings_selected_option: usize,
    /// What the settings dialog reports about its last save, shown inside it.
    pub settings_message: Option<String>,
    pub configs_being_processed: ProcessingRegistry,
    /// Failure messages reported by tasks, oldest first, not yet shown.
    pub pending_errors: Vec<String>,
}

/// The rows of `list`, in order, whose index is in `rows`.
pub open spec fn picked(list: Seq<Config>, rows: Set<usize>) -> Seq<Config>
    decreases list.len(),
{
    if list.len() == 0 {
        Seq::empty()
    } else if rows.contains((list.len() - 1) as usize) {
        picked(list.drop_last(), rows).push(list.last())
    } else {
        picked(list.drop_last(), rows)
    }
}

/// The registry after registering, in order, each configuration of `configs`
/// that has an identity, at `now`.
pub open spec fn register_all(m: Map<i64, ProcessingEntry>, configs: Seq<Config>, now: u64) -> Map<
    i64,
    ProcessingEntry,
>
    decreases configs.len(),
{
    if configs.len() == 0 {
        m
    } else {
        let rest = register_all(m, configs.drop_last(), now);
        match configs.last().id {
            Some(id) => rest.insert(id, ProcessingEntry { config_id: id, started_at: now, done: false }),
            None => rest,
        }
    }
}

/// One task per configuration of `configs` that has an identity, in order.
pub open spec fn tasks_for(configs: Seq<Config>, start: bool) -> Seq<Task>
    decreases configs.len(),
{
    if configs.len() == 0 {
        Seq::empty()
    } else {
        let rest = tasks_for(configs.drop_last(), start);
        match configs.last().id {
            Some(id) => rest.push(Task { config: configs.last(), config_id: id, start }),
            None => rest,
        }
    }
}

/// The rows that a dispatch acts on: the checked rows, or the focused row
/// when none is checked.
pub open spec fn effective_rows(checked: Set<usize>, focused: usize) -> Set<usize> {
    if checked.len() == 0 {
        set![focused]
    } else {
        checked
    }
}

impl App {
    pub open spec fn wf(&self) -> bool {
        &&& self.selected_rows_stopped.wf()
        &&& self.selected_rows_running.wf()
        &&& self.configs_being_processed.wf()
    }

    /// The list that the active table shows.
    pub open spec fn active_list(&self) -> Seq<Config> {
        match self.active_table {
            ActiveTable::Stopped => self.stopped_configs@,
            ActiveTable::Running => self.running_configs@,
        }
    }

    /// The checked rows of the active table.
    pub open spec fn active_selection(&self) -> Set<usize> {
        match self.active_table {
            ActiveTable::Stopped => self.selected_rows_stopped@,
            ActiveTable::Running => self.selected_rows_running@,
        }
    }

    /// The focused row of the active table.
    pub open spec fn active_row(&self) -> usize {
        match self.active_table {
            ActiveTable::Stopped => self.selected_row_stopped,
            ActiveTable::Running => self.selected_row_running,
        }
    }

    /// The two list views, the registry and the failure queue are those of `other`.
    pub open spec fn same_data(&self, other: &App) -> bool {
        &&& self.stopped_configs@ == other.stopped_configs@
        &&& self.running_configs@ == other.running_configs@
        &&& self.configs_being_processed@ == other.configs_being_processed@
        &&& self.pending_errors@ == other.pending_errors@
    }

    /// A fresh orchestrator on the normal screen with the stopped table focused.
    pub fn new() -> (r: App)
        ensures
            r.wf(),
            r.state == AppState::Normal,
            r.active_component == ActiveComponent::StoppedTable,
            r.active_table == ActiveTable::Stopped,
            r.stopped_configs@.len() == 0,
            r.running_configs@.len() == 0,
            r.selected_rows_stopped@.len() == 0,
            r.selected_rows_running@.len() == 0,
            r.configs_being_processed@ == Map::<i64, ProcessingEntry>::empty(),
            r.pending_errors@.len() == 0,
            r.error_message is None,
            r.settings_network_monitor,
            r.visible_rows == 0,
            r.selected_context_index == 0,
            r.context_list_state is None,
            r.contexts@.len() == 0,
            r.table_state_stopped is None,
            r.table_state_running is None,
            r.selected_row_stopped == 0,
            r.selected_row_running == 0,
            r.selected_menu_item == 0,
            r.settings_timeout_input@.len() == 0,
            !r.settings_editing,
            r.settings_selected_option == 0,
            r.selected_delete_button == DeleteButton::Confirm,
            r.settings_message is None,
    {
        let r = App {
            details_scroll_offset: 0,
            details_scroll_max_offset: 0,
            selected_rows_stopped: Selection::new(),
            selected_rows_running: Selection::new(),
            state: AppState::Normal,
            selected_row_stopped: 0,
            selected_row_running: 0,
            active_table: ActiveTable::Stopped,
            stopped_configs: Vec::new(),
            running_configs: Vec::new(),
            error_message: None,
            active_component: ActiveComponent::StoppedTable,
            selected_menu_item: 0,
            delete_confirmation_message: None,
            selected_delete_button: DeleteButton::Confirm,
            visible_rows: 0,
            table_state_stopped: None,
            table_state_running: None,
            contexts: Vec::new(),
            selected_context_index: 0,
            context_list_state: None,
            settings_timeout_input: Vec::new(),
            settings_editing: false,
            settings_network_monitor: true,
            settings_selected_option: 0,
            settings_message: None,
            configs_being_processed: ProcessingRegistry::new(),
            pending_errors: Vec::new(),
        };
        r
    }

    /// Sets the page size from the terminal's height.
    pub fn update_visible_rows(&mut self, terminal_height: u16)
        ensures
            final(self).visible_rows == (if terminal_height >= CHROME_ROWS {
                terminal_height - CHROME_ROWS
            } else {
                0
            }),
            final(self).wf() == old(self).wf(),
            final(self).same_data(old(self)),
            final(self).state == old(self).state,
    {
        self.visible_rows = if terminal_height >= CHROME_ROWS {
            (terminal_height - CHROME_ROWS) as usize
        } else {
            0
        };
    }

    /// The periodic refresh: re-derives both list views from the stores'
    /// snapshot, drops checked rows past the new ends, reclaims finished or
    /// stale processing entries, and shows the oldest reported failure.
    pub fn update_configs(&mut self, configs: &Vec<Config>, config_states: &Vec<ConfigState>, now: u64)
        requires
            old(self).wf(),
        ensures
            final(self).wf(),
            final(self).stopped_configs@ == partition(configs@, config_states@, false),
            final(self).running_configs@ == partition(configs@, config_states@, true),
            final(self).selected_rows_stopped@ == old(self).selected_rows_stopped@.filter(
                |r: usize| r < final(self).stopped_configs@.len(),
            ),
            final(self).selected_rows_running@ == old(self).selected_rows_running@.filter(
                |r: usize| r < final(self).running_configs@.len(),
            ),
            final(self).configs_being_processed@ == unreaped(old(self).configs_being_processed@, now),
            final(self).selected_rows_stopped@.len() <= final(self).stopped_configs@.len(),
            final(self).selected_rows_running@.len() <= final(self).running_configs@.len(),
            old(self).pending_errors@.len() > 0 ==> {
                &&& final(self).error_message == Some(old(self).pending_errors@[0])
                &&& final(self).state == AppState::ShowErrorPopup
                &&& final(self).pending_errors@ == old(self).pending_errors@.drop_first()
            },
            old(self).pending_errors@.len() == 0 ==> {
                &&& final(self).error_message == old(self).error_message
                &&& final(self).state == old(self).state
                &&& final(self).pending_errors@.len() == 0
            },
            final(self).active_component == old(self).active_component,
            final(self).active_table == old(self).active_table,
    {
        self.stopped_configs = partition_configs(configs, config_states, false);
        self.running_configs = partition_configs(configs, config_states, true);
        let n_stopped = self.stopped_configs.len();
        let n_running = self.running_configs.len();
        self.selected_rows_stopped.retain_below(n_stopped);
        self.selected_rows_running.retain_below(n_running);
        self.configs_being_processed.sweep(now);
        proof {
            lemma_selection_bounded(&self.selected_rows_stopped, n_stopped);
            lemma_selection_bounded(&self.selected_rows_running, n_running);
        }
        if self.pending_errors.len() > 0 {
            let msg = self.pending_errors.remove(0);
            proof {
                assert(self.pending_errors@ =~= old(self).pending_errors@.drop_first());
            }
            self.error_message = Some(msg);
            self.state = AppState::ShowErrorPopup;
        }
    }

    /// Takes in what a finished task reported: its processing entry is marked
    /// done, and a failure is queued for display with the configuration's
    /// identity and the failure's words.
    pub fn accept_task_report(&mut self, report: &TaskReport)
        requires
            old(self).wf(),
        ensures
            final(self).wf(),
            old(self).configs_being_processed@.contains_key(report.config_id)
                ==> final(self).configs_being_processed@ == old(self).configs_being_processed@.insert(
                report.config_id,
                ProcessingEntry { done: true, ..old(self).configs_being_processed@[report.config_id] },
            ),
            !old(self).configs_being_processed@.contains_key(report.config_id)
                ==> final(self).configs_being_processed@ == old(self).configs_being_processed@,
            report.failure matches Some(e) ==> final(self).pending_errors@.len() ==
                    old(self).pending_errors@.len() + 1
                && final(self).pending_errors@.drop_last() == old(self).pending_errors@
                && final(self).pending_errors@.last()@ == failure_text(report.config_id, report.start, e@),
            report.failure is None ==> final(self).pending_errors@ == old(self).pending_errors@,
            final(self).stopped_configs@ == old(self).stopped_configs@,
            final(self).running_configs@ == old(self).running_configs@,
            final(self).state == old(self).state,
            final(self).error_message == old(self).error_message,
    {
        self.configs_being_processed.complete(report.config_id);
        match &report.failure {
            Some(e) => {
                let msg = task_failure_message(report.config_id, report.start, e.as_str());
                self.pending_errors.push(msg);
                proof {
                    assert(self.pending_errors@.drop_last() =~= old(self).pending_errors@);
                }
            },
            None => {},
        }
    }

    /// Moves the highlight of the active table one row up.
    pub fn scroll_up(&mut self)
        ensures
            final(self).same_data(old(self)),
            final(self).selected_rows_stopped == old(self).selected_rows_stopped,
            final(self).selected_rows_running == old(self).selected_rows_running,
            final(self).configs_being_processed == old(self).configs_being_processed,
            final(self).state == old(self).state,
            final(self).active_table == old(self).active_table,
            final(self).active_component == old(self).active_component,
            old(self).active_table == ActiveTable::Stopped ==> final(self).table_state_running ==
                    old(self).table_state_running
                && final(self).selected_row_running == old(self).selected_row_running
                && (if old(self).stopped_configs@.len() > 0 && old(self).table_state_stopped is
                        Some && old(self).table_state_stopped->0 > 0 {
                    final(self).table_state_stopped == Some((old(self).table_state_stopped->0 - 1) as usize)
                        && final(self).selected_row_stopped == old(self).table_state_stopped->0 - 1
                } else {
                    final(self).table_state_stopped == old(self).table_state_stopped
                        && final(self).selected_row_stopped == old(self).selected_row_stopped
                }),
            old(self).active_table == ActiveTable::Running ==> final(self).table_state_stopped ==
                    old(self).table_state_stopped
                && final(self).selected_row_stopped == old(self).selected_row_stopped
                && (if old(self).running_configs@.len() > 0 && old(self).table_state_running is
                        Some && old(self).table_state_running->0 > 0 {
                    final(self).table_state_running == Some((old(self).table_state_running->0 - 1) as usize)
                        && final(self).selected_row_running == old(self).table_state_running->0 - 1
                } else {
                    final(self).table_state_running == old(self).table_state_running
                        && final(self).selected_row_running == old(self).selected_row_running
                }),
    {
        match self.active_table {
            ActiveTable::Stopped => {
                if self.stopped_configs.len() > 0 {
                    if let Some(selected) = self.table_state_stopped {
                        if selected > 0 {
                            self.table_state_stopped = Some(selected - 1);
                            self.selected_row_stopped = selected - 1;
                        }
                    }
                }
            },
            ActiveTable::Running => {
                if self.running_configs.len() > 0 {
                    if let Some(selected) = self.table_state_running {
                        if selected > 0 {
                            self.table_state_running = Some(selected - 1);
                            self.selected_row_running = selected - 1;
                        }
                    }
                }
            },
        }
    }

    /// Moves the highlight of the active table one row down, or onto the
    /// first row when nothing is highlighted.
    pub fn scroll_down(&mut self)
        ensures
            final(self).same_data(old(self)),
            final(self).selected_rows_stopped == old(self).selected_rows_stopped,
            final(self).selected_rows_running == old(self).selected_rows_running,
            final(self).configs_being_processed == old(self).configs_being_processed,
            final(self).state == old(self).state,
            final(self).active_table == old(self).active_table,
            final(self).active_component == old(self).active_component,
            old(self).active_table == ActiveTable::Stopped ==> final(self).table_state_running ==
                    old(self).table_state_running
                && final(self).selected_row_running == old(self).selected_row_running
                && (if old(self).stopped_configs@.len() == 0 {
                    final(self).table_state_stopped == old(self).table_state_stopped
                        && final(self).selected_row_stopped == old(self).selected_row_stopped
                } else if old(self).table_state_stopped is None {
                    final(self).table_state_stopped == Some(0usize) && final(self).selected_row_stopped == 0
                } else if old(self).table_state_stopped->0 + 1 < old(self).stopped_configs@.len() {
                    final(self).table_state_stopped == Some((old(self).table_state_stopped->0 + 1) as usize)
                        && final(self).selected_row_stopped == old(self).table_state_stopped->0 + 1
                } else {
                    final(self).table_state_stopped == old(self).table_state_stopped
                        && final(self).selected_row_stopped == old(self).selected_row_stopped
                }),
            old(self).active_table == ActiveTable::Running ==> final(self).table_state_stopped ==
                    old(self).table_state_stopped
                && final(self).selected_row_stopped == old(self).selected_row_stopped
                && (if old(self).running_configs@.len() == 0 {
                    final(self).table_state_running == old(self).table_state_running
                        && final(self).selected_row_running == old(self).selected_row_running
                } else if old(self).table_state_running is None {
                    final(self).table_state_running == Some(0usize) && final(self).selected_row_running == 0
                } else if old(self).table_state_running->0 + 1 < old(self).running_configs@.len() {
                    final(self).table_state_running == Some((old(self).table_state_running->0 + 1) as usize)
                        && final(self).selected_row_running == old(self).table_state_running->0 + 1
                } else {
                    final(self).table_state_running == old(self).table_state_running
                        && final(self).selected_row_running == old(self).selected_row_running
                }),
    {
        match self.active_table {
            ActiveTable::Stopped => {
                if self.stopped_configs.len() > 0 {
                    if let Some(selected) = self.table_state_stopped {
                        if selected < self.stopped_configs.len() - 1 {
                            self.table_state_stopped = Some(selected + 1);
                            self.selected_row_stopped = selected + 1;
                        }
                    } else {
                        self.table_state_stopped = Some(0);
                        self.selected_row_stopped = 0;
                    }
                }
            },
            ActiveTable::Running => {
                if self.running_configs.len() > 0 {
                    if let Some(selected) = self.table_state_running {
                        if selected < self.running_configs.len() - 1 {
                            self.table_state_running = Some(selected + 1);
                            self.selected_row_running = selected + 1;
                        }
                    } else {
                        self.table_state_running = Some(0);
                        self.selected_row_running = 0;
                    }
                }
            },
        }
    }
}

/// Checks every row of the active table, or unchecks all of them when all
/// are already checked.
pub fn toggle_select_all(app: &mut App)
    requires
        old(app).wf(),
    ensures
        final(app).wf(),
        final(app).same_data(old(app)),
        final(app).active_table == old(app).active_table,
        final(app).state == old(app).state,
        final(app).active_selection() == (if old(app).active_selection().len() ==
                old(app).active_list().len() {
            Set::<usize>::empty()
        } else {
            all_rows(old(app).active_list().len() as usize)
        }),
        old(app).active_table == ActiveTable::Stopped ==> final(app).selected_rows_running ==
                old(app).selected_rows_running,
        old(app).active_table == ActiveTable::Running ==> final(app).selected_rows_stopped ==
                old(app).selected_rows_stopped,
{
    match app.active_table {
        ActiveTable::Stopped => {
            let n = app.stopped_configs.len();
            if app.selected_rows_stopped.len() == n {
                app.selected_rows_stopped.clear();
            } else {
                app.selected_rows_stopped.select_range(n);
            }
        },
        ActiveTable::Running => {
            let n = app.running_configs.len();
            if app.selected_rows_running.len() == n {
                app.selected_rows_running.clear();
            } else {
                app.selected_rows_running.select_range(n);
            }
        },
    }
}

/// The configurations of the rows of `list` that `rows` holds, in list order.
fn pick_rows(list: &Vec<Config>, rows: &Selection) -> (r: Vec<Config>)
    ensures
        r@ == picked(list@, rows@),
{
    let mut out: Vec<Config> = Vec::new();
    let mut i: usize = 0;
    while i < list.len()
        invariant
            i <= list.len(),
            out@ == picked(list@.subrange(0, i as int), rows@),
        decreases list.len() - i,
    {
        proof {
            assert(list@.subrange(0, i as int + 1).drop_last() =~= list@.subrange(0, i as int));
        }
        if rows.contains(i) {
            out.push(list[i]);
        }
        i = i + 1;
    }
    proof {
        assert(list@.subrange(0, list@.len() as int) =~= list@);
    }
    out
}

/// Registers each configuration that has an identity and builds its task.
fn register_tasks(registry: &mut ProcessingRegistry, configs: &Vec<Config>, now: u64, start: bool)
        -> (r: Vec<Task>)
    requires
        old(registry).wf(),
    ensures
        final(registry).wf(),
        final(registry)@ == register_all(old(registry)@, configs@, now),
        r@ == tasks_for(configs@, start),
{
    let mut tasks: Vec<Task> = Vec::new();
    let mut i: usize = 0;
    while i < configs.len()
        invariant
            i <= configs.len(),
            registry.wf(),
            registry@ == register_all(old(registry)@, configs@.subrange(0, i as int), now),
            tasks@ == tasks_for(configs@.subrange(0, i as int), start),
        decreases configs.len() - i,
    {
        let c = configs[i];
        proof {
            assert(configs@.subrange(0, i as int + 1).drop_last() =~= configs@.subrange(0, i as int));
        }
        if let Some(id) = c.id {
            registry.register(id, now);
            tasks.push(Task { config: c, config_id: id, start });
        }
        i = i + 1;
    }
    proof {
        assert(configs@.subrange(0, configs@.len() as int) =~= configs@);
    }
    tasks
}

/// Appends `extra` to `v`.
fn extend_configs(v: &mut Vec<Config>, extra: &Vec<Config>)
    ensures
        final(v)@ == old(v)@ + extra@,
{
    let mut i: usize = 0;
    while i < extra.len()
        invariant
            i <= extra.len(),
            v@ == old(v)@ + extra@.subrange(0, i as int),
        decreases extra.len() - i,
    {
        v.push(extra[i]);
        i = i + 1;
        assert(v@ =~= old(v)@ + extra@.subrange(0, i as int));
    }
    assert(extra@.subrange(0, extra@.len() as int) =~= extra@);
}

/// What a dispatch at `now` does to `pre`, giving `post` and `tasks`.
pub open spec fn dispatch_post(pre: &App, post: &App, tasks: Seq<Task>, now: u64) -> bool {
    &&& post.state == pre.state
    &&& post.active_table == pre.active_table
    &&& post.active_component == pre.active_component
    &&& post.pending_errors@ == pre.pending_errors@
    &&& (pre.active_list().len() == 0 ==> tasks.len() == 0 && *post == *pre)
    &&& (pre.active_list().len() > 0 ==> {
            let moved = picked(
                pre.active_list(),
                effective_rows(pre.active_selection(), pre.active_row()),
            );
            let starting = pre.active_table == ActiveTable::Stopped;
            &&& tasks == tasks_for(moved, starting)
            &&& post.configs_being_processed@ == register_all(pre.configs_being_processed@, moved, now)
            &&& post.active_selection().len() == 0
            &&& starting ==> {
                &&& post.running_configs@ == pre.running_configs@ + moved
                &&& post.stopped_configs@ == without(pre.stopped_configs@, moved)
                &&& post.selected_rows_running == pre.selected_rows_running
            }
            &&& !starting ==> {
                &&& post.stopped_configs@ == pre.stopped_configs@ + moved
                &&& post.running_configs@ == without(pre.running_configs@, moved)
                &&& post.selected_rows_stopped == pre.selected_rows_stopped
            }
        })
}

/// Starts (from the stopped table) or stops (from the running table) the
/// checked configurations, or the focused one when none is checked: each one
/// moves at once to the other list, gets a processing entry stamped `now`,
/// and gets a task for the host to run. The acted-on selection is cleared.
pub fn handle_port_forwarding(app: &mut App, now: u64) -> (r: Vec<Task>)
    requires
        old(app).wf(),
    ensures
        final(app).wf(),
        dispatch_post(old(app), final(app), r@, now),
{
    let starting = match app.active_table {
        ActiveTable::Stopped => true,
        ActiveTable::Running => false,
    };
    if starting {
        if app.stopped_configs.len() == 0 {
            return Vec::new();
        }
        if app.selected_rows_stopped.is_empty() {
            let row = app.selected_row_stopped;
            app.selected_rows_stopped.insert(row);
            assert(app.selected_rows_stopped@ =~= set![row]);
        }
        let moved = pick_rows(&app.stopped_configs, &app.selected_rows_stopped);
        let tasks = register_tasks(&mut app.configs_being_processed, &moved, now, true);
        extend_configs(&mut app.running_configs, &moved);
        app.stopped_configs = retain_absent(&app.stopped_configs, &moved);
        app.selected_rows_stopped.clear();
        tasks
    } else {
        if app.running_configs.len() == 0 {
            return Vec::new();
        }
        if app.selected_rows_running.is_empty() {
            let row = app.selected_row_running;
            app.selected_rows_running.insert(row);
            assert(app.selected_rows_running@ =~= set![row]);
        }
        let moved = pick_rows(&app.running_configs, &app.selected_rows_running);
        let tasks = register_tasks(&mut app.configs_being_processed, &moved, now, false);
        extend_configs(&mut app.stopped_configs, &moved);
        app.running_configs = retain_absent(&app.running_configs, &moved);
        app.selected_rows_running.clear();
        tasks
    }
}

/// Highlights the first row of the active table, if it has one.
pub fn select_first_row(app: &mut App)
    ensures
        final(app).same_data(old(app)),
        final(app).selected_rows_stopped == old(app).selected_rows_stopped,
        final(app).selected_rows_running == old(app).selected_rows_running,
        final(app).configs_being_processed == old(app).configs_being_processed,
        final(app).state == old(app).state,
        final(app).active_table == old(app).active_table,
        final(app).active_component == old(app).active_component,
        old(app).active_table == ActiveTable::Stopped && old(app).stopped_configs@.len() > 0 ==>
                final(app).table_state_stopped
            == Some(0usize) && final(app).selected_row_stopped == 0,
        old(app).active_table == ActiveTable::Running && old(app).running_configs@.len() > 0 ==>
                final(app).table_state_running
            == Some(0usize) && final(app).selected_row_running == 0,
        !(old(app).active_table == ActiveTable::Stopped && old(app).stopped_configs@.len() > 0)
            ==> final(app).table_state_stopped == old(app).table_state_stopped
            && final(app).selected_row_stopped == old(app).selected_row_stopped,
        !(old(app).active_table == ActiveTable::Running && old(app).running_configs@.len() > 0)
            ==> final(app).table_state_running == old(app).table_state_running
            && final(app).selected_row_running == old(app).selected_row_running,
{
    match app.active_table {
        ActiveTable::Stopped => {
            if app.stopped_configs.len() > 0 {
                app.table_state_stopped = Some(0);
                app.selected_row_stopped = 0;
            }
        },
        ActiveTable::Running => {
            if app.running_configs.len() > 0 {
                app.table_state_running = Some(0);
                app.selected_row_running = 0;
            }
        },
    }
}

/// Unchecks every row of both tables and removes both highlights.
pub fn clear_selection(app: &mut App)
    ensures
        final(app).wf() <== old(app).wf(),
        final(app).same_data(old(app)),
        final(app).selected_rows_stopped@.len() == 0,
        final(app).selected_rows_running@.len() == 0,
        final(app).selected_rows_stopped.wf(),
        final(app).selected_rows_running.wf(),
        final(app).table_state_stopped is None,
        final(app).table_state_running is None,
        final(app).selected_row_stopped == 0,
        final(app).selected_row_running == 0,
        final(app).state == old(app).state,
        final(app).active_table == old(app).active_table,
        final(app).active_component == old(app).active_component,
{
    app.selected_rows_stopped.clear();
    app.selected_rows_running.clear();
    app.table_state_stopped = None;
    app.selected_row_stopped = 0;
    app.table_state_running = None;
    app.selected_row_running = 0;
}

/// `post` is `pre` with focus moved to `component` and `table` made the
/// active one, both selections cleared and the first row of `table` highlighted.
pub open spec fn focus_post(pre: &App, post: &App, component: ActiveComponent, table: ActiveTable) -> bool {
    &&& post.same_data(pre)
    &&& post.active_component == component
    &&& post.active_table == table
    &&& post.state == pre.state
    &&& post.selected_rows_stopped@.len() == 0
    &&& post.selected_rows_running@.len() == 0
    &&& table == ActiveTable::Stopped ==> post.table_state_running is None &&
            post.table_state_stopped == (if pre.stopped_configs@.len() > 0 {
        Some(0usize)
    } else {
        None
    })
    &&& table == ActiveTable::Running ==> post.table_state_stopped is None &&
            post.table_state_running == (if pre.running_configs@.len() > 0 {
        Some(0usize)
    } else {
        None
    })
    &&& post.selected_row_stopped == 0
    &&& post.selected_row_running == 0
}

/// `post` is `pre` with focus moved off a table to `component`, both
/// highlights and the checked rows of both tables dropped.
pub open spec fn leave_post(pre: &App, post: &App, component: ActiveComponent) -> bool {
    &&& post.same_data(pre)
    &&& post.active_component == component
    &&& post.active_table == pre.active_table
    &&& post.state == pre.state
    &&& post.table_state_stopped is None
    &&& post.table_state_running is None
    &&& post.selected_rows_stopped@.len() == 0
    &&& post.selected_rows_running@.len() == 0
}

/// Moves focus onto a table; see `focus_post`.
fn focus_table(app: &mut App, component: ActiveComponent, table: ActiveTable)
    requires
        old(app).wf(),
    ensures
        final(app).wf(),
        focus_post(old(app), final(app), component, table),
{
    app.active_component = component;
    app.active_table = table;
    clear_selection(app);
    select_first_row(app);
}

/// Moves focus off a table; see `leave_post`.
fn leave_table(app: &mut App, component: ActiveComponent)
    requires
        old(app).wf(),
    ensures
        final(app).wf(),
        leave_post(old(app), final(app), component),
{
    app.active_component = component;
    app.table_state_running = None;
    app.selected_rows_stopped.clear();
    app.selected_rows_running.clear();
    app.table_state_stopped = None;
}

/// Opens the import file explorer.
pub fn open_import_file_explorer(app: &mut App)
    ensures
        *final(app) == (App { state: AppState::ImportFileExplorerOpen, ..*old(app) }),
{
    app.state = AppState::ImportFileExplorerOpen;
}

/// Opens the export file explorer.
pub fn open_export_file_explorer(app: &mut App)
    ensures
        *final(app) == (App { state: AppState::ExportFileExplorerOpen, ..*old(app) }),
{
    app.state = AppState::ExportFileExplorerOpen;
}

/// `app` with the settings dialog open, not editing, on its first option,
/// with no message.
pub open spec fn settings_opened(app: &App) -> App {
    App {
        state: AppState::ShowSettings,
        settings_editing: false,
        settings_selected_option: 0,
        settings_message: None,
        ..*app
    }
}

/// Opens the settings dialog, not editing, on its first option.
fn open_settings(app: &mut App)
    ensures
        *final(app) == settings_opened(old(app)),
{
    app.state = AppState::ShowSettings;
    app.settings_editing = false;
    app.settings_selected_option = 0;
    app.settings_message = None;
}

/// What a global hotkey of the normal screen does, if `key` is one.
pub open spec fn hotkey_target(key: Key) -> Option<AppState> {
    match key {
        Key::Char('q') => Some(AppState::ShowAbout),
        Key::Char('i') => Some(AppState::ImportFileExplorerOpen),
        Key::Char('e') => Some(AppState::ExportFileExplorerOpen),
        Key::Char('h') => Some(AppState::ShowHelp),
        Key::Char('s') => Some(AppState::ShowSettings),
        _ => None,
    }
}

/// What hotkey `key` does to `pre`, giving `post` and `r`.
pub open spec fn hotkey_post(pre: &App, post: &App, key: Key, r: Effect) -> bool {
    match key {
        Key::Char('q') => r == Effect::Nothing && *post == (App { state: AppState::ShowAbout, ..*pre }),
        Key::Char('i') => r == Effect::ExplorerOpened && *post == (App {
            state: AppState::ImportFileExplorerOpen,
            ..*pre
        }),
        Key::Char('e') => r == Effect::ExplorerOpened && *post == (App {
            state: AppState::ExportFileExplorerOpen,
            ..*pre
        }),
        Key::Char('h') => r == Effect::Nothing && *post == (App { state: AppState::ShowHelp, ..*pre }),
        Key::Char('s') => r == Effect::LoadSettings && *post == settings_opened(pre),
        _ => *post == *pre,
    }
}

/// Handles the hotkeys that work everywhere on the normal screen: `q`
/// about, `i` import, `e` export, `h` help, `s` settings. Returns the work
/// to do when `key` was one of them, else `None` with nothing changed.
pub fn handle_common_hotkeys(app: &mut App, key: Key) -> (r: Option<Effect>)
    ensures
        r is Some <==> hotkey_target(key) is Some,
        r matches Some(e) ==> hotkey_post(old(app), final(app), key, e),
        r is None ==> *final(app) == *old(app),
        hotkey_target(key) matches Some(st) ==> final(app).state == st,
{
    match key {
        Key::Char('q') => {
            app.state = AppState::ShowAbout;
            Some(Effect::Nothing)
        },
        Key::Char('i') => {
            open_import_file_explorer(app);
            Some(Effect::ExplorerOpened)
        },
        Key::Char('e') => {
            open_export_file_explorer(app);
            Some(Effect::ExplorerOpened)
        },
        Key::Char('h') => {
            app.state = AppState::ShowHelp;
            Some(Effect::Nothing)
        },
        Key::Char('s') => {
            open_settings(app);
            Some(Effect::LoadSettings)
        },
        _ => None,
    }
}

/// Flips whether the highlighted row of the active table is checked.
pub fn toggle_row_selection(app: &mut App)
    requires
        old(app).wf(),
    ensures
        final(app).wf(),
        final(app).same_data(old(app)),
        final(app).state == old(app).state,
        final(app).active_table == old(app).active_table,
        final(app).table_state_stopped == old(app).table_state_stopped,
        final(app).table_state_running == old(app).table_state_running,
        old(app).active_table == ActiveTable::Stopped ==> final(app).selected_rows_running ==
                old(app).selected_rows_running
            && (match old(app).table_state_stopped {
                Some(row) => final(app).selected_row_stopped == row &&
                        final(app).selected_rows_stopped@ == (if old(
                    app,
                ).selected_rows_stopped@.contains(row) {
                    old(app).selected_rows_stopped@.remove(row)
                } else {
                    old(app).selected_rows_stopped@.insert(row)
                }),
                None => final(app).selected_rows_stopped == old(app).selected_rows_stopped
                    && final(app).selected_row_stopped == old(app).selected_row_stopped,
            }),
        old(app).active_table == ActiveTable::Running ==> final(app).selected_rows_stopped ==
                old(app).selected_rows_stopped
            && (match old(app).table_state_running {
                Some(row) => final(app).selected_row_running == row &&
                        final(app).selected_rows_running@ == (if old(
                    app,
                ).selected_rows_running@.contains(row) {
                    old(app).selected_rows_running@.remove(row)
                } else {
                    old(app).selected_rows_running@.insert(row)
                }),
                None => final(app).selected_rows_running == old(app).selected_rows_running
                    && final(app).selected_row_running == old(app).selected_row_running,
            }),
{
    match app.active_table {
        ActiveTable::Running => {
            if let Some(selected) = app.table_state_running {
                app.selected_rows_running.toggle(selected);
                app.selected_row_running = selected;
            }
        },
        ActiveTable::Stopped => {
            if let Some(selected) = app.table_state_stopped {
                app.selected_rows_stopped.toggle(selected);
                app.selected_row_stopped = selected;
            }
        },
    }
}

/// `offset` moved one page of `page` rows back, stopping at 0.
pub open spec fn page_back(offset: usize, page: usize) -> usize {
    if offset >= page {
        (offset - page) as usize
    } else {
        0
    }
}

/// `offset` moved one page of `page` rows forward, stopping at `last`.
pub open spec fn page_forward(offset: usize, page: usize, last: usize) -> usize {
    if offset + page < last {
        (offset + page) as usize
    } else {
        last
    }
}

fn page_back_of(offset: usize, page: usize) -> (r: usize)
    ensures
        r == page_back(offset, page),
{
    if offset >= page {
        offset - page
    } else {
        0
    }
}

fn page_forward_of(offset: usize, page: usize, last: usize) -> (r: usize)
    ensures
        r == page_forward(offset, page, last),
{
    if offset < last && page < last - offset {
        offset + page
    } else {
        last
    }
}

/// What paging up does to `pre`, giving `post`.
pub open spec fn page_up_post(pre: &App, post: &App) -> bool {
    &&& (post.same_data(pre))
    &&& (post.wf() == pre.wf())
    &&& (post.state == pre.state)
    &&& (post.active_component == pre.active_component)
    &&& (post.active_table == pre.active_table)
    &&& (pre.active_component == ActiveComponent::StoppedTable ==> post.selected_row_stopped ==
            page_back(pre.selected_row_stopped, pre.visible_rows) && post.table_state_stopped ==
            Some(post.selected_row_stopped))
    &&& (pre.active_component == ActiveComponent::RunningTable ==> post.selected_row_running ==
            page_back(pre.selected_row_running, pre.visible_rows) && post.table_state_running ==
            Some(post.selected_row_running))
    &&& (pre.active_component == ActiveComponent::Details ==> post.details_scroll_offset ==
            page_back(pre.details_scroll_offset, pre.visible_rows))
    &&& (pre.active_component == ActiveComponent::Menu || pre.active_component ==
            ActiveComponent::Logs ==> *post == *pre)
}

/// Scrolls the focused table or the details pane one page up.
pub fn scroll_page_up(app: &mut App)
    ensures
        page_up_post(old(app), final(app)),
{
    match app.active_component {
        ActiveComponent::StoppedTable => {
            app.selected_row_stopped = page_back_of(app.selected_row_stopped, app.visible_rows);
            app.table_state_stopped = Some(app.selected_row_stopped);
        },
        ActiveComponent::RunningTable => {
            app.selected_row_running = page_back_of(app.selected_row_running, app.visible_rows);
            app.table_state_running = Some(app.selected_row_running);
        },
        ActiveComponent::Details => {
            app.details_scroll_offset = page_back_of(app.details_scroll_offset, app.visible_rows);
        },
        _ => {},
    }
}

/// What paging down does to `pre`, giving `post`.
pub open spec fn page_down_post(pre: &App, post: &App) -> bool {
    &&& (post.same_data(pre))
    &&& (post.wf() == pre.wf())
    &&& (post.state == pre.state)
    &&& (post.active_component == pre.active_component)
    &&& (post.active_table == pre.active_table)
    &&& (pre.active_component == ActiveComponent::StoppedTable && pre.stopped_configs@.len() > 0
            ==> post.selected_row_stopped == page_forward(pre.selected_row_stopped,
            pre.visible_rows, (pre.stopped_configs@.len() - 1) as usize) &&
            post.table_state_stopped == Some(post.selected_row_stopped))
    &&& (pre.active_component == ActiveComponent::RunningTable && pre.running_configs@.len() > 0
            ==> post.selected_row_running == page_forward(pre.selected_row_running,
            pre.visible_rows, (pre.running_configs@.len() - 1) as usize) &&
            post.table_state_running == Some(post.selected_row_running))
    &&& (pre.active_component == ActiveComponent::Details ==> post.details_scroll_offset ==
            page_forward(pre.details_scroll_offset, pre.visible_rows,
            pre.details_scroll_max_offset))
    &&& (pre.active_component == ActiveComponent::Menu || pre.active_component ==
            ActiveComponent::Logs || (pre.active_component == ActiveComponent::StoppedTable &&
            pre.stopped_configs@.len() == 0) || (pre.active_component ==
            ActiveComponent::RunningTable && pre.running_configs@.len() == 0) ==> *post == *pre)
}

/// Scrolls the focused table or the details pane one page down, stopping at
/// the last row (an empty table is left as it is).
pub fn scroll_page_down(app: &mut App)
    ensures
        page_down_post(old(app), final(app)),
{
    match app.active_component {
        ActiveComponent::StoppedTable => {
            if app.stopped_configs.len() > 0 {
                app.selected_row_stopped = page_forward_of(
                    app.selected_row_stopped,
                    app.visible_rows,
                    app.stopped_configs.len() - 1,
                );
                app.table_state_stopped = Some(app.selected_row_stopped);
            }
        },
        ActiveComponent::RunningTable => {
            if app.running_configs.len() > 0 {
                app.selected_row_running = page_forward_of(
                    app.selected_row_running,
                    app.visible_rows,
                    app.running_configs.len() - 1,
                );
                app.table_state_running = Some(app.selected_row_running);
            }
        },
        ActiveComponent::Details => {
            app.details_scroll_offset = page_forward_of(
                app.details_scroll_offset,
                app.visible_rows,
                app.details_scroll_max_offset,
            );
        },
        _ => {},
    }
}

/// Asks for confirmation before deleting, when rows of the stopped table are checked.
pub fn show_delete_confirmation(app: &mut App)
    requires
        old(app).wf(),
    ensures
        final(app).wf(),
        final(app).same_data(old(app)),
        old(app).selected_rows_stopped@.len() > 0 ==> final(app).state == AppState::ShowDeleteConfirmation
            && final(app).delete_confirmation_message is Some
            && final(app).delete_confirmation_message->0@ ==
                    "Are you sure you want to delete the selected configs?"@,
        old(app).selected_rows_stopped@.len() == 0 ==> *final(app) == *old(app),
{
    if !app.selected_rows_stopped.is_empty() {
        app.state = AppState::ShowDeleteConfirmation;
        app.delete_confirmation_message = Some(
            "Are you sure you want to delete the selected configs?".to_owned(),
        );
    }
}

/// What a key on the top menu does to `pre`, giving `post` and `r`.
pub open spec fn menu_post(pre: &App, post: &App, key: Key, r: Effect) -> bool {
    if hotkey_target(key) is Some {
        hotkey_post(pre, post, key, r)
    } else {
        match key {
            Key::Left => r == Effect::Nothing && *post == (App {
                selected_menu_item: if pre.selected_menu_item > 0 {
                    (pre.selected_menu_item - 1) as usize
                } else {
                    pre.selected_menu_item
                },
                ..*pre
            }),
            Key::Right => r == Effect::Nothing && *post == (App {
                selected_menu_item: if pre.selected_menu_item < LAST_MENU_ITEM {
                    (pre.selected_menu_item + 1) as usize
                } else {
                    pre.selected_menu_item
                },
                ..*pre
            }),
            Key::Down => r == Effect::Nothing && focus_post(
                pre,
                post,
                ActiveComponent::StoppedTable,
                ActiveTable::Stopped,
            ),
            Key::Enter => menu_entry_post(pre, post, r),
            _ => r == Effect::Nothing && *post == *pre,
        }
    }
}

/// What Enter on the highlighted menu entry does to `pre`, giving `post` and `r`.
pub open spec fn menu_entry_post(pre: &App, post: &App, r: Effect) -> bool {
    let item = pre.selected_menu_item;
    if item == 0 {
        r == Effect::Nothing && *post == (App { state: AppState::ShowHelp, ..*pre })
    } else if item == 1 {
        r == Effect::AutoAddConfigs && *post == *pre
    } else if item == 2 {
        r == Effect::ExplorerOpened && *post == (App { state: AppState::ImportFileExplorerOpen, ..*pre })
    } else if item == 3 {
        r == Effect::ExplorerOpened && *post == (App { state: AppState::ExportFileExplorerOpen, ..*pre })
    } else if item == 4 {
        r == Effect::LoadSettings && *post == settings_opened(pre)
    } else if item == 5 {
        r == Effect::Nothing && *post == (App { state: AppState::ShowAbout, ..*pre })
    } else if item == 6 {
        r == Effect::Shutdown && *post == *pre
    } else {
        r == Effect::Nothing && *post == *pre
    }
}

/// Handles a key on the top menu: Left/Right move along the menu, Down
/// enters the stopped table, Enter runs the highlighted entry.
pub fn handle_menu_input(app: &mut App, key: Key) -> (r: Effect)
    requires
        old(app).wf(),
    ensures
        final(app).wf(),
        menu_post(old(app), final(app), key, r),
{
    if let Some(effect) = handle_common_hotkeys(app, key) {
        return effect;
    }
    match key {
        Key::Left => {
            if app.selected_menu_item > 0 {
                app.selected_menu_item = app.selected_menu_item - 1;
            }
            Effect::Nothing
        },
        Key::Right => {
            if app.selected_menu_item < LAST_MENU_ITEM {
                app.selected_menu_item = app.selected_menu_item + 1;
            }
            Effect::Nothing
        },
        Key::Down => {
            focus_table(app, ActiveComponent::StoppedTable, ActiveTable::Stopped);
            Effect::Nothing
        },
        Key::Enter => {
            let item = app.selected_menu_item;
            if item == 0 {
                app.state = AppState::ShowHelp;
                Effect::Nothing
            } else if item == 1 {
                Effect::AutoAddConfigs
            } else if item == 2 {
                open_import_file_explorer(app);
                Effect::ExplorerOpened
            } else if item == 3 {
                open_export_file_explorer(app);
                Effect::ExplorerOpened
            } else if item == 4 {
                open_settings(app);
                Effect::LoadSettings
            } else if item == 5 {
                app.state = AppState::ShowAbout;
                Effect::Nothing
            } else if item == 6 {
                Effect::Shutdown
            } else {
                Effect::Nothing
            }
        },
        _ => Effect::Nothing,
    }
}

/// What a key on the stopped table does to `pre`, giving `post` and `r`.
pub open spec fn stopped_table_post(pre: &App, post: &App, key: Key, now: u64, r: Effect) -> bool {
    &&& (hotkey_target(key) is Some ==> hotkey_post(pre, post, key, r))
    &&& (key == Key::Right ==> focus_post(pre, post, ActiveComponent::RunningTable, ActiveTable::Running))
    &&& (key == Key::Up && pre.table_state_stopped == Some(0usize) ==> leave_post(pre, post,
            ActiveComponent::Menu))
    &&& (key == Key::Down && (pre.stopped_configs@.len() == 0 || pre.table_state_stopped == Some(
            (pre.stopped_configs@.len() - 1) as usize)) ==> leave_post(pre, post,
            ActiveComponent::Details))
    &&& (key == Key::Char('f') ==> (r matches Effect::Dispatch(tasks) && dispatch_post(pre, post,
            tasks@, now)) && post.state == pre.state)
    &&& (hotkey_target(key) is None && key != Key::Char('f') ==> r == Effect::Nothing)
    &&& (key != Key::Char('f') && key != Key::Char('d') && hotkey_target(key) is None ==>
            post.same_data(pre) && post.state == pre.state)
    &&& (key == Key::Char('d') ==> post.same_data(pre))
}

/// Handles a key on the stopped table: Right moves to the running table, Up
/// from the first row to the menu, Down from the last row to the details,
/// Space checks a row, `f` starts, `d` asks to delete, `a` checks all.
pub fn handle_stopped_table_input(app: &mut App, key: Key, now: u64) -> (r: Effect)
    requires
        old(app).wf(),
    ensures
        final(app).wf(),
        stopped_table_post(old(app), final(app), key, now, r),
{
    if let Some(effect) = handle_common_hotkeys(app, key) {
        return effect;
    }
    match key {
        Key::Right => {
            focus_table(app, ActiveComponent::RunningTable, ActiveTable::Running);
            Effect::Nothing
        },
        Key::Up => {
            if app.table_state_stopped == Some(0) {
                leave_table(app, ActiveComponent::Menu);
            } else {
                app.scroll_up();
            }
            Effect::Nothing
        },
        Key::Down => {
            let at_end = app.stopped_configs.len() == 0 || app.table_state_stopped == Some(
                app.stopped_configs.len() - 1,
            );
            if at_end {
                leave_table(app, ActiveComponent::Details);
            } else {
                app.scroll_down();
            }
            Effect::Nothing
        },
        Key::Char(' ') => {
            toggle_row_selection(app);
            Effect::Nothing
        },
        Key::Char('f') => Effect::Dispatch(handle_port_forwarding(app, now)),
        Key::Char('d') => {
            show_delete_confirmation(app);
            Effect::Nothing
        },
        Key::Char('a') => {
            toggle_select_all(app);
            Effect::Nothing
        },
        _ => Effect::Nothing,
    }
}

/// What a key on the running table does to `pre`, giving `post` and `r`.
pub open spec fn running_table_post(pre: &App, post: &App, key: Key, now: u64, r: Effect) -> bool {
    &&& (hotkey_target(key) is Some ==> hotkey_post(pre, post, key, r))
    &&& (key == Key::Left ==> focus_post(pre, post, ActiveComponent::StoppedTable, ActiveTable::Stopped))
    &&& (key == Key::Up && (pre.running_configs@.len() == 0 || pre.table_state_running ==
            Some(0usize)) ==> leave_post(pre, post, ActiveComponent::Menu))
    &&& (key == Key::Down && (pre.running_configs@.len() == 0 || pre.table_state_running == Some(
            (pre.running_configs@.len() - 1) as usize)) ==> leave_post(pre, post,
            ActiveComponent::Logs))
    &&& (key == Key::Char('f') ==> (r matches Effect::Dispatch(tasks) && dispatch_post(pre, post,
            tasks@, now)) && post.state == pre.state)
    &&& (hotkey_target(key) is None && key != Key::Char('f') ==> r == Effect::Nothing)
    &&& (key != Key::Char('f') && key != Key::Char('d') && hotkey_target(key) is None ==>
            post.same_data(pre) && post.state == pre.state)
    &&& (key == Key::Char('d') ==> post.same_data(pre))
}

/// Handles a key on the running table: Left moves to the stopped table, Up
/// from the first row to the menu, Down from the last row to the logs,
/// Space checks a row, `f` stops, `d` asks to delete, `a` checks all.
pub fn handle_running_table_input(app: &mut App, key: Key, now: u64) -> (r: Effect)
    requires
        old(app).wf(),
    ensures
        final(app).wf(),
        running_table_post(old(app), final(app), key, now, r),
{
    if let Some(effect) = handle_common_hotkeys(app, key) {
        return effect;
    }
    match key {
        Key::Left => {
            focus_table(app, ActiveComponent::StoppedTable, ActiveTable::Stopped);
            Effect::Nothing
        },
        Key::Up => {
            if app.running_configs.len() == 0 || app.table_state_running == Some(0) {
                leave_table(app, ActiveComponent::Menu);
            } else {
                app.scroll_up();
            }
            Effect::Nothing
        },
        Key::Down => {
            let at_end = app.running_configs.len() == 0 || app.table_state_running == Some(
                app.running_configs.len() - 1,
            );
            if at_end {
                leave_table(app, ActiveComponent::Logs);
            } else {
                app.scroll_down();
            }
            Effect::Nothing
        },
        Key::Char(' ') => {
            toggle_row_selection(app);
            Effect::Nothing
        },
        Key::Char('f') => Effect::Dispatch(handle_port_forwarding(app, now)),
        Key::Char('d') => {
            show_delete_confirmation(app);
            Effect::Nothing
        },
        Key::Char('a') => {
            toggle_select_all(app);
            Effect::Nothing
        },
        _ => Effect::Nothing,
    }
}

/// What a key on the details pane does to `pre`, giving `post` and `r`.
pub open spec fn details_post(pre: &App, post: &App, key: Key, r: Effect) -> bool {
    if hotkey_target(key) is Some {
        hotkey_post(pre, post, key, r)
    } else {
        &&& r == Effect::Nothing
        &&& match key {
            Key::Right => *post == (App { active_component: ActiveComponent::Logs, ..*pre }),
            Key::Up => focus_post(pre, post, ActiveComponent::StoppedTable, ActiveTable::Stopped),
            Key::PageUp => *post == (App {
                details_scroll_offset: page_back(pre.details_scroll_offset, pre.visible_rows),
                ..*pre
            }),
            Key::PageDown => *post == (App {
                details_scroll_offset: page_forward(
                    pre.details_scroll_offset,
                    pre.visible_rows,
                    pre.details_scroll_max_offset,
                ),
                ..*pre
            }),
            _ => *post == *pre,
        }
    }
}

/// Handles a key on the details pane: Right moves to the logs, Up to the
/// stopped table, PageUp/PageDown scroll the details.
pub fn handle_details_input(app: &mut App, key: Key) -> (r: Effect)
    requires
        old(app).wf(),
    ensures
        final(app).wf(),
        details_post(old(app), final(app), key, r),
{
    if let Some(effect) = handle_common_hotkeys(app, key) {
        return effect;
    }
    match key {
        Key::Right => {
            app.active_component = ActiveComponent::Logs;
        },
        Key::Up => {
            focus_table(app, ActiveComponent::StoppedTable, ActiveTable::Stopped);
        },
        Key::PageUp => {
            app.details_scroll_offset = page_back_of(app.details_scroll_offset, app.visible_rows);
        },
        Key::PageDown => {
            app.details_scroll_offset = page_forward_of(
                app.details_scroll_offset,
                app.visible_rows,
                app.details_scroll_max_offset,
            );
        },
        _ => {},
    }
    Effect::Nothing
}

/// What a key on the log pane does to `pre`, giving `post` and `r`.
pub open spec fn logs_post(pre: &App, post: &App, key: Key, r: Effect) -> bool {
    match key {
        Key::Left => r == Effect::Nothing && *post == (App {
            active_component: ActiveComponent::Details,
            ..*pre
        }),
        Key::Up => r == Effect::Nothing && focus_post(
            pre,
            post,
            ActiveComponent::RunningTable,
            ActiveTable::Running,
        ),
        Key::PageUp => r == Effect::LogsPageUp && *post == *pre,
        Key::PageDown => r == Effect::LogsPageDown && *post == *pre,
        _ => r == Effect::Nothing && *post == *pre,
    }
}

/// Handles a key on the log pane: Left moves to the details, Up to the
/// running table, PageUp/PageDown page through the log.
pub fn handle_logs_input(app: &mut App, key: Key) -> (r: Effect)
    requires
        old(app).wf(),
    ensures
        final(app).wf(),
        logs_post(old(app), final(app), key, r),
{
    match key {
        Key::Left => {
            app.active_component = ActiveComponent::Details;
            Effect::Nothing
        },
        Key::Up => {
            focus_table(app, ActiveComponent::RunningTable, ActiveTable::Running);
            Effect::Nothing
        },
        Key::PageUp => Effect::LogsPageUp,
        Key::PageDown => Effect::LogsPageDown,
        _ => Effect::Nothing,
    }
}

/// The component that Tab moves focus to.
pub open spec fn next_focus(c: ActiveComponent) -> ActiveComponent {
    match c {
        ActiveComponent::Menu => ActiveComponent::StoppedTable,
        ActiveComponent::StoppedTable => ActiveComponent::Details,
        ActiveComponent::Details => ActiveComponent::Menu,
        _ => ActiveComponent::Menu,
    }
}

/// What a key on the normal screen does to `pre`, giving `post` and `r`.
pub open spec fn normal_post(pre: &App, post: &App, key: Key, now: u64, r: Effect) -> bool {
    &&& ((key == Key::PageUp || key == Key::PageDown) && pre.active_component == ActiveComponent::Details
        ==> details_post(pre, post, key, r))
    &&& (key == Key::PageUp && pre.active_component != ActiveComponent::Details
        && pre.active_component != ActiveComponent::Logs ==> page_up_post(pre, post) && r == Effect::Nothing)
    &&& (key == Key::PageDown && pre.active_component != ActiveComponent::Details
        && pre.active_component != ActiveComponent::Logs ==> page_down_post(pre, post) && r ==
                Effect::Nothing)
    &&& (hotkey_target(key) is None && key != Key::Tab && key != Key::PageUp && key !=
            Key::PageDown ==> match pre.active_component {
        ActiveComponent::Menu => menu_post(pre, post, key, r),
        ActiveComponent::StoppedTable => stopped_table_post(pre, post, key, now, r),
        ActiveComponent::RunningTable => running_table_post(pre, post, key, now, r),
        ActiveComponent::Details => details_post(pre, post, key, r),
        ActiveComponent::Logs => logs_post(pre, post, key, r),
    })
    &&& (hotkey_target(key) is Some ==> hotkey_post(pre, post, key, r))
    &&& (key == Key::Tab ==> { &&& post.active_component == next_focus(pre.active_component) &&&
            post.active_table == (if post.active_component == ActiveComponent::StoppedTable {
            ActiveTable::Stopped } else { pre.active_table }) &&& post.same_data(pre) &&&
            post.state == pre.state &&& post.selected_rows_stopped@.len() == 0 &&&
            post.selected_rows_running@.len() == 0 })
    &&& ((key == Key::PageUp || key == Key::PageDown) && pre.active_component ==
            ActiveComponent::Logs ==> r == (if key == Key::PageUp { Effect::LogsPageUp } else {
            Effect::LogsPageDown }))
    &&& ((key == Key::PageUp || key == Key::PageDown) ==> post.same_data(pre) && post.state == pre.state)
}

/// Handles a key on the normal screen: hotkeys first, then Tab cycles the
/// focus, PageUp/PageDown page the focused pane, and any other key goes to
/// the focused component.
pub fn handle_normal_input(app: &mut App, key: Key, now: u64) -> (r: Effect)
    requires
        old(app).wf(),
    ensures
        final(app).wf(),
        normal_post(old(app), final(app), key, now, r),
{
    if let Some(effect) = handle_common_hotkeys(app, key) {
        return effect;
    }
    match key {
        Key::Tab => {
            app.active_component = match app.active_component {
                ActiveComponent::Menu => ActiveComponent::StoppedTable,
                ActiveComponent::StoppedTable => ActiveComponent::Details,
                ActiveComponent::Details => ActiveComponent::Menu,
                _ => ActiveComponent::Menu,
            };
            if app.active_component == ActiveComponent::StoppedTable {
                app.active_table = ActiveTable::Stopped;
            }
            app.selected_rows_stopped.clear();
            app.selected_rows_running.clear();
            Effect::Nothing
        },
        Key::PageUp | Key::PageDown => match app.active_component {
            ActiveComponent::Logs => handle_logs_input(app, key),
            ActiveComponent::Details => handle_details_input(app, key),
            _ => {
                if key == Key::PageUp {
                    scroll_page_up(app);
                } else {
                    scroll_page_down(app);
                }
                Effect::Nothing
            },
        },
        _ => match app.active_component {
            ActiveComponent::Menu => handle_menu_input(app, key),
            ActiveComponent::StoppedTable => handle_stopped_table_input(app, key, now),
            ActiveComponent::RunningTable => handle_running_table_input(app, key, now),
            ActiveComponent::Details => handle_details_input(app, key),
            ActiveComponent::Logs => handle_logs_input(app, key),
        },
    }
}

/// The identities of `configs`, in order, skipping those without one.
pub open spec fn ids_of(configs: Seq<Config>) -> Seq<i64>
    decreases configs.len(),
{
    if configs.len() == 0 {
        Seq::empty()
    } else {
        let rest = ids_of(configs.drop_last());
        match configs.last().id {
            Some(id) => rest.push(id),
            None => rest,
        }
    }
}

/// The configurations of `configs`, in order, whose lookup identity is not in `ids`.
pub open spec fn drop_ids(configs: Seq<Config>, ids: Seq<i64>) -> Seq<Config>
    decreases configs.len(),
{
    if configs.len() == 0 {
        Seq::empty()
    } else {
        let rest = drop_ids(configs.drop_last(), ids);
        if ids.contains(lookup_id(configs.last())) {
            rest
        } else {
            rest.push(configs.last())
        }
    }
}

fn collect_ids(configs: &Vec<Config>) -> (r: Vec<i64>)
    ensures
        r@ == ids_of(configs@),
{
    let mut out: Vec<i64> = Vec::new();
    let mut i: usize = 0;
    while i < configs.len()
        invariant
            i <= configs.len(),
            out@ == ids_of(configs@.subrange(0, i as int)),
        decreases configs.len() - i,
    {
        proof {
            assert(configs@.subrange(0, i as int + 1).drop_last() =~= configs@.subrange(0, i as int));
        }
        if let Some(id) = configs[i].id {
            out.push(id);
        }
        i = i + 1;
    }
    proof {
        assert(configs@.subrange(0, configs@.len() as int) =~= configs@);
    }
    out
}

fn contains_id(ids: &Vec<i64>, id: i64) -> (r: bool)
    ensures
        r == ids@.contains(id),
{
    let mut i: usize = 0;
    while i < ids.len()
        invariant
            i <= ids.len(),
            forall|j: int| 0 <= j < i ==> ids@[j] != id,
        decreases ids.len() - i,
    {
        if ids[i] == id {
            return true;
        }
        i = i + 1;
    }
    false
}

fn remove_ids(configs: &Vec<Config>, ids: &Vec<i64>) -> (r: Vec<Config>)
    ensures
        r@ == drop_ids(configs@, ids@),
{
    let mut out: Vec<Config> = Vec::new();
    let mut i: usize = 0;
    while i < configs.len()
        invariant
            i <= configs.len(),
            out@ == drop_ids(configs@.subrange(0, i as int), ids@),
        decreases configs.len() - i,
    {
        proof {
            assert(configs@.subrange(0, i as int + 1).drop_last() =~= configs@.subrange(0, i as int));
        }
        let c = configs[i];
        let id: i64 = match c.id {
            Some(id) => id,
            None => 0,
        };
        if !contains_id(ids, id) {
            out.push(c);
        }
        i = i + 1;
    }
    proof {
        assert(configs@.subrange(0, configs@.len() as int) =~= configs@);
    }
    out
}

/// What a key in the delete confirmation does to `pre`, giving `post` and `r`.
pub open spec fn delete_confirmation_post(pre: &App, post: &App, key: Key, r: Effect) -> bool {
    match key {
        Key::Left => r == Effect::Nothing && *post == button_switched(pre),
        Key::Right => r == Effect::Nothing && *post == button_switched(pre),
        Key::Enter => if pre.selected_delete_button == DeleteButton::Confirm {
            &&& r matches Effect::DeleteConfigs(ids)
            &&& ids@ == ids_of(picked(pre.stopped_configs@, pre.selected_rows_stopped@))
            &&& *post == *pre
        } else {
            &&& r == Effect::Nothing
            &&& post.selected_rows_stopped@.len() == 0
            &&& *post == (App {
                state: AppState::Normal,
                selected_rows_stopped: post.selected_rows_stopped,
                ..*pre
            })
        },
        Key::Esc => r == Effect::Nothing && *post == (App { state: AppState::Normal, ..*pre }),
        _ => r == Effect::Nothing && *post == *pre,
    }
}

/// `app` with the other delete-dialog button highlighted.
pub open spec fn button_switched(app: &App) -> App {
    App {
        selected_delete_button: if app.selected_delete_button == DeleteButton::Confirm {
            DeleteButton::Close
        } else {
            DeleteButton::Confirm
        },
        ..*app
    }
}

/// Handles a key in the delete confirmation: Left/Right switch the button,
/// Enter on Confirm asks the host to delete the checked configurations,
/// Enter on Close and Esc return to the normal screen.
pub fn handle_delete_confirmation_input(app: &mut App, key: Key) -> (r: Effect)
    requires
        old(app).wf(),
    ensures
        final(app).wf(),
        delete_confirmation_post(old(app), final(app), key, r),
{
    match key {
        Key::Left | Key::Right => {
            app.selected_delete_button = match app.selected_delete_button {
                DeleteButton::Confirm => DeleteButton::Close,
                DeleteButton::Close => DeleteButton::Confirm,
            };
            Effect::Nothing
        },
        Key::Enter => {
            if app.selected_delete_button == DeleteButton::Confirm {
                let chosen = pick_rows(&app.stopped_configs, &app.selected_rows_stopped);
                Effect::DeleteConfigs(collect_ids(&chosen))
            } else {
                app.selected_rows_stopped.clear();
                app.state = AppState::Normal;
                Effect::Nothing
            }
        },
        Key::Esc => {
            app.state = AppState::Normal;
            Effect::Nothing
        },
        _ => Effect::Nothing,
    }
}

/// Takes in the outcome of deleting `ids`: on success they leave the stopped
/// list and the dialog reports it, on failure the dialog shows why (the
/// global error popup is not used). Either way the checked rows are cleared
/// and the normal screen returns.
pub fn finish_delete(app: &mut App, ids: &Vec<i64>, result: Result<(), String>)
    requires
        old(app).wf(),
    ensures
        final(app).wf(),
        final(app).selected_rows_stopped@.len() == 0,
        final(app).delete_confirmation_message is Some,
        *final(app) == (App {
            state: AppState::Normal,
            selected_rows_stopped: final(app).selected_rows_stopped,
            stopped_configs: final(app).stopped_configs,
            delete_confirmation_message: final(app).delete_confirmation_message,
            ..*old(app)
        }),
        result is Ok ==> final(app).stopped_configs@ == drop_ids(old(app).stopped_configs@, ids@)
            && final(app).delete_confirmation_message->0@ == "Configs deleted successfully."@,
        result matches Err(e) ==> final(app).stopped_configs == old(app).stopped_configs
            && final(app).delete_confirmation_message->0@ == "Failed to delete configs: "@ + e@,
{
    match result {
        Ok(()) => {
            app.delete_confirmation_message = Some("Configs deleted successfully.".to_owned());
            app.stopped_configs = remove_ids(&app.stopped_configs, ids);
        },
        Err(e) => {
            app.delete_confirmation_message = Some(
                with_detail("Failed to delete configs: ", e.as_str()),
            );
        },
    }
    app.selected_rows_stopped.clear();
    app.state = AppState::Normal;
}

/// What a key in the context picker does to `pre`, giving `post` and `r`.
pub open spec fn context_selection_post(pre: &App, post: &App, key: Key, r: Effect) -> bool {
    &&& (post.same_data(pre))
    &&& (post.state == pre.state)
    &&& (post.contexts@ == pre.contexts@)
    &&& (key == Key::Up ==> (if pre.selected_context_index > 0 { post.selected_context_index ==
            pre.selected_context_index - 1 && post.context_list_state ==
            Some(post.selected_context_index) } else { post.selected_context_index ==
            pre.selected_context_index && post.context_list_state == pre.context_list_state }))
    &&& (key == Key::Down ==> (if pre.selected_context_index + 1 < pre.contexts@.len() {
            post.selected_context_index == pre.selected_context_index + 1 &&
            post.context_list_state == Some(post.selected_context_index) } else {
            post.selected_context_index == pre.selected_context_index && post.context_list_state ==
            pre.context_list_state }))
    &&& (key == Key::Enter && pre.selected_context_index < pre.contexts@.len() ==> (r matches
            Effect::SelectContext(c) && c@ == pre.contexts@[pre.selected_context_index as int]@))
    &&& (!(key == Key::Enter && pre.selected_context_index < pre.contexts@.len()) ==> r == Effect::Nothing)
    &&& (key != Key::Up && key != Key::Down ==> post.selected_context_index == pre.selected_context_index)
}

/// Handles a key in the context picker: Up/Down move the highlight within
/// the list, Enter asks the host to import the highlighted context.
pub fn handle_context_selection_input(app: &mut App, key: Key) -> (r: Effect)
    requires
        old(app).wf(),
    ensures
        final(app).wf(),
        context_selection_post(old(app), final(app), key, r),
{
    match key {
        Key::Enter => {
            if app.selected_context_index < app.contexts.len() {
                let chosen = app.contexts[app.selected_context_index].clone();
                Effect::SelectContext(chosen)
            } else {
                Effect::Nothing
            }
        },
        Key::Up => {
            if app.selected_context_index > 0 {
                app.selected_context_index = app.selected_context_index - 1;
                app.context_list_state = Some(app.selected_context_index);
            }
            Effect::Nothing
        },
        Key::Down => {
            if app.selected_context_index < app.contexts.len() && app.selected_context_index + 1 <
                    app.contexts.len() {
                app.selected_context_index = app.selected_context_index + 1;
                app.context_list_state = Some(app.selected_context_index);
            }
            Effect::Nothing
        },
        _ => Effect::Nothing,
    }
}

/// Shows `message` in the error popup.
fn show_error(app: &mut App, message: String)
    ensures
        *final(app) == (App {
            state: AppState::ShowErrorPopup,
            error_message: Some(message),
            ..*old(app)
        }),
{
    app.error_message = Some(message);
    app.state = AppState::ShowErrorPopup;
}

/// The message the error popup shows for a failure described by `e`: `e`
/// itself, or a fallback when `e` is empty.
pub open spec fn shown_error(e: Seq<char>) -> Seq<char> {
    if e.len() == 0 {
        "Unknown error"@
    } else {
        e
    }
}

/// `e`, or a fallback when `e` is empty, so that the popup never shows
/// an empty message.
fn nonempty_error(e: String) -> (r: String)
    ensures
        r@ == shown_error(e@),
        r@.len() > 0,
{
    if e.as_str().is_empty() {
        proof {
            reveal_strlit("Unknown error");
        }
        "Unknown error".to_owned()
    } else {
        e
    }
}

/// Takes in the contexts that discovery found, or why it failed: on success
/// the context picker opens on the first context.
pub fn finish_auto_add(app: &mut App, result: Result<Vec<String>, String>)
    requires
        old(app).wf(),
    ensures
        final(app).wf(),
        result matches Ok(contexts) ==> *final(app) == (App {
            contexts: contexts,
            selected_context_index: 0,
            context_list_state: Some(0usize),
            state: AppState::ShowContextSelection,
            ..*old(app)
        }),
        result matches Err(e) ==> {
            &&& final(app).error_message is Some
            &&& final(app).error_message->0@ == shown_error(e@)
            &&& final(app).error_message->0@.len() > 0
            &&& *final(app) == (App {
                state: AppState::ShowErrorPopup,
                error_message: final(app).error_message,
                ..*old(app)
            })
        },
{
    match result {
        Ok(contexts) => {
            app.contexts = contexts;
            app.selected_context_index = 0;
            app.context_list_state = Some(0);
            app.state = AppState::ShowContextSelection;
        },
        Err(e) => show_error(app, nonempty_error(e)),
    }
}

/// Takes in the outcome of importing the chosen context: the normal screen
/// on success, the error popup with the failure's words otherwise.
pub fn finish_context_selection(app: &mut App, result: Result<(), String>)
    requires
        old(app).wf(),
    ensures
        final(app).wf(),
        result is Ok ==> *final(app) == (App { state: AppState::Normal, ..*old(app) }),
        result matches Err(e) ==> {
            &&& final(app).error_message is Some
            &&& final(app).error_message->0@ == shown_error(e@)
            &&& final(app).error_message->0@.len() > 0
            &&& *final(app) == (App {
                state: AppState::ShowErrorPopup,
                error_message: final(app).error_message,
                ..*old(app)
            })
        },
{
    match result {
        Ok(()) => {
            app.state = AppState::Normal;
        },
        Err(e) => show_error(app, nonempty_error(e)),
    }
}

/// Takes in the stored settings, where they could be read: the disconnect
/// timeout (0 when unset) fills the input, and the network-monitor flag.
pub fn settings_loaded(app: &mut App, timeout: Option<Option<u32>>, network_monitor: Option<bool>)
    requires
        old(app).wf(),
    ensures
        final(app).wf(),
        final(app).same_data(old(app)),
        final(app).state == old(app).state,
        timeout matches Some(t) ==> final(app).settings_timeout_input@ == decimal(
            (match t {
                Some(v) => v,
                None => 0u32,
            }) as nat,
        ),
        timeout is None ==> final(app).settings_timeout_input == old(app).settings_timeout_input,
        network_monitor matches Some(m) ==> final(app).settings_network_monitor == m,
        network_monitor is None ==> final(app).settings_network_monitor == old(app).settings_network_monitor,
{
    if let Some(t) = timeout {
        let v: u32 = match t {
            Some(v) => v,
            None => 0,
        };
        app.settings_timeout_input = decimal_digits(v as u64);
    }
    if let Some(m) = network_monitor {
        app.settings_network_monitor = m;
    }
}

/// What follows a saved network-monitor setting: restart the monitor when it
/// is now on, stop it when it is now off.
pub open spec fn monitor_follow_up(enabled: bool) -> Effect {
    if enabled {
        Effect::RestartNetworkMonitor
    } else {
        Effect::StopNetworkMonitor
    }
}

/// The message shown when restarting (`enabled`) or stopping the monitor failed.
pub open spec fn monitor_failure_text(enabled: bool, detail: Seq<char>) -> Seq<char> {
    (if enabled {
        "Failed to start network monitor: "@
    } else {
        "Failed to stop network monitor: "@
    }) + detail
}

/// What a key in the settings dialog does to `pre`, giving `post` and `r`.
pub open spec fn settings_post(pre: &App, post: &App, key: Key, r: Effect) -> bool {
    match key {
        Key::Esc => r == Effect::Nothing && *post == (App {
            state: AppState::Normal,
            settings_editing: false,
            ..*pre
        }),
        Key::Up => r == Effect::Nothing && *post == (App {
            settings_selected_option: if pre.settings_selected_option > 0 {
                (pre.settings_selected_option - 1) as usize
            } else {
                pre.settings_selected_option
            },
            ..*pre
        }),
        Key::Down => r == Effect::Nothing && *post == (App {
            settings_selected_option: if pre.settings_selected_option < 1 {
                (pre.settings_selected_option + 1) as usize
            } else {
                pre.settings_selected_option
            },
            ..*pre
        }),
        Key::Enter => settings_enter_post(pre, post, r),
        Key::Char(c) => {
            &&& r == Effect::Nothing
            &&& *post == (App { settings_timeout_input: post.settings_timeout_input, ..*pre })
            &&& post.settings_timeout_input@ == if pre.settings_editing
                && pre.settings_selected_option == 0 && '0' <= c && c <= '9' {
                pre.settings_timeout_input@.push(c)
            } else {
                pre.settings_timeout_input@
            }
        },
        Key::Backspace => {
            &&& r == Effect::Nothing
            &&& *post == (App { settings_timeout_input: post.settings_timeout_input, ..*pre })
            &&& post.settings_timeout_input@ == if pre.settings_editing
                && pre.settings_selected_option == 0 && pre.settings_timeout_input@.len() > 0 {
                pre.settings_timeout_input@.drop_last()
            } else {
                pre.settings_timeout_input@
            }
        },
        _ => r == Effect::Nothing && *post == *pre,
    }
}

/// What Enter in the settings dialog does to `pre`, giving `post` and `r`:
/// on the timeout it starts editing, or asks to save a valid value and
/// reports an invalid one; on the network monitor it flips the setting and
/// asks to save it.
pub open spec fn settings_enter_post(pre: &App, post: &App, r: Effect) -> bool {
    if pre.settings_selected_option == 0 && !pre.settings_editing {
        r == Effect::Nothing && *post == (App { settings_editing: true, ..*pre })
    } else if pre.settings_selected_option == 0 {
        match parsed_u32(pre.settings_timeout_input@) {
            Some(v) => r == Effect::SaveTimeout(v) && *post == *pre,
            None => {
                &&& r == Effect::Nothing
                &&& post.error_message is Some
                &&& post.error_message->0@ == "Invalid timeout value. Please enter a number."@
                &&& *post == (App {
                    state: AppState::ShowErrorPopup,
                    error_message: post.error_message,
                    ..*pre
                })
            },
        }
    } else if pre.settings_selected_option == 1 {
        &&& r == Effect::SaveNetworkMonitor(!pre.settings_network_monitor)
        &&& *post == (App { settings_network_monitor: !pre.settings_network_monitor, ..*pre })
    } else {
        r == Effect::Nothing && *post == *pre
    }
}

/// Handles a key in the settings dialog: Esc closes it, Up/Down choose the
/// option, Enter edits and saves the timeout or flips the network monitor,
/// digits and Backspace edit the timeout.
pub fn handle_settings_input(app: &mut App, key: Key) -> (r: Effect)
    requires
        old(app).wf(),
    ensures
        final(app).wf(),
        settings_post(old(app), final(app), key, r),
{
    match key {
        Key::Esc => {
            app.state = AppState::Normal;
            app.settings_editing = false;
            Effect::Nothing
        },
        Key::Up => {
            if app.settings_selected_option > 0 {
                app.settings_selected_option = app.settings_selected_option - 1;
            }
            Effect::Nothing
        },
        Key::Down => {
            if app.settings_selected_option < 1 {
                app.settings_selected_option = app.settings_selected_option + 1;
            }
            Effect::Nothing
        },
        Key::Enter => {
            if app.settings_selected_option == 0 {
                if app.settings_editing {
                    match parse_u32(&app.settings_timeout_input) {
                        Some(v) => Effect::SaveTimeout(v),
                        None => {
                            show_error(app, "Invalid timeout value. Please enter a number.".to_owned());
                            Effect::Nothing
                        },
                    }
                } else {
                    app.settings_editing = true;
                    Effect::Nothing
                }
            } else if app.settings_selected_option == 1 {
                app.settings_network_monitor = !app.settings_network_monitor;
                Effect::SaveNetworkMonitor(app.settings_network_monitor)
            } else {
                Effect::Nothing
            }
        },
        Key::Char(c) => {
            if app.settings_editing && app.settings_selected_option == 0 && '0' <= c && c <= '9' {
                app.settings_timeout_input.push(c);
            }
            Effect::Nothing
        },
        Key::Backspace => {
            if app.settings_editing && app.settings_selected_option == 0 &&
                    app.settings_timeout_input.len() > 0 {
                app.settings_timeout_input.pop();
            }
            Effect::Nothing
        },
        _ => Effect::Nothing,
    }
}

/// Takes in whether saving the timeout worked: editing ends on success; a
/// failure is reported inside the settings dialog, which stays open.
pub fn finish_timeout_save(app: &mut App, saved: bool)
    requires
        old(app).wf(),
    ensures
        final(app).wf(),
        saved ==> *final(app) == (App { settings_editing: false, settings_message: None, ..*old(app) }),
        !saved ==> {
            &&& final(app).settings_message is Some
            &&& final(app).settings_message->0@ == "Failed to save timeout setting"@
            &&& *final(app) == (App { settings_message: final(app).settings_message, ..*old(app) })
        },
{
    if saved {
        app.settings_editing = false;
        app.settings_message = None;
    } else {
        app.settings_message = Some("Failed to save timeout setting".to_owned());
    }
}

/// Takes in the outcome of saving the network-monitor setting. The monitor
/// is to be restarted (setting on) or stopped (setting off) either way; a
/// failed save is reported inside the settings dialog, with the failure's
/// words.
pub fn finish_network_monitor_save(app: &mut App, result: Result<(), String>) -> (r: Effect)
    requires
        old(app).wf(),
    ensures
        final(app).wf(),
        r == monitor_follow_up(old(app).settings_network_monitor),
        result is Ok ==> *final(app) == (App { settings_message: None, ..*old(app) }),
        result matches Err(e) ==> {
            &&& final(app).settings_message is Some
            &&& final(app).settings_message->0@ == "Failed to save network monitor setting: "@ + e@
            &&& *final(app) == (App { settings_message: final(app).settings_message, ..*old(app) })
        },
{
    match result {
        Ok(()) => {
            app.settings_message = None;
        },
        Err(e) => {
            app.settings_message = Some(
                with_detail("Failed to save network monitor setting: ", e.as_str()),
            );
        },
    }
    if app.settings_network_monitor {
        Effect::RestartNetworkMonitor
    } else {
        Effect::StopNetworkMonitor
    }
}

/// Takes in the outcome of restarting or stopping the network monitor: a
/// failure opens the error popup with the failure's own words.
pub fn finish_network_monitor_call(app: &mut App, result: Result<(), String>)
    requires
        old(app).wf(),
    ensures
        final(app).wf(),
        final(app).same_data(old(app)),
        result is Ok ==> final(app).state == old(app).state && final(app).error_message ==
                old(app).error_message,
        result matches Err(e) ==> final(app).state == AppState::ShowErrorPopup &&
                final(app).error_message is Some
            && final(app).error_message->0@ == monitor_failure_text(old(app).settings_network_monitor, e@),
{
    match result {
        Ok(()) => {},
        Err(e) => {
            let msg = if app.settings_network_monitor {
                with_detail("Failed to start network monitor: ", e.as_str())
            } else {
                with_detail("Failed to stop network monitor: ", e.as_str())
            };
            show_error(app, msg);
        },
    }
}

/// Whether `st` is a dialog that the host draws and drives.
pub open spec fn is_host_dialog(st: AppState) -> bool {
    st == AppState::ShowConfirmationPopup || st == AppState::ImportFileExplorerOpen
        || st == AppState::ExportFileExplorerOpen || st == AppState::ShowInputPrompt
}

/// Handles one key press. Ctrl-C asks for shutdown from anywhere; otherwise
/// the key goes to the handler of the current screen. Esc or Enter
/// acknowledges the error popup, help and about; Esc closes the host's
/// dialogs, which get every other key.
pub fn handle_input(app: &mut App, key: Key, now: u64) -> (r: Effect)
    requires
        old(app).wf(),
    ensures
        final(app).wf(),
        key == Key::Ctrl('c') ==> r == Effect::Shutdown && *final(app) == *old(app),
        key != Key::Ctrl('c') && old(app).state == AppState::ShowErrorPopup ==>
                final(app).same_data(old(app)) && (if key
            == Key::Esc || key == Key::Enter {
            final(app).state == AppState::Normal && final(app).error_message is None
        } else {
            *final(app) == *old(app)
        }),
        key != Key::Ctrl('c') && (old(app).state == AppState::ShowHelp || old(app).state ==
                AppState::ShowAbout)
            ==> final(app).same_data(old(app)) && final(app).state == (if key == Key::Esc || key ==
                    Key::Enter {
            AppState::Normal
        } else {
            old(app).state
        }),
        key != Key::Ctrl('c') && is_host_dialog(old(app).state) ==> final(app).same_data(old(app))
                && (if key == Key::Esc {
            final(app).state == AppState::Normal
        } else {
            r == Effect::Popup(key) && *final(app) == *old(app)
        }),
        key != Key::Ctrl('c') && old(app).state != AppState::Normal && old(app).state !=
                AppState::ShowDeleteConfirmation
            ==> final(app).same_data(old(app)),
        key != Key::Ctrl('c') && old(app).state == AppState::ShowDeleteConfirmation ==>
                delete_confirmation_post(
            old(app),
            final(app),
            key,
            r,
        ),
        key != Key::Ctrl('c') && old(app).state == AppState::ShowContextSelection ==> context_selection_post(
            old(app),
            final(app),
            key,
            r,
        ),
        key != Key::Ctrl('c') && old(app).state == AppState::ShowSettings ==>
                settings_post(old(app), final(app), key, r),
        key != Key::Ctrl('c') && old(app).state == AppState::Normal ==> normal_post(old(app),
                final(app), key, now, r),
{
    if key == Key::Ctrl('c') {
        return Effect::Shutdown;
    }
    match app.state {
        AppState::ShowErrorPopup => {
            if key == Key::Esc || key == Key::Enter {
                app.error_message = None;
                app.state = AppState::Normal;
            }
            Effect::Nothing
        },
        AppState::ShowHelp | AppState::ShowAbout => {
            if key == Key::Esc || key == Key::Enter {
                app.state = AppState::Normal;
            }
            Effect::Nothing
        },
        AppState::ShowConfirmationPopup | AppState::ImportFileExplorerOpen
        | AppState::ExportFileExplorerOpen | AppState::ShowInputPrompt => {
            if key == Key::Esc {
                app.state = AppState::Normal;
                Effect::Nothing
            } else {
                Effect::Popup(key)
            }
        },
        AppState::ShowDeleteConfirmation => handle_delete_confirmation_input(app, key),
        AppState::ShowContextSelection => handle_context_selection_input(app, key),
        AppState::ShowSettings => handle_settings_input(app, key),
        AppState::Normal => handle_normal_input(app, key, now),
    }
}

proof fn lemma_without_excludes(s: Seq<Config>, removed: Seq<Config>)
    ensures
        forall|c: Config| without(s, removed).contains(c) ==> !removed.contains(c),
    decreases s.len(),
{
    if s.len() > 0 {
        lemma_without_excludes(s.drop_last(), removed);
        let rest = without(s.drop_last(), removed);
        assert forall|c: Config| without(s, removed).contains(c) implies !removed.contains(c) by {
            if !removed.contains(s.last()) {
                let k = choose|k: int| 0 <= k < without(s, removed).len() && without(s, removed)[k] == c;
                if k < rest.len() {
                    assert(rest[k] == c);
                    assert(rest.contains(c));
                }
            }
        }
    }
}

proof fn lemma_tasks_from(configs: Seq<Config>, start: bool)
    ensures
        forall|t: Task| tasks_for(configs, start).contains(t) ==> configs.contains(t.config) &&
                t.start == start,
    decreases configs.len(),
{
    if configs.len() > 0 {
        let init = configs.drop_last();
        lemma_tasks_from(init, start);
        let rest = tasks_for(init, start);
        assert forall|t: Task| tasks_for(configs, start).contains(t) implies
                configs.contains(t.config) && t.start == start by {
            let all = tasks_for(configs, start);
            let k = choose|k: int| 0 <= k < all.len() && all[k] == t;
            if k < rest.len() {
                assert(rest[k] == t);
                assert(rest.contains(t));
                let j = choose|j: int| 0 <= j < init.len() && init[j] == t.config;
                assert(configs[j] == t.config);
            } else {
                assert(configs[configs.len() - 1] == t.config);
            }
        }
    }
}

/// Every configuration dispatched for start is in the running list and not
/// in the stopped list as soon as the dispatch returns, before any task has
/// finished.
pub proof fn lemma_started_configs_move_to_running(pre: &App, post: &App, tasks: Seq<Task>, now: u64)
    requires
        dispatch_post(pre, post, tasks, now),
        pre.active_table == ActiveTable::Stopped,
    ensures
        forall|t: Task| tasks.contains(t) ==> t.start,
        forall|t: Task| tasks.contains(t) ==> post.running_configs@.contains(t.config),
        forall|t: Task| tasks.contains(t) ==> !post.stopped_configs@.contains(t.config),
{
    if pre.active_list().len() > 0 {
        let moved = picked(pre.active_list(), effective_rows(pre.active_selection(), pre.active_row()));
        lemma_tasks_from(moved, true);
        lemma_without_excludes(pre.stopped_configs@, moved);
        assert forall|t: Task| tasks.contains(t) implies post.running_configs@.contains(t.config) by {
            let j = choose|j: int| 0 <= j < moved.len() && moved[j] == t.config;
            assert(post.running_configs@[pre.running_configs@.len() + j] == t.config);
        }
    }
}

/// Turning the network monitor off in the settings dialog asks to save
/// `false` and then to stop the monitor; turning it on asks to save `true`
/// and then to restart it. A failure of the monitor call is shown with the
/// call's own words.
pub proof fn lemma_monitor_toggle(pre: &App, post: &App, r: Effect, detail: Seq<char>)
    requires
        settings_post(pre, post, Key::Enter, r),
        pre.settings_selected_option == 1,
    ensures
        r == Effect::SaveNetworkMonitor(!pre.settings_network_monitor),
        pre.settings_network_monitor ==> monitor_follow_up(post.settings_network_monitor) ==
                Effect::StopNetworkMonitor,
        !pre.settings_network_monitor ==> monitor_follow_up(post.settings_network_monitor) ==
                Effect::RestartNetworkMonitor,
        monitor_failure_text(post.settings_network_monitor, detail).subrange(
            monitor_failure_text(post.settings_network_monitor, detail).len() - detail.len(),
            monitor_failure_text(post.settings_network_monitor, detail).len() as int,
        ) == detail,
{
    let m = monitor_failure_text(post.settings_network_monitor, detail);
    let prefix = if post.settings_network_monitor {
        "Failed to start network monitor: "@
    } else {
        "Failed to stop network monitor: "@
    };
    assert(m == prefix + detail);
    assert(m.subrange(m.len() - detail.len(), m.len() as int) =~= detail);
}

} // verus!
