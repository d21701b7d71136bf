use vstd::prelude::*;

verus! {

/// The two buttons of the delete-confirmation dialog.
#[derive(PartialEq, Eq, Structural, Clone, Copy, Debug)]
pub enum DeleteButton {
    Confirm,
    Close,
}

/// The focused component of the normal screen.
#[derive(PartialEq, Eq, Structural, Clone, Copy, Debug)]
pub enum ActiveComponent {
    Menu,
    StoppedTable,
    RunningTable,
    Details,
    Logs,
}

/// Which of the two tables selection and dispatch act on.
#[derive(PartialEq, Eq, Structural, Clone, Copy, Debug)]
pub enum ActiveTable {
    Stopped,
    Running,
}

/// The screen or modal that is shown; exactly one is active at a time.
#[derive(PartialEq, Eq, Structural, Clone, Copy, Debug)]
pub enum AppState {
    Normal,
    ShowErrorPopup,
    ShowConfirmationPopup,
    ImportFileExplorerOpen,
    ExportFileExplorerOpen,
    ShowInputPrompt,
    ShowHelp,
    ShowAbout,
    ShowDeleteConfirmation,
    ShowContextSelection,
    ShowSettings,
}

/// A key press, as far as the orchestrator tells keys apart.
#[derive(PartialEq, Eq, Structural, Clone, Copy, Debug)]
pub enum Key {
    Char(char),
    /// A character typed together with the control modifier.
    Ctrl(char),
    Up,
    Down,
    Left,
    Right,
    Enter,
    Esc,
    Tab,
    PageUp,
    PageDown,
    Backspace,
    Other,
}

/// A saved port-forward configuration, as the orchestrator sees it: its
/// identity and the ports it connects.
#[derive(PartialEq, Eq, Structural, Clone, Copy, Debug)]
pub struct Config {
    pub id: Option<i64>,
    pub local_port: Option<u16>,
    pub remote_port: Option<u16>,
}

/// Whether the session of one configuration is running.
#[derive(PartialEq, Eq, Structural, Clone, Copy, Debug)]
pub struct ConfigState {
    pub config_id: i64,
    pub is_running: bool,
}

/// The identity under which a configuration is looked up in the session
/// states (a configuration without one is looked up as 0).
pub open spec fn lookup_id(c: Config) -> i64 {
    match c.id {
        Some(id) => id,
        None => 0,
    }
}

/// What the first session state of `c`'s identity says, if any.
pub open spec fn first_state(states: Seq<ConfigState>, id: i64) -> Option<bool>
    decreases states.len(),
{
    if states.len() == 0 {
        None
    } else if states[0].config_id == id {
        Some(states[0].is_running)
    } else {
        first_state(states.drop_first(), id)
    }
}

/// A configuration counts as running when its first session state says so.
pub open spec fn is_running_in(states: Seq<ConfigState>, c: Config) -> bool {
    first_state(states, lookup_id(c)) == Some(true)
}

/// The configurations of `configs`, in order, whose running status is `running`.
pub open spec fn partition(configs: Seq<Config>, states: Seq<ConfigState>, running: bool) -> Seq<
    Config,
>
    decreases configs.len(),
{
    if configs.len() == 0 {
        Seq::empty()
    } else {
        let rest = partition(configs.drop_last(), states, running);
        if is_running_in(states, configs.last()) == running {
            rest.push(configs.last())
        } else {
            rest
        }
    }
}

/// The elements of `s`, in order, that do not occur in `removed`.
pub open spec fn without(s: Seq<Config>, removed: Seq<Config>) -> Seq<Config>
    decreases s.len(),
{
    if s.len() == 0 {
        Seq::empty()
    } else {
        let rest = without(s.drop_last(), removed);
        if removed.contains(s.last()) {
            rest
        } else {
            rest.push(s.last())
        }
    }
}

/// Whether `c` occurs in `v`.
pub fn contains_config(v: &Vec<Config>, c: &Config) -> (r: bool)
    ensures
        r == v@.contains(*c),
{
    let mut i: usize = 0;
    while i < v.len()
        invariant
            i <= v.len(),
            forall|j: int| 0 <= j < i ==> v@[j] != *c,
        decreases v.len() - i,
    {
        if v[i] == *c {
            return true;
        }
        i = i + 1;
    }
    false
}

/// The running status of `c` according to the first session state with its identity.
pub fn config_is_running(states: &Vec<ConfigState>, c: &Config) -> (r: bool)
    ensures
        r == is_running_in(states@, *c),
{
    let id: i64 = match c.id {
        Some(id) => id,
        None => 0,
    };
    let mut i: usize = 0;
    proof {
        assert(states@.subrange(0, states@.len() as int) =~= states@);
    }
    while i < states.len()
        invariant
            i <= states.len(),
            id == lookup_id(*c),
            first_state(states@, id) == first_state(states@.subrange(i as int, states@.len() as int), id),
        decreases states.len() - i,
    {
        let s = states[i];
        proof {
            assert(states@.subrange(i as int, states@.len() as int)[0] == s);
            assert(states@.subrange(i as int, states@.len() as int).drop_first() =~=
                    states@.subrange(i as int + 1, states@.len() as int));
        }
        if s.config_id == id {
            return s.is_running;
        }
        i = i + 1;
    }
    false
}

/// The configurations of `configs`, in order, whose running status is `running`.
pub fn partition_configs(configs: &Vec<Config>, states: &Vec<ConfigState>, running: bool) -> (r: Vec<Config>)
    ensures
        r@ == partition(configs@, states@, running),
{
    let mut out: Vec<Config> = Vec::new();
    let mut i: usize = 0;
    while i < configs.len()
        invariant
            i <= configs.len(),
            out@ == partition(configs@.subrange(0, i as int), states@, running),
        decreases configs.len() - i,
    {
        let c = configs[i];
        proof {
            assert(configs@.subrange(0, i as int + 1).drop_last() =~= configs@.subrange(0, i as int));
        }
        if config_is_running(states, &c) == running {
            out.push(c);
        }
        i = i + 1;
    }
    proof {
        assert(configs@.subrange(0, configs@.len() as int) =~= configs@);
    }
    out
}

/// The configurations of `v`, in order, that do not occur in `removed`.
pub fn retain_absent(v: &Vec<Config>, removed: &Vec<Config>) -> (r: Vec<Config>)
    ensures
        r@ == without(v@, removed@),
{
    let mut out: Vec<Config> = Vec::new();
    let mut i: usize = 0;
    while i < v.len()
        invariant
            i <= v.len(),
            out@ == without(v@.subrange(0, i as int), removed@),
        decreases v.len() - i,
    {
        let c = v[i];
        proof {
            assert(v@.subrange(0, i as int + 1).drop_last() =~= v@.subrange(0, i as int));
        }
        if !contains_config(removed, &c) {
            out.push(c);
        }
        i = i + 1;
    }
    proof {
        assert(v@.subrange(0, v@.len() as int) =~= v@);
    }
    out
}

} // verus!
