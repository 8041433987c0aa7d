//! The interactive monitor's state: the target process list, the selection,
//! the confirmation dialog, and how each key press changes them.
//!
//! Everything that talks to the system (sampling processes, sending
//! signals, the clock, the screen) happens outside; it hands the results in
//! and performs the [`KeyAction`] that a key press asks for.

use vstd::prelude::*;
use std::collections::HashSet;
use crate::process::{
    ProcessInfo,
    matching,
    find_matching_processes,
    select_top,
    is_top_selection,
    kill_count,
};

verus! {

/// The share of target processes, in percent, that a cleanup terminates.
pub const CLEANUP_PERCENT: u8 = 40;

/// What the monitor is doing.
#[derive(Clone, Copy, PartialEq, Eq, Structural, Debug)]
pub enum AppState {
    /// Browsing the process list.
    Normal,
    /// Asking to confirm a kill: of the process at this index, or, for
    /// `usize::MAX`, a cleanup of the heaviest processes.
    ConfirmKill(usize),
}

/// A key press, as far as the monitor distinguishes keys.
#[derive(Clone, Copy, PartialEq, Eq, Structural, Debug)]
pub enum KeyInput {
    Char(char),
    Up,
    Down,
    Enter,
    Esc,
    Other,
}

/// Work that a key press asks the caller to do.
#[derive(Clone, Copy, PartialEq, Eq, Structural, Debug)]
pub enum KeyAction {
    Nothing,
    /// Sample the processes again and report it.
    Refresh,
    /// Switch the interface language and report it.
    ToggleLanguage,
    /// Terminate the heaviest `CLEANUP_PERCENT` percent of the listed processes.
    KillTopMemory,
    /// Terminate the selected process.
    KillSelected,
}

/// The monitor's state.
pub struct App {
    /// Memory usage, in percent, at which automatic cleanup starts.
    pub threshold: u8,
    /// Seconds between automatic refreshes.
    pub interval: u64,
    /// The text that names a target process.
    pub process_name: String,
    pub selected_index: usize,
    /// The target processes, in the order they were sampled.
    pub processes: Vec<ProcessInfo>,
    pub state: AppState,
    pub should_quit: bool,
}

/// The selection points into the list whenever the list is not empty.
pub open spec fn selection_valid(selected: usize, len: nat) -> bool {
    len > 0 ==> selected < len
}

/// The selection after the list changed to `len` entries: pulled back to
/// the last entry if it fell off the end of a non-empty list.
pub open spec fn clamp_selection(selected: usize, len: nat) -> usize {
    if selected >= len && len > 0 {
        (len - 1) as usize
    } else {
        selected
    }
}

/// The effect of one key press: the new selection, state and quit flag,
/// and the work asked of the caller.
pub open spec fn key_transition(
    selected: usize,
    len: nat,
    state: AppState,
    quit: bool,
    key: KeyInput,
) -> (usize, AppState, bool, KeyAction) {
    match state {
        AppState::Normal => {
            if key == KeyInput::Char('q') || key == KeyInput::Esc {
                (selected, state, true, KeyAction::Nothing)
            } else if key == KeyInput::Down || key == KeyInput::Char('j') {
                (if selected + 1 < len {
                    (selected + 1) as usize
                } else {
                    selected
                }, state, quit, KeyAction::Nothing)
            } else if key == KeyInput::Up || key == KeyInput::Char('k') {
                (if selected > 0 {
                    (selected - 1) as usize
                } else {
                    selected
                }, state, quit, KeyAction::Nothing)
            } else if key == KeyInput::Enter {
                (selected, if len > 0 {
                    AppState::ConfirmKill(selected)
                } else {
                    state
                }, quit, KeyAction::Nothing)
            } else if key == KeyInput::Char('r') {
                (selected, state, quit, KeyAction::Refresh)
            } else if key == KeyInput::Char('a') {
                (selected, if len > 0 {
                    AppState::ConfirmKill(usize::MAX)
                } else {
                    state
                }, quit, KeyAction::Nothing)
            } else if key == KeyInput::Char('L') {
                (selected, state, quit, KeyAction::ToggleLanguage)
            } else {
                (selected, state, quit, KeyAction::Nothing)
            }
        },
        AppState::ConfirmKill(index) => {
            if key == KeyInput::Char('y') || key == KeyInput::Enter {
                (selected, AppState::Normal, quit, if index == usize::MAX {
                    KeyAction::KillTopMemory
                } else {
                    KeyAction::KillSelected
                })
            } else if key == KeyInput::Char('n') || key == KeyInput::Esc {
                (selected, AppState::Normal, quit, KeyAction::Nothing)
            } else {
                (selected, state, quit, KeyAction::Nothing)
            }
        },
    }
}

/// The processes of `ps` whose pid is not in `pids`, in order.
pub open spec fn without_pids(ps: Seq<ProcessInfo>, pids: Set<u32>) -> Seq<ProcessInfo>
    decreases ps.len(),
{
    if ps.len() == 0 {
        Seq::empty()
    } else {
        let rest = without_pids(ps.drop_last(), pids);
        if pids.contains(ps.last().pid) {
            rest
        } else {
            rest.push(ps.last())
        }
    }
}

impl App {
    /// A monitor for processes named by `process_name`, with an empty list.
    pub fn new(threshold: u8, interval: u64, process_name: String) -> (app: App)
        ensures
            app.threshold == threshold,
            app.interval == interval,
            app.process_name == process_name,
            app.selected_index == 0,
            app.processes@.len() == 0,
            app.state == AppState::Normal,
            !app.should_quit,
    {
        App {
            threshold,
            interval,
            process_name,
            selected_index: 0,
            processes: Vec::new(),
            state: AppState::Normal,
            should_quit: false,
        }
    }

    /// Applies one key press and says what work it asks for.
    pub fn handle_key(&mut self, key: KeyInput) -> (action: KeyAction)
        ensures
            (final(self).selected_index, final(self).state, final(self).should_quit, action)
                == key_transition(
                old(self).selected_index,
                old(self).processes@.len(),
                old(self).state,
                old(self).should_quit,
                key,
            ),
            final(self).processes == old(self).processes,
            final(self).process_name == old(self).process_name,
            final(self).threshold == old(self).threshold,
            final(self).interval == old(self).interval,
    {
        let len = self.processes.len();
        match self.state {
            AppState::Normal => {
                if key == KeyInput::Char('q') || key == KeyInput::Esc {
                    self.should_quit = true;
                } else if key == KeyInput::Down || key == KeyInput::Char('j') {
                    let last = if len > 0 {
                        len - 1
                    } else {
                        0
                    };
                    if self.selected_index < last {
                        self.selected_index = self.selected_index + 1;
                    }
                } else if key == KeyInput::Up || key == KeyInput::Char('k') {
                    if self.selected_index > 0 {
                        self.selected_index = self.selected_index - 1;
                    }
                } else if key == KeyInput::Enter {
                    if len > 0 {
                        self.state = AppState::ConfirmKill(self.selected_index);
                    }
                } else if key == KeyInput::Char('r') {
                    return KeyAction::Refresh;
                } else if key == KeyInput::Char('a') {
                    if len > 0 {
                        self.state = AppState::ConfirmKill(usize::MAX);
                    }
                } else if key == KeyInput::Char('L') {
                    return KeyAction::ToggleLanguage;
                }
                KeyAction::Nothing
            },
            AppState::ConfirmKill(index) => {
                if key == KeyInput::Char('y') || key == KeyInput::Enter {
                    self.state = AppState::Normal;
                    if index == usize::MAX {
                        KeyAction::KillTopMemory
                    } else {
                        KeyAction::KillSelected
                    }
                } else if key == KeyInput::Char('n') || key == KeyInput::Esc {
                    self.state = AppState::Normal;
                    KeyAction::Nothing
                } else {
                    KeyAction::Nothing
                }
            },
        }
    }

    /// Replaces the list with the sampled processes whose name contains
    /// `process_name`, keeping the selection inside the list.
    pub fn set_processes(&mut self, sampled: &Vec<ProcessInfo>)
        ensures
            final(self).processes@ == matching(sampled@, old(self).process_name@),
            final(self).selected_index == clamp_selection(
                old(self).selected_index,
                final(self).processes@.len(),
            ),
            final(self).process_name == old(self).process_name,
            final(self).state == old(self).state,
            final(self).should_quit == old(self).should_quit,
            final(self).threshold == old(self).threshold,
            final(self).interval == old(self).interval,
    {
        self.processes = find_matching_processes(sampled, self.process_name.as_str());
        self.clamp();
    }

    fn clamp(&mut self)
        ensures
            final(self).selected_index == clamp_selection(
                old(self).selected_index,
                old(self).processes@.len(),
            ),
            final(self).processes == old(self).processes,
            final(self).process_name == old(self).process_name,
            final(self).state == old(self).state,
            final(self).should_quit == old(self).should_quit,
            final(self).threshold == old(self).threshold,
            final(self).interval == old(self).interval,
    {
        let len = self.processes.len();
        if self.selected_index >= len && len > 0 {
            self.selected_index = len - 1;
        }
    }

    /// The pid of the selected process, if the selection is in the list.
    pub fn selected_pid(&self) -> (r: Option<u32>)
        ensures
            r == (if self.selected_index < self.processes@.len() {
                Some(self.processes@[self.selected_index as int].pid)
            } else {
                None::<u32>
            }),
    {
        if self.selected_index < self.processes.len() {
            Some(self.processes[self.selected_index].pid)
        } else {
            None
        }
    }

    /// The pids to terminate in a cleanup of `percentage` percent: the
    /// heaviest processes first, as many as `percentage` percent of the
    /// list rounded up (all of them beyond 100 percent).
    pub fn kill_targets(&self, percentage: u8) -> (pids: Vec<u32>)
        ensures
            exists|sel: Seq<usize>|
                #[trigger] is_top_selection(
                    self.processes@,
                    sel,
                    kill_count(self.processes@.len(), percentage as nat),
                ) && pids@ == sel.map_values(|i: usize| self.processes@[i as int].pid),
    {
        let n = self.processes.len();
        proof {
            assert((n as u128) * (percentage as u128) <= 0xffff_ffff_ffff_ffff * 255) by (nonlinear_arith)
                requires
                    n <= 0xffff_ffff_ffff_ffff,
                    percentage <= 255,
            ;
        }
        let wanted: u128 = ((n as u128) * (percentage as u128) + 99) / 100;
        let count: usize = if wanted > n as u128 {
            n
        } else {
            wanted as usize
        };
        let sel = select_top(&self.processes, count);
        let mut pids: Vec<u32> = Vec::new();
        let k = sel.len();
        for j in 0..k
            invariant
                k == sel@.len(),
                is_top_selection(self.processes@, sel@, count as nat),
                pids@ == sel@.take(j as int).map_values(|i: usize| self.processes@[i as int].pid),
        {
            pids.push(self.processes[sel[j]].pid);
            assert(sel@.take(j + 1) =~= sel@.take(j as int).push(sel@[j as int]));
            assert(pids@ =~= sel@.take(j + 1).map_values(|i: usize| self.processes@[i as int].pid));
        }
        assert(sel@.take(k as int) =~= sel@);
        assert(is_top_selection(
            self.processes@,
            sel@,
            kill_count(self.processes@.len(), percentage as nat),
        ));
        pids
    }

    /// Drops the processes whose pid is in `killed`, keeping the selection
    /// inside the list.
    pub fn remove_processes(&mut self, killed: &HashSet<u32>)
        ensures
            final(self).processes@ == without_pids(old(self).processes@, killed@),
            final(self).selected_index == clamp_selection(
                old(self).selected_index,
                final(self).processes@.len(),
            ),
            final(self).process_name == old(self).process_name,
            final(self).state == old(self).state,
            final(self).should_quit == old(self).should_quit,
            final(self).threshold == old(self).threshold,
            final(self).interval == old(self).interval,
    {
        broadcast use vstd::std_specs::hash::group_hash_axioms;

        let mut kept: Vec<ProcessInfo> = Vec::new();
        let n = self.processes.len();
        for i in 0..n
            invariant
                n == self.processes@.len(),
                kept@ == without_pids(self.processes@.take(i as int), killed@),
        {
            assert(self.processes@.take(i + 1).drop_last() =~= self.processes@.take(i as int));
            if !killed.contains(&self.processes[i].pid) {
                kept.push(self.processes[i].copied());
            }
        }
        assert(self.processes@.take(n as int) =~= self.processes@);
        self.processes = kept;
        self.clamp();
    }
}

/// After removal no listed process carries a removed pid, and the list did
/// not grow.
pub proof fn law_removed_pids_are_gone(ps: Seq<ProcessInfo>, pids: Set<u32>)
    ensures
        without_pids(ps, pids).len() <= ps.len(),
        forall|i: int|
            0 <= i < without_pids(ps, pids).len() ==> !pids.contains(
                (#[trigger] without_pids(ps, pids)[i]).pid,
            ),
    decreases ps.len(),
{
    if ps.len() > 0 {
        law_removed_pids_are_gone(ps.drop_last(), pids);
    }
}

/// Removal keeps every process whose pid was not removed.
pub proof fn law_removal_keeps_the_rest(ps: Seq<ProcessInfo>, pids: Set<u32>)
    ensures
        forall|i: int|
            0 <= i < ps.len() && !pids.contains(#[trigger] ps[i].pid) ==> without_pids(
                ps,
                pids,
            ).contains(ps[i]),
    decreases ps.len(),
{
    if ps.len() > 0 {
        let prev = ps.drop_last();
        law_removal_keeps_the_rest(prev, pids);
        let rest = without_pids(prev, pids);
        assert forall|i: int|
            0 <= i < ps.len() && !pids.contains(#[trigger] ps[i].pid) implies without_pids(
            ps,
            pids,
        ).contains(ps[i]) by {
            if i < ps.len() - 1 {
                assert(prev[i] == ps[i]);
                assert(rest.contains(ps[i]));
                let k = choose|k: int| 0 <= k < rest.len() && rest[k] == ps[i];
                if !pids.contains(ps.last().pid) {
                    assert(rest.push(ps.last())[k] == ps[i]);
                }
            } else {
                assert(rest.push(ps.last())[rest.len() as int] == ps[i]);
            }
        }
    }
}

/// Removal keeps, in their order, exactly the processes whose pid is not
/// among the removed ones.
pub proof fn law_removal_is_a_filter(ps: Seq<ProcessInfo>, pids: Set<u32>)
    ensures
        without_pids(ps, pids) == ps.filter(|p: ProcessInfo| !pids.contains(p.pid)),
    decreases ps.len(),
{
    let keep = |p: ProcessInfo| !pids.contains(p.pid);
    reveal(Seq::filter);
    if ps.len() > 0 {
        law_removal_is_a_filter(ps.drop_last(), pids);
        assert(ps.filter(keep) == if keep(ps.last()) {
            ps.drop_last().filter(keep).push(ps.last())
        } else {
            ps.drop_last().filter(keep)
        });
    } else {
        assert(ps.filter(keep) =~= Seq::<ProcessInfo>::empty());
    }
}

/// Every key press keeps a valid selection valid.
pub proof fn law_key_keeps_selection_valid(
    selected: usize,
    len: nat,
    state: AppState,
    quit: bool,
    key: KeyInput,
)
    requires
        selection_valid(selected, len),
    ensures
        selection_valid(key_transition(selected, len, state, quit, key).0, len),
{
}

/// Clamping always leaves a valid selection.
pub proof fn law_clamp_is_valid(selected: usize, len: nat)
    requires
        len <= usize::MAX,
    ensures
        selection_valid(clamp_selection(selected, len), len),
        selection_valid(selected, len) ==> clamp_selection(selected, len) == selected,
{
}

/// Once asked to quit, the monitor stays asked to quit.
pub proof fn law_quit_is_permanent(selected: usize, len: nat, state: AppState, key: KeyInput)
    ensures
        key_transition(selected, len, state, true, key).2,
{
}

/// A confirmation is answered by yes (`y`, Enter) or no (`n`, Esc); either
/// answer returns to browsing, and only yes asks for a kill.
pub proof fn law_confirmation_answers(selected: usize, len: nat, index: usize, quit: bool, key: KeyInput)
    requires
        key == KeyInput::Char('y') || key == KeyInput::Enter || key == KeyInput::Char('n')
            || key == KeyInput::Esc,
    ensures
        key_transition(selected, len, AppState::ConfirmKill(index), quit, key).1 == AppState::Normal,
        (key_transition(selected, len, AppState::ConfirmKill(index), quit, key).3
            != KeyAction::Nothing) == (key == KeyInput::Char('y') || key == KeyInput::Enter),
{
}

/// A kill is only ever confirmed for a non-empty list.
pub proof fn law_confirm_needs_processes(selected: usize, state: AppState, quit: bool, key: KeyInput)
    requires
        state == AppState::Normal,
    ensures
        key_transition(selected, 0, state, quit, key).1 == AppState::Normal,
{
}

/// A selection that falls off the end of a non-empty list moves to the last
/// entry; one inside the list, or any selection of an empty list, stays.
pub proof fn law_clamp_moves_to_last_entry(selected: usize, len: nat)
    requires
        len <= usize::MAX,
    ensures
        selected >= len && len > 0 ==> clamp_selection(selected, len) == len - 1,
        selected < len ==> clamp_selection(selected, len) == selected,
        len == 0 ==> clamp_selection(selected, len) == selected,
{
}

/// While browsing, the arrow keys act exactly as the `k` / `j` keys: up
/// moves the selection one entry towards the top (staying at the top),
/// down one entry towards the end (staying at the last entry); neither
/// changes anything else or asks for work.
pub proof fn law_arrows_move_the_selection(selected: usize, len: nat, quit: bool)
    ensures
        key_transition(selected, len, AppState::Normal, quit, KeyInput::Up) == key_transition(
            selected,
            len,
            AppState::Normal,
            quit,
            KeyInput::Char('k'),
        ),
        key_transition(selected, len, AppState::Normal, quit, KeyInput::Down) == key_transition(
            selected,
            len,
            AppState::Normal,
            quit,
            KeyInput::Char('j'),
        ),
        key_transition(selected, len, AppState::Normal, quit, KeyInput::Up) == (
            if selected > 0 {
                (selected - 1) as usize
            } else {
                selected
            },
            AppState::Normal,
            quit,
            KeyAction::Nothing,
        ),
        key_transition(selected, len, AppState::Normal, quit, KeyInput::Down) == (
            if selected + 1 < len {
                (selected + 1) as usize
            } else {
                selected
            },
            AppState::Normal,
            quit,
            KeyAction::Nothing,
        ),
{
}

/// While browsing: `q` and Esc ask to quit and change nothing else; Enter
/// asks to confirm killing the selected entry and `a` to confirm a cleanup
/// (both only for a non-empty list); `r` asks for a refresh and `L` for a
/// language switch without changing the state; any other key does nothing.
pub proof fn law_browsing_keys(selected: usize, len: nat, quit: bool, key: KeyInput)
    ensures
        (key == KeyInput::Char('q') || key == KeyInput::Esc) ==> key_transition(
            selected,
            len,
            AppState::Normal,
            quit,
            key,
        ) == (selected, AppState::Normal, true, KeyAction::Nothing),
        key == KeyInput::Enter ==> key_transition(selected, len, AppState::Normal, quit, key) == (
            selected,
            if len > 0 {
                AppState::ConfirmKill(selected)
            } else {
                AppState::Normal
            },
            quit,
            KeyAction::Nothing,
        ),
        key == KeyInput::Char('a') ==> key_transition(selected, len, AppState::Normal, quit, key)
            == (selected, if len > 0 {
            AppState::ConfirmKill(usize::MAX)
        } else {
            AppState::Normal
        }, quit, KeyAction::Nothing),
        key == KeyInput::Char('r') ==> key_transition(selected, len, AppState::Normal, quit, key)
            == (selected, AppState::Normal, quit, KeyAction::Refresh),
        key == KeyInput::Char('L') ==> key_transition(selected, len, AppState::Normal, quit, key)
            == (selected, AppState::Normal, quit, KeyAction::ToggleLanguage),
        !(key == KeyInput::Char('q') || key == KeyInput::Esc || key == KeyInput::Up || key
            == KeyInput::Down || key == KeyInput::Char('k') || key == KeyInput::Char('j') || key
            == KeyInput::Enter || key == KeyInput::Char('a') || key == KeyInput::Char('r') || key
            == KeyInput::Char('L')) ==> key_transition(selected, len, AppState::Normal, quit, key)
            == (selected, AppState::Normal, quit, KeyAction::Nothing),
{
}

/// While confirming: yes (`y`, Enter) asks for the cleanup when the
/// dialog was opened for it and for killing the selected entry otherwise,
/// and returns to browsing; no (`n`, Esc) returns to browsing; any other
/// key leaves the dialog open. The selection and quit flag never change.
pub proof fn law_confirming_keys(selected: usize, len: nat, index: usize, quit: bool, key: KeyInput)
    ensures
        (key == KeyInput::Char('y') || key == KeyInput::Enter) ==> key_transition(
            selected,
            len,
            AppState::ConfirmKill(index),
            quit,
            key,
        ) == (selected, AppState::Normal, quit, if index == usize::MAX {
            KeyAction::KillTopMemory
        } else {
            KeyAction::KillSelected
        }),
        (key == KeyInput::Char('n') || key == KeyInput::Esc) ==> key_transition(
            selected,
            len,
            AppState::ConfirmKill(index),
            quit,
            key,
        ) == (selected, AppState::Normal, quit, KeyAction::Nothing),
        !(key == KeyInput::Char('y') || key == KeyInput::Enter || key == KeyInput::Char('n') || key
            == KeyInput::Esc) ==> key_transition(selected, len, AppState::ConfirmKill(index), quit, key)
            == (selected, AppState::ConfirmKill(index), quit, KeyAction::Nothing),
{
}

} // verus!
