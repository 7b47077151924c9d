//! One modulation task: the loop that drives a light, or a group of lights,
//! through random colours.
//!
//! The task itself neither sends nor sleeps. Each time it is resumed it says
//! what is to be done: send the commands of one cycle and sleep for the
//! cycle's delay, or leave the loop. Whoever runs the task does that and
//! resumes it again.

use crate::command::{command_fits, draw_command, draw_delay, LightCommand};
use crate::config::{Data, SyncMode, TICK_MILLIS};
use crate::sample::fits;
use crate::seed::{seed_for, task_seed};
use crate::source::seeded;
use vstd::prelude::*;

verus! {

/// One command and the light that it is for.
#[derive(Debug, PartialEq, Eq)]
pub struct Dispatch {
    pub light_id: String,
    pub command: LightCommand,
}

/// The work of one cycle: the commands to send, in order, and the delay in
/// ticks to sleep afterwards.
#[derive(Debug, PartialEq, Eq)]
pub struct Cycle {
    pub dispatches: Vec<Dispatch>,
    pub delay: u16,
}

/// What holds of every cycle sampled from `data` for the lights named: there
/// is one command for each light, in the order of the lights; the delay fits
/// the timing range; each command fits the colour ranges and carries the
/// delay; and where the lights share one draw, all commands are the same.
pub open spec fn cycle_fits(light_ids: Seq<String>, shared: bool, data: Data, cycle: Cycle) -> bool {
    &&& cycle.dispatches@.len() == light_ids.len()
    &&& fits(data.time.start as int, data.time.end as int, cycle.delay as int)
    &&& forall|i: int|
        0 <= i < light_ids.len() ==> {
            &&& (#[trigger] cycle.dispatches@[i]).light_id == light_ids[i]
            &&& command_fits(data, cycle.delay, cycle.dispatches@[i].command)
        }
    &&& shared ==> forall|i: int, j: int|
        0 <= i < light_ids.len() && 0 <= j < light_ids.len() ==> (#[trigger] cycle.dispatches@[i]).command
            == (#[trigger] cycle.dispatches@[j]).command
}

impl Cycle {
    /// How long to sleep after the commands are sent, in milliseconds.
    pub fn sleep_millis(&self) -> (millis: u64)
        ensures
            millis == self.delay * TICK_MILLIS,
    {
        self.delay as u64 * TICK_MILLIS
    }
}

/// Where a task stands in its life.
#[derive(Clone, Copy, Debug, PartialEq, Eq, Structural)]
pub enum TaskState {
    /// The task runs a cycle each time it is resumed.
    Running,
    /// A stop was asked for; the task has not yet come back to the point
    /// where it notices.
    Cancelling,
    /// The task has left its loop for good.
    Stopped,
}

/// What can happen to a task.
#[derive(Clone, Copy, Debug, PartialEq, Eq, Structural)]
pub enum TaskEvent {
    /// The task is resumed: it was just started, or its sleep has ended or
    /// was cut short.
    Resume,
    /// A stop is asked for. This may come at any time, also while the
    /// commands of a cycle are being sent.
    Cancel,
}

/// What a task asks of whoever runs it.
#[derive(Debug, PartialEq, Eq)]
pub enum TaskAction {
    /// Send the commands of this cycle, sleep for its delay, resume.
    Run(Cycle),
    /// Leave the loop; the task is over.
    Exit,
    /// Nothing is to be done.
    Idle,
}

/// The state that follows an event.
pub open spec fn next_state(state: TaskState, event: TaskEvent) -> TaskState {
    match (state, event) {
        (TaskState::Running, TaskEvent::Resume) => TaskState::Running,
        (TaskState::Running, TaskEvent::Cancel) => TaskState::Cancelling,
        (TaskState::Cancelling, TaskEvent::Resume) => TaskState::Stopped,
        (TaskState::Cancelling, TaskEvent::Cancel) => TaskState::Cancelling,
        (TaskState::Stopped, _) => TaskState::Stopped,
    }
}

/// Whether an event makes a task in the given state send commands.
pub open spec fn sends(state: TaskState, event: TaskEvent) -> bool {
    state == TaskState::Running && event == TaskEvent::Resume
}

/// The state of a task after a sequence of events, the first applied first.
pub open spec fn state_after(state: TaskState, events: Seq<TaskEvent>) -> TaskState
    decreases events.len(),
{
    if events.len() == 0 {
        state
    } else {
        next_state(state_after(state, events.drop_last()), events.last())
    }
}

/// Once a stop was asked for, a task is never running again.
pub proof fn lemma_cancel_is_final(state: TaskState, events: Seq<TaskEvent>, asked: int)
    requires
        0 <= asked < events.len(),
        events[asked] == TaskEvent::Cancel,
    ensures
        state_after(state, events) != TaskState::Running,
    decreases events.len(),
{
    if asked < events.len() - 1 {
        lemma_cancel_is_final(state, events.drop_last(), asked);
    }
}

/// After a stop was asked for, no later event makes the task send commands:
/// what was being sent when the stop came is the last that the task sends.
pub proof fn lemma_no_dispatch_after_cancel(
    state: TaskState,
    events: Seq<TaskEvent>,
    asked: int,
    later: int,
)
    requires
        0 <= asked < later < events.len(),
        events[asked] == TaskEvent::Cancel,
    ensures
        !sends(state_after(state, events.take(later)), events[later]),
{
    lemma_cancel_is_final(state, events.take(later), asked);
}

/// A stopped task stays stopped, and a task that was asked to stop is
/// stopped as soon as it is resumed.
pub proof fn lemma_stop_is_reached(state: TaskState)
    ensures
        next_state(next_state(state, TaskEvent::Cancel), TaskEvent::Resume) == TaskState::Stopped,
        forall|event: TaskEvent| next_state(TaskState::Stopped, event) == TaskState::Stopped,
{
}

/// A task: the lights that it drives, how it draws for them, its random
/// stream and its state.
pub struct ModulationTask {
    /// The lights, by the names under which the bridge takes commands.
    pub light_ids: Vec<String>,
    /// Whether one draw per cycle serves all lights. Otherwise each light
    /// gets a colour of its own, on the cycle's common delay.
    pub shared: bool,
    /// The number that the random stream was started from.
    pub seed: u64,
    /// The random stream.
    pub source: random::Xorshift128Plus,
    /// Where the task stands in its life.
    pub state: TaskState,
}

/// Whether the task that a mode starts draws once for all its lights.
pub open spec fn shares_draw(sync_mode: SyncMode) -> bool {
    sync_mode == SyncMode::TimeAndColor
}

impl ModulationTask {
    /// A running task for the lights named, as the mode asks: with one draw
    /// for all lights where colour is synchronized, with a draw for each
    /// light otherwise.
    pub fn new(sync_mode: SyncMode, light_ids: Vec<String>) -> (task: ModulationTask)
        ensures
            task.light_ids == light_ids,
            task.shared == shares_draw(sync_mode),
            task.seed == seed_for(sync_mode, light_ids@),
            task.state == TaskState::Running,
    {
        let seed: u64 = task_seed(sync_mode, &light_ids);
        let shared: bool = match sync_mode {
            SyncMode::TimeAndColor => true,
            _ => false,
        };
        ModulationTask { light_ids, shared, seed, source: seeded(seed), state: TaskState::Running }
    }

    /// Samples one cycle from a snapshot of the parameters. The delay is
    /// drawn first, then the colours. Every command of the cycle comes from
    /// the snapshot handed in, whatever is published meanwhile.
    pub fn cycle(&mut self, data: &Data) -> (cycle: Cycle)
        ensures
            cycle_fits(old(self).light_ids@, old(self).shared, *data, cycle),
            final(self).light_ids == old(self).light_ids,
            final(self).shared == old(self).shared,
            final(self).seed == old(self).seed,
            final(self).state == old(self).state,
    {
        let delay: u16 = draw_delay(&mut self.source, data);
        let mut dispatches: Vec<Dispatch> = Vec::new();
        if self.light_ids.len() == 0 {
            return Cycle { dispatches, delay };
        }
        let mut command: LightCommand = draw_command(&mut self.source, data, delay);
        let mut i: usize = 0;
        while i < self.light_ids.len()
            invariant
                i <= self.light_ids.len(),
                self.light_ids == old(self).light_ids,
                self.shared == old(self).shared,
                self.seed == old(self).seed,
                self.state == old(self).state,
                dispatches@.len() == i,
                command_fits(*data, delay, command),
                forall|k: int|
                    0 <= k < i ==> {
                        &&& (#[trigger] dispatches@[k]).light_id == self.light_ids@[k]
                        &&& command_fits(*data, delay, dispatches@[k].command)
                    },
                self.shared ==> forall|k: int|
                    0 <= k < i ==> (#[trigger] dispatches@[k]).command == command,
            decreases self.light_ids.len() - i,
        {
            if i > 0 && !self.shared {
                command = draw_command(&mut self.source, data, delay);
            }
            dispatches.push(Dispatch { light_id: self.light_ids[i].clone(), command });
            i += 1;
        }
        Cycle { dispatches, delay }
    }

    /// Takes one event and says what is to be done. A running task that is
    /// resumed samples a cycle from the snapshot handed in; a task that was
    /// asked to stop leaves its loop when it is next resumed, without
    /// sampling or sending anything.
    pub fn step(&mut self, event: TaskEvent, data: &Data) -> (action: TaskAction)
        ensures
            final(self).state == next_state(old(self).state, event),
            final(self).light_ids == old(self).light_ids,
            final(self).shared == old(self).shared,
            final(self).seed == old(self).seed,
            sends(old(self).state, event) <==> action is Run,
            action matches TaskAction::Run(cycle) ==> cycle_fits(
                old(self).light_ids@,
                old(self).shared,
                *data,
                cycle,
            ),
            action is Exit <==> old(self).state == TaskState::Cancelling && event
                == TaskEvent::Resume,
            !sends(old(self).state, event) ==> final(self).source == old(self).source,
    {
        match (self.state, event) {
            (TaskState::Running, TaskEvent::Resume) => TaskAction::Run(self.cycle(data)),
            (TaskState::Running, TaskEvent::Cancel) => {
                self.state = TaskState::Cancelling;
                TaskAction::Idle
            },
            (TaskState::Cancelling, TaskEvent::Resume) => {
                self.state = TaskState::Stopped;
                TaskAction::Exit
            },
            _ => TaskAction::Idle,
        }
    }
}

} // verus!
