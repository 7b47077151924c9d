//! The tasks that are meant to run, and how the lights in the show are
//! shared out among them.

use crate::config::SyncMode;
use crate::light::DiscoLight;
use crate::seed::seed_for;
use crate::task::{shares_draw, ModulationTask, TaskState};
use vstd::prelude::*;

verus! {

/// One task that is meant to run: the mode that it was started under and the
/// lights that it drives.
#[derive(Debug, PartialEq, Eq)]
pub struct Modulator {
    pub sync_mode: SyncMode,
    pub light_ids: Vec<String>,
}

/// A modulator as a value: its mode and the sequence of its lights.
pub struct ModulatorView {
    pub sync_mode: SyncMode,
    pub light_ids: Seq<String>,
}

impl View for Modulator {
    type V = ModulatorView;

    open spec fn view(&self) -> ModulatorView {
        ModulatorView { sync_mode: self.sync_mode, light_ids: self.light_ids@ }
    }
}

/// A copy of a list of names.
fn copy_names(names: &Vec<String>) -> (copy: Vec<String>)
    ensures
        copy@ == names@,
{
    let mut copy: Vec<String> = Vec::new();
    let mut i: usize = 0;
    while i < names.len()
        invariant
            i <= names.len(),
            copy@ == names@.take(i as int),
        decreases names.len() - i,
    {
        copy.push(names[i].clone());
        proof {
            assert(names@.take(i + 1) == names@.take(i as int).push(names@[i as int]));
        }
        i += 1;
    }
    proof {
        assert(names@.take(i as int) == names@);
    }
    copy
}

impl Modulator {
    /// The record of a task for the lights named, started under a mode.
    pub fn new(sync_mode: SyncMode, light_ids: Vec<String>) -> (modulator: Modulator)
        ensures
            modulator@ == (ModulatorView { sync_mode, light_ids: light_ids@ }),
    {
        Modulator { sync_mode, light_ids }
    }

    /// The task that this modulator stands for, ready to run.
    pub fn task(&self) -> (task: ModulationTask)
        ensures
            task.light_ids@ == self.light_ids@,
            task.shared == shares_draw(self.sync_mode),
            task.seed == seed_for(self.sync_mode, self.light_ids@),
            task.state == TaskState::Running,
    {
        ModulationTask::new(self.sync_mode, copy_names(&self.light_ids))
    }
}

/// The names, for the bridge, of the lights that are in the show, in the
/// order of the lights.
pub open spec fn active_ids(lights: Seq<DiscoLight>) -> Seq<String>
    decreases lights.len(),
{
    if lights.len() == 0 {
        Seq::empty()
    } else if lights.last().on {
        active_ids(lights.drop_last()).push(lights.last().light.id)
    } else {
        active_ids(lights.drop_last())
    }
}

/// The tasks that are meant to run: none without a bridge; one for each
/// light in the show where the lights are independent; otherwise one task
/// for all lights in the show together.
pub open spec fn planned(connected: bool, sync_mode: SyncMode, lights: Seq<DiscoLight>) -> Seq<
    ModulatorView,
> {
    let ids = active_ids(lights);
    if !connected {
        Seq::empty()
    } else if sync_mode == SyncMode::Independent {
        Seq::new(ids.len(), |i: int| ModulatorView { sync_mode, light_ids: seq![ids[i]] })
    } else {
        seq![ModulatorView { sync_mode, light_ids: ids }]
    }
}

/// All lights that the tasks drive, task after task.
pub open spec fn bound_ids(tasks: Seq<ModulatorView>) -> Seq<String>
    decreases tasks.len(),
{
    if tasks.len() == 0 {
        Seq::empty()
    } else {
        bound_ids(tasks.drop_last()) + tasks.last().light_ids
    }
}

/// The tasks that are meant to run drive each light in the show once, and no
/// other light: task after task, their lights are the lights in the show.
/// So no light is ever driven by two tasks.
pub proof fn lemma_one_task_per_light(sync_mode: SyncMode, lights: Seq<DiscoLight>)
    ensures
        bound_ids(planned(true, sync_mode, lights)) == active_ids(lights),
        bound_ids(planned(false, sync_mode, lights)) == Seq::<String>::empty(),
{
    let ids = active_ids(lights);
    let tasks = planned(true, sync_mode, lights);
    if sync_mode == SyncMode::Independent {
        lemma_bound_ids_of_singles(sync_mode, ids, ids.len() as int);
        assert(tasks.take(ids.len() as int) == tasks);
        assert(ids.take(ids.len() as int) == ids);
    } else {
        assert(tasks.drop_last() == Seq::<ModulatorView>::empty());
        assert(bound_ids(tasks.drop_last()) == Seq::<String>::empty());
        assert(tasks.last().light_ids == ids);
        assert(Seq::<String>::empty() + ids == ids);
    }
}

/// The first `count` one-light tasks drive the first `count` lights.
proof fn lemma_bound_ids_of_singles(sync_mode: SyncMode, ids: Seq<String>, count: int)
    requires
        0 <= count <= ids.len(),
    ensures
        bound_ids(
            Seq::new(ids.len(), |i: int| ModulatorView { sync_mode, light_ids: seq![ids[i]] }).take(
                count,
            ),
        ) == ids.take(count),
    decreases count,
{
    let tasks = Seq::new(ids.len(), |i: int| ModulatorView { sync_mode, light_ids: seq![ids[i]] });
    if count > 0 {
        lemma_bound_ids_of_singles(sync_mode, ids, count - 1);
        assert(tasks.take(count).drop_last() == tasks.take(count - 1));
        assert(tasks.take(count).last().light_ids == seq![ids[count - 1]]);
        assert(ids.take(count) == ids.take(count - 1) + seq![ids[count - 1]]);
    } else {
        assert(ids.take(0) == Seq::<String>::empty());
    }
}

} // verus!
