//! The supervisor: what is known of the bridge and its lights, the draft and
//! the published parameters, and the set of tasks that are meant to run.
//!
//! The supervisor decides; it neither talks to the bridge nor starts
//! anything. It takes the news that comes in, says which lights to fetch,
//! and keeps the list of the tasks that whoever runs it is to keep alive.

use crate::bridge::{Address, Bridge, Signal};
use crate::config::{Data, SyncMode};
use crate::light::{DiscoLight, Light};
use crate::modulator::{active_ids, planned, Modulator, ModulatorView};
use vstd::prelude::*;
use vstd::string::StringExecFns;

verus! {

/// What the user is shown.
#[derive(Clone, Copy, Debug, PartialEq, Eq, Structural)]
pub enum Screen {
    /// No bridge is known: offer to search for one.
    NotConnected,
    /// A bridge was found, but it has not granted a user yet: offer to
    /// register.
    Register,
    /// The bridge takes commands: show the controls of the show.
    Connected,
}

/// Whether a light with the given lasting identifier is among `lights`.
pub open spec fn has_light(lights: Seq<DiscoLight>, unique_id: Seq<char>) -> bool {
    exists|i: int| 0 <= i < lights.len() && (#[trigger] lights[i]).light.unique_id@ == unique_id
}

/// No two of the lights have the same lasting identifier.
pub open spec fn distinct_lights(lights: Seq<DiscoLight>) -> bool {
    forall|i: int, j: int|
        0 <= i < j < lights.len() ==> (#[trigger] lights[i]).light.unique_id@ != (
        #[trigger] lights[j]).light.unique_id@
}

/// The lights known after the bridge has reported `incoming`: each reported
/// light that was not known yet is added behind the others, switched off. A
/// light that was known stays as it was.
pub open spec fn merged(lights: Seq<DiscoLight>, incoming: Seq<Light>) -> Seq<DiscoLight>
    decreases incoming.len(),
{
    if incoming.len() == 0 {
        lights
    } else {
        let before = merged(lights, incoming.drop_last());
        if has_light(before, incoming.last().unique_id@) {
            before
        } else {
            before.push(DiscoLight { light: incoming.last(), on: false })
        }
    }
}

/// Whether a piece of news can be taken together with the user found in the
/// store. A search that has found no address cannot be taken with a stored
/// user: there is no bridge to make of the two.
pub open spec fn admits(signal: Signal, stored: Option<String>) -> bool {
    signal matches Signal::Ip(ip) ==> ip is Some || stored is None
}

/// The lights with `unique_id` switched to `on`, the others as they were.
pub open spec fn switched(lights: Seq<DiscoLight>, unique_id: Seq<char>, on: bool) -> Seq<
    DiscoLight,
> {
    Seq::new(
        lights.len(),
        |i: int|
            if lights[i].light.unique_id@ == unique_id {
                DiscoLight { light: lights[i].light, on }
            } else {
                lights[i]
            },
    )
}

/// The supervisor: the state of a session, as far as the engine decides on
/// it.
pub struct App {
    /// The address of the bridge, once a search has found it.
    pub ip: Option<Address>,
    /// The user that the bridge has granted, once known.
    pub user: Option<String>,
    /// The bridge, once commands can be sent to it.
    pub bridge: Option<Bridge>,
    /// The lights, in the order in which they were first reported. No two
    /// have the same lasting identifier.
    pub lights: Vec<DiscoLight>,
    /// The last failure, for the user to read.
    pub error: Option<String>,
    /// The draft of the parameters, which the controls edit.
    pub data: Data,
    /// The published parameters, which the tasks sample from.
    pub async_data: Data,
    /// How the lights in the show are grouped when the tasks are next made.
    pub sync_mode: SyncMode,
    /// The tasks that are meant to run.
    pub modulators: Vec<Modulator>,
    /// Whether the set of tasks is to be made anew at the next update.
    pub rebuild_modulators: bool,
}

/// The supervisor as a value.
pub struct AppView {
    pub ip: Option<Address>,
    pub user: Option<String>,
    pub bridge: Option<Bridge>,
    pub lights: Seq<DiscoLight>,
    pub error: Option<String>,
    pub data: Data,
    pub async_data: Data,
    pub sync_mode: SyncMode,
    pub modulators: Seq<ModulatorView>,
    pub rebuild_modulators: bool,
}

impl View for App {
    type V = AppView;

    open spec fn view(&self) -> AppView {
        AppView {
            ip: self.ip,
            user: self.user,
            bridge: self.bridge,
            lights: self.lights@,
            error: self.error,
            data: self.data,
            async_data: self.async_data,
            sync_mode: self.sync_mode,
            modulators: self.modulators@.map_values(|m: Modulator| m@),
            rebuild_modulators: self.rebuild_modulators,
        }
    }
}

impl AppView {
    /// The supervisor that a session starts with.
    pub open spec fn initial() -> AppView {
        AppView {
            ip: None,
            user: None,
            bridge: None,
            lights: Seq::empty(),
            error: None,
            data: Data::initial(),
            async_data: Data::initial(),
            sync_mode: SyncMode::Independent,
            modulators: Seq::empty(),
            rebuild_modulators: false,
        }
    }

    /// No light is listed twice.
    pub open spec fn wf(self) -> bool {
        distinct_lights(self.lights)
    }

    /// The bridge that a piece of news makes known, given the user found in
    /// the store: a found address makes a bridge where a user is stored; a
    /// registration brings its own.
    pub open spec fn bridge_from(signal: Signal, stored: Option<String>) -> Option<Bridge> {
        match signal {
            Signal::Ip(ip) => match stored {
                Some(user) => Some(Bridge { ip: ip.unwrap(), user }),
                None => None,
            },
            Signal::Bridge(bridge) => bridge,
            _ => None,
        }
    }

    /// The supervisor after one piece of news, given the user found in the
    /// store.
    pub open spec fn handled(self, signal: Signal, stored: Option<String>) -> AppView {
        match signal {
            Signal::Ip(ip) => AppView {
                error: None,
                ip,
                user: stored,
                bridge: if stored is Some {
                    AppView::bridge_from(signal, stored)
                } else {
                    self.bridge
                },
                ..self
            },
            Signal::Bridge(bridge) => AppView { error: None, bridge, ..self },
            Signal::Lights(lights) => AppView {
                error: None,
                lights: merged(self.lights, lights@),
                ..self
            },
            Signal::Error(text) => AppView { error: Some(text), ..self },
        }
    }

    /// The supervisor after the user has switched a light in or out of the
    /// show. Where the light is known, the set of tasks is due to be made
    /// anew; the tasks themselves are left alone.
    pub open spec fn activated(self, unique_id: Seq<char>, on: bool) -> AppView {
        AppView {
            lights: switched(self.lights, unique_id, on),
            rebuild_modulators: self.rebuild_modulators || has_light(self.lights, unique_id),
            ..self
        }
    }

    /// The supervisor after the draft was published.
    pub open spec fn published(self) -> AppView {
        AppView { async_data: self.data, ..self }
    }

    /// The supervisor after the set of tasks was made anew.
    pub open spec fn rebuilt(self) -> AppView {
        AppView { modulators: planned(self.bridge is Some, self.sync_mode, self.lights), ..self }
    }

    /// The supervisor after an update: the draft is published, and the set
    /// of tasks is made anew if that was due.
    pub open spec fn updated(self) -> AppView {
        if self.rebuild_modulators {
            AppView { rebuild_modulators: false, ..self.published().rebuilt() }
        } else {
            self.published()
        }
    }

    /// What the user is shown.
    pub open spec fn screen(self) -> Screen {
        if self.bridge is Some {
            Screen::Connected
        } else if self.ip is Some {
            Screen::Register
        } else {
            Screen::NotConnected
        }
    }

    /// The supervisor after a batch of news, the first piece taken first.
    pub open spec fn polled(self, signals: Seq<Signal>, stored: Option<String>) -> AppView
        decreases signals.len(),
    {
        if signals.len() == 0 {
            self
        } else {
            self.polled(signals.drop_last(), stored).handled(signals.last(), stored)
        }
    }

    /// The bridges that a batch of news makes known, in the order of the
    /// news. The lights of each are to be fetched.
    pub open spec fn fetches(signals: Seq<Signal>, stored: Option<String>) -> Seq<Bridge>
        decreases signals.len(),
    {
        if signals.len() == 0 {
            Seq::empty()
        } else {
            let before = AppView::fetches(signals.drop_last(), stored);
            match AppView::bridge_from(signals.last(), stored) {
                Some(bridge) => before.push(bridge),
                None => before,
            }
        }
    }
}

/// Reported lights are added without listing any light twice, and the lights
/// known before stay in front, as they were.
pub proof fn lemma_merged_keeps_lights(lights: Seq<DiscoLight>, incoming: Seq<Light>)
    requires
        distinct_lights(lights),
    ensures
        distinct_lights(merged(lights, incoming)),
        lights.len() <= merged(lights, incoming).len(),
        merged(lights, incoming).take(lights.len() as int) == lights,
    decreases incoming.len(),
{
    if incoming.len() > 0 {
        lemma_merged_keeps_lights(lights, incoming.drop_last());
        let before = merged(lights, incoming.drop_last());
        let after = merged(lights, incoming);
        if !has_light(before, incoming.last().unique_id@) {
            assert forall|i: int, j: int| 0 <= i < j < after.len() implies (
            #[trigger] after[i]).light.unique_id@ != (#[trigger] after[j]).light.unique_id@ by {
                if j < before.len() {
                    assert(after[i] == before[i] && after[j] == before[j]);
                } else {
                    assert(after[i] == before[i]);
                }
            }
            assert(after.take(lights.len() as int) == before.take(lights.len() as int));
        }
    } else {
        assert(lights.take(lights.len() as int) == lights);
    }
}

/// Switching a light lists no light twice.
pub proof fn lemma_switched_keeps_lights(lights: Seq<DiscoLight>, unique_id: Seq<char>, on: bool)
    requires
        distinct_lights(lights),
    ensures
        distinct_lights(switched(lights, unique_id, on)),
        switched(lights, unique_id, on).len() == lights.len(),
{
    let after = switched(lights, unique_id, on);
    assert forall|i: int, j: int| 0 <= i < j < after.len() implies (
    #[trigger] after[i]).light.unique_id@ != (#[trigger] after[j]).light.unique_id@ by {
        assert(after[i].light == lights[i].light);
        assert(after[j].light == lights[j].light);
    }
}

/// Making the set of tasks anew twice in a row gives the same set as making
/// it anew once, with nothing else changed.
pub proof fn lemma_rebuild_is_idempotent(app: AppView)
    ensures
        app.rebuilt().rebuilt() == app.rebuilt(),
{
}

/// The set of tasks depends on nothing but the bridge being known, the mode
/// and the lights: publishing the draft between two rebuilds changes no
/// task.
pub proof fn lemma_publish_keeps_tasks(app: AppView)
    ensures
        app.rebuilt().published().rebuilt().modulators == app.rebuilt().modulators,
        app.published().modulators == app.modulators,
{
}

/// The place of the light with a lasting identifier, if it is known.
fn find_light(lights: &Vec<DiscoLight>, unique_id: &String) -> (place: Option<usize>)
    ensures
        match place {
            Some(i) => i < lights@.len() && lights@[i as int].light.unique_id@ == unique_id@,
            None => !has_light(lights@, unique_id@),
        },
{
    let mut i: usize = 0;
    while i < lights.len()
        invariant
            i <= lights.len(),
            forall|k: int| 0 <= k < i ==> (#[trigger] lights@[k]).light.unique_id@ != unique_id@,
        decreases lights.len() - i,
    {
        if lights[i].light.unique_id == *unique_id {
            return Some(i);
        }
        i += 1;
    }
    None
}

/// A copy of the user found in the store.
fn copy_user(stored: &Option<String>) -> (copy: Option<String>)
    ensures
        copy == *stored,
{
    match stored {
        Some(user) => Some(user.clone()),
        None => None,
    }
}

impl Default for App {
    fn default() -> (app: App)
        ensures
            app@ == AppView::initial(),
            app@.wf(),
    {
        let app = App {
            ip: None,
            user: None,
            bridge: None,
            lights: Vec::new(),
            error: None,
            data: Data::default(),
            async_data: Data::default(),
            sync_mode: SyncMode::Independent,
            modulators: Vec::new(),
            rebuild_modulators: false,
        };
        proof {
            assert(app@.modulators == Seq::<ModulatorView>::empty());
        }
        app
    }
}

/// Whether each piece of a batch of news can be taken together with the user
/// found in the store.
pub fn admits_all(signals: &Vec<Signal>, stored: &Option<String>) -> (yes: bool)
    ensures
        yes == forall|i: int| 0 <= i < signals@.len() ==> admits(#[trigger] signals@[i], *stored),
{
    if stored.is_none() {
        return true;
    }
    let mut i: usize = 0;
    while i < signals.len()
        invariant
            i <= signals.len(),
            stored is Some,
            forall|k: int| 0 <= k < i ==> admits(#[trigger] signals@[k], *stored),
        decreases signals.len() - i,
    {
        match &signals[i] {
            Signal::Ip(None) => {
                return false;
            },
            _ => {},
        }
        i += 1;
    }
    true
}

impl App {
    /// The supervisor that a session starts with: nothing known of any
    /// bridge, the parameters at their defaults, no task.
    pub fn new() -> (app: App)
        ensures
            app@ == AppView::initial(),
            app@.wf(),
    {
        App::default()
    }

    /// Adds the reported lights that are not known yet, switched off.
    fn add_lights(&mut self, incoming: Vec<Light>)
        ensures
            final(self)@ == (AppView {
                lights: merged(old(self)@.lights, incoming@),
                ..old(self)@
            }),
    {
        let ghost start = self@;
        let mut i: usize = 0;
        while i < incoming.len()
            invariant
                i <= incoming.len(),
                self@ == (AppView {
                    lights: merged(start.lights, incoming@.take(i as int)),
                    ..start
                }),
            decreases incoming.len() - i,
        {
            proof {
                assert(incoming@.take(i + 1).drop_last() == incoming@.take(i as int));
            }
            if find_light(&self.lights, &incoming[i].unique_id).is_none() {
                self.lights.push(DiscoLight::new(incoming[i].clone()));
            }
            i += 1;
        }
        proof {
            assert(incoming@.take(i as int) == incoming@);
        }
    }

    /// Takes one piece of news, with the user found in the store, and says
    /// which bridge to fetch the lights of, if any.
    ///
    /// A found address clears the failure shown and, where a user is stored,
    /// makes the bridge known. A registration clears the failure and brings
    /// its bridge. Reported lights clear the failure and are added to the
    /// lights known. A failure is shown.
    pub fn handle(&mut self, signal: Signal, stored: Option<String>) -> (fetch: Option<Bridge>)
        requires
            admits(signal, stored),
        ensures
            final(self)@ == old(self)@.handled(signal, stored),
            fetch == AppView::bridge_from(signal, stored),
            old(self)@.wf() ==> final(self)@.wf(),
    {
        match signal {
            Signal::Ip(ip) => {
                self.error = None;
                self.ip = ip;
                match stored {
                    Some(user) => {
                        self.user = Some(user.clone());
                        let bridge = Bridge::new(ip.unwrap(), user);
                        self.bridge = Some(bridge.clone());
                        Some(bridge)
                    },
                    None => {
                        self.user = None;
                        None
                    },
                }
            },
            Signal::Bridge(bridge) => {
                self.error = None;
                let fetch = match &bridge {
                    Some(found) => Some(found.clone()),
                    None => None,
                };
                self.bridge = bridge;
                fetch
            },
            Signal::Lights(lights) => {
                self.error = None;
                proof {
                    if self@.wf() {
                        lemma_merged_keeps_lights(self@.lights, lights@);
                    }
                }
                self.add_lights(lights);
                None
            },
            Signal::Error(text) => {
                self.error = Some(text);
                None
            },
        }
    }

    /// Takes a batch of news, the first piece first, with the user found in
    /// the store, and says which bridges to fetch the lights of.
    pub fn poll(&mut self, signals: Vec<Signal>, stored: Option<String>) -> (fetches: Vec<Bridge>)
        requires
            forall|i: int| 0 <= i < signals@.len() ==> admits(#[trigger] signals@[i], stored),
        ensures
            final(self)@ == old(self)@.polled(signals@, stored),
            fetches@ == AppView::fetches(signals@, stored),
            old(self)@.wf() ==> final(self)@.wf(),
    {
        let ghost start = self@;
        let ghost all = signals@;
        let mut fetches: Vec<Bridge> = Vec::new();
        for signal in news: signals
            invariant
                news.seq() == all,
                forall|i: int| 0 <= i < all.len() ==> admits(#[trigger] all[i], stored),
                self@ == start.polled(all.take(news.index() as int), stored),
                fetches@ == AppView::fetches(all.take(news.index() as int), stored),
                start.wf() ==> self@.wf(),
        {
            proof {
                let done = news.index() as int;
                assert(all.take(done + 1).drop_last() == all.take(done));
                assert(all.take(done + 1).last() == signal);
            }
            match self.handle(signal, copy_user(&stored)) {
                Some(bridge) => fetches.push(bridge),
                None => {},
            }
        }
        proof {
            assert(all.take(all.len() as int) == all);
        }
        fetches
    }

    /// Records whether the user wants a light in the show. Says whether the
    /// light is known; if it is, the set of tasks is due to be made anew at
    /// the next update. No task is started or stopped here.
    pub fn set_active(&mut self, unique_id: &str, on: bool) -> (known: bool)
        ensures
            final(self)@ == old(self)@.activated(unique_id@, on),
            known == has_light(old(self)@.lights, unique_id@),
            old(self)@.wf() ==> final(self)@.wf(),
    {
        let wanted = String::from_str(unique_id);
        let ghost start = self@;
        let mut known: bool = false;
        let mut i: usize = 0;
        while i < self.lights.len()
            invariant
                i <= self.lights@.len(),
                wanted@ == unique_id@,
                self.lights@.len() == start.lights.len(),
                self@ == (AppView { lights: self.lights@, ..start }),
                forall|k: int|
                    0 <= k < i ==> (#[trigger] self.lights@[k]) == switched(
                        start.lights,
                        unique_id@,
                        on,
                    )[k],
                forall|k: int|
                    i <= k < self.lights@.len() ==> (#[trigger] self.lights@[k])
                        == start.lights[k],
                known <==> has_light(start.lights.take(i as int), unique_id@),
            decreases self.lights@.len() - i,
        {
            let ghost before = start.lights.take(i as int);
            let ghost upto = start.lights.take(i + 1);
            let same: bool = self.lights[i].light.unique_id == wanted;
            if same {
                let entry = DiscoLight { light: self.lights[i].light.clone(), on };
                self.lights.set(i, entry);
                known = true;
            }
            proof {
                assert(upto[i as int] == start.lights[i as int]);
                if has_light(before, unique_id@) {
                    let w = choose|w: int|
                        0 <= w < before.len() && (#[trigger] before[w]).light.unique_id@
                            == unique_id@;
                    assert(upto[w] == before[w]);
                }
                if has_light(upto, unique_id@) && !same {
                    let w = choose|w: int|
                        0 <= w < upto.len() && (#[trigger] upto[w]).light.unique_id@ == unique_id@;
                    assert(before[w] == upto[w]);
                }
            }
            i += 1;
        }
        proof {
            assert(start.lights.take(i as int) == start.lights);
            assert(self.lights@ == switched(start.lights, unique_id@, on));
            if start.wf() {
                lemma_switched_keeps_lights(start.lights, unique_id@, on);
            }
        }
        if known {
            self.rebuild_modulators = true;
        }
        known
    }

    /// Publishes the draft: from their next cycle on, the tasks sample from
    /// the parameters as they are now.
    pub fn publish_config(&mut self)
        ensures
            final(self)@ == old(self)@.published(),
    {
        self.async_data = self.data.clone();
    }

    /// The names, for the bridge, of the lights in the show.
    fn active(&self) -> (ids: Vec<String>)
        ensures
            ids@ == active_ids(self.lights@),
    {
        let mut ids: Vec<String> = Vec::new();
        let mut i: usize = 0;
        while i < self.lights.len()
            invariant
                i <= self.lights@.len(),
                ids@ == active_ids(self.lights@.take(i as int)),
            decreases self.lights@.len() - i,
        {
            proof {
                assert(self.lights@.take(i + 1).drop_last() == self.lights@.take(i as int));
            }
            if self.lights[i].on {
                ids.push(self.lights[i].light.id.clone());
            }
            i += 1;
        }
        proof {
            assert(self.lights@.take(i as int) == self.lights@);
        }
        ids
    }

    /// Makes the set of tasks anew from the lights in the show: none without
    /// a bridge, one task for each light where the lights are independent,
    /// one task for all of them otherwise. Every task listed before is
    /// dropped, so each light in the show is driven by one task and no
    /// more.
    pub fn rebuild(&mut self)
        ensures
            final(self)@ == old(self)@.rebuilt(),
    {
        let ghost start = self@;
        let mut plan: Vec<Modulator> = Vec::new();
        if self.bridge.is_some() {
            let ids: Vec<String> = self.active();
            match self.sync_mode {
                SyncMode::Independent => {
                    let mut i: usize = 0;
                    while i < ids.len()
                        invariant
                            i <= ids@.len(),
                            plan@.len() == i,
                            forall|k: int|
                                0 <= k < i ==> (#[trigger] plan@[k])@ == (ModulatorView {
                                    sync_mode: SyncMode::Independent,
                                    light_ids: seq![ids@[k]],
                                }),
                        decreases ids@.len() - i,
                    {
                        let mut single: Vec<String> = Vec::new();
                        single.push(ids[i].clone());
                        proof {
                            assert(single@ == seq![ids@[i as int]]);
                        }
                        plan.push(Modulator::new(SyncMode::Independent, single));
                        i += 1;
                    }
                },
                mode => {
                    plan.push(Modulator::new(mode, ids));
                },
            }
        }
        self.modulators = plan;
        proof {
            assert(self@.modulators == start.rebuilt().modulators);
        }
    }

    /// Publishes the draft and, if that is due, makes the set of tasks anew.
    pub fn update_data(&mut self)
        ensures
            final(self)@ == old(self)@.updated(),
    {
        self.publish_config();
        if self.rebuild_modulators {
            self.rebuild();
            self.rebuild_modulators = false;
        }
    }

    /// What the user is to be shown.
    pub fn screen(&self) -> (screen: Screen)
        ensures
            screen == self@.screen(),
    {
        if self.bridge.is_some() {
            Screen::Connected
        } else if self.ip.is_some() {
            Screen::Register
        } else {
            Screen::NotConnected
        }
    }
}

} // verus!
