//! The interactive harness as a state machine: each key press takes the
//! harness from one state to the next and yields the one action that the
//! audio engine has to carry out.

use crate::keys::{command_for_key, command_of, Axis, Command, Key, Step};
use crate::paths::{
    bank_path_under, banks_dir_under, get_example_banks_dir, sdk_dir_unset_message,
};
use crate::text::{contains, mentions};
use vstd::prelude::*;
use vstd::string::*;

verus! {

/// An event parameter that the harness sets by name.
#[derive(Clone, Copy, Debug, PartialEq, Eq)]
pub enum Parameter {
    Rpm,
    Surface,
}

/// A parameter value to set on an instance before it starts.
#[derive(Clone, Copy, Debug, PartialEq, Eq)]
pub struct ParameterSetting {
    pub parameter: Parameter,
    /// The value, a whole number.
    pub value: u32,
    /// Whether the start fails when the engine refuses the parameter.
    /// A setting that is not required is tried and its failure ignored.
    pub required: bool,
}

/// How to start an instance of an event.
#[derive(Clone, Copy, Debug, PartialEq, Eq)]
pub struct PlayPlan {
    pub setting: Option<ParameterSetting>,
    /// A one-shot instance is released as soon as it has started: it plays
    /// to its end by itself, and the harness does not keep it.
    pub one_shot: bool,
}

/// What the audio engine has to do after a key press.
#[derive(Clone, Copy, Debug, PartialEq, Eq)]
pub enum Action {
    /// Nothing.
    Nothing,
    /// Stop and release every instance that is kept, then shut down.
    Quit,
    /// Create an instance of the event in `slot` and start it as `plan` says.
    /// Unless the plan is one-shot, keep the instance under `slot`.
    Start { slot: usize, plan: PlayPlan },
    /// Stop and release the instance kept under `slot`.
    Stop { slot: usize },
    /// Stop and release every instance that is kept.
    StopAll,
    /// Move the sound source and tell every kept instance.
    MoveSource { axis: Axis, negative: bool, step: Step },
    /// Put the sound source back where it started and tell every kept instance.
    ResetSource,
    /// Raise or lower the parameters of every kept instance.
    NudgeParameter { up: bool },
}

/// The name under which the engine knows a parameter.
pub open spec fn parameter_name(parameter: Parameter) -> Seq<char> {
    match parameter {
        Parameter::Rpm => "RPM"@,
        Parameter::Surface => "Surface"@,
    }
}

/// Vehicles are silent without engine speed, so their events must be given
/// one; footsteps are given a surface if they take one; nothing else is set.
pub open spec fn setting_of(path: Seq<char>) -> Option<ParameterSetting> {
    if mentions(path, "Vehicle"@) || mentions(path, "Ride-on Mower"@) {
        Some(ParameterSetting { parameter: Parameter::Rpm, value: 1500, required: true })
    } else if mentions(path, "Footstep"@) {
        Some(ParameterSetting { parameter: Parameter::Surface, value: 1, required: false })
    } else {
        None
    }
}

/// Footsteps and explosions play once and end by themselves.
pub open spec fn is_one_shot(path: Seq<char>) -> bool {
    mentions(path, "Footstep"@) || mentions(path, "Explosion"@)
}

/// How an instance of the event at `path` is started.
pub open spec fn plan_of(path: Seq<char>) -> PlayPlan {
    PlayPlan { setting: setting_of(path), one_shot: is_one_shot(path) }
}

/// The bank files that the harness loads, in the order in which it loads them.
pub open spec fn bank_file_names() -> Seq<Seq<char>> {
    seq![
        "Master.bank"@,
        "Master.strings.bank"@,
        "SFX.bank"@,
        "Music.bank"@,
        "Vehicles.bank"@,
    ]
}

/// The events that the harness looks up, in the order of their slots.
pub open spec fn known_event_paths() -> Seq<Seq<char>> {
    seq![
        "event:/Ambience/Country"@,
        "event:/Character/Player Footsteps"@,
        "event:/Weapons/Explosion"@,
        "event:/UI/Cancel"@,
        "event:/Vehicles/Ride-on Mower"@,
        "event:/Music/Level 01"@,
    ]
}

/// The state of the harness, as far as its decisions depend on it.
pub struct Model {
    /// The paths of the loaded events, by slot.
    pub events: Seq<Seq<char>>,
    /// The slots under which a started instance is kept.
    pub playing: Set<int>,
    /// The slot that the display marks.
    pub selected: int,
    /// Whether the display lists all controls.
    pub show_help: bool,
}

impl Model {
    /// Only slots of loaded events hold an instance.
    pub open spec fn wf(self) -> bool {
        forall|slot: int| self.playing.contains(slot) ==> 0 <= slot < self.events.len()
    }

    /// The state in which the harness starts: silent, the first event marked,
    /// the list of controls hidden.
    pub open spec fn fresh(events: Seq<Seq<char>>) -> Model {
        Model { events, playing: Set::empty(), selected: 0, show_help: false }
    }

    /// Starts the event in `slot` if it is silent and stops it if it plays.
    /// A slot without an event is left alone.
    pub open spec fn toggle(self, slot: usize) -> (Model, Action) {
        if slot >= self.events.len() {
            (self, Action::Nothing)
        } else if self.playing.contains(slot as int) {
            (Model { playing: self.playing.remove(slot as int), ..self }, Action::Stop { slot })
        } else {
            let plan = plan_of(self.events[slot as int]);
            let playing = if plan.one_shot {
                self.playing
            } else {
                self.playing.insert(slot as int)
            };
            (Model { playing, ..self }, Action::Start { slot, plan })
        }
    }

    /// The state after a command, and what the engine has to do for it.
    pub open spec fn apply(self, command: Command) -> (Model, Action) {
        match command {
            Command::Quit => (Model { playing: Set::empty(), ..self }, Action::Quit),
            Command::ToggleHelp => (
                Model { show_help: !self.show_help, ..self },
                Action::Nothing,
            ),
            Command::ToggleEvent { slot } => self.toggle(slot),
            Command::StopAll => (Model { playing: Set::empty(), ..self }, Action::StopAll),
            Command::MoveSource { axis, negative, step } => (
                self,
                Action::MoveSource { axis, negative, step },
            ),
            Command::ResetSource => (self, Action::ResetSource),
            Command::NudgeParameter { up } => (self, Action::NudgeParameter { up }),
            Command::Ignore => (self, Action::Nothing),
        }
    }

    /// The state after a key press, and what the engine has to do for it.
    pub open spec fn step(self, key: Key, shift: bool) -> (Model, Action) {
        self.apply(command_of(key, shift, self.events.len() as int))
    }
}

/// The name under which the engine knows a parameter.
pub fn name_of_parameter(parameter: Parameter) -> (name: &'static str)
    ensures
        name@ == parameter_name(parameter),
{
    match parameter {
        Parameter::Rpm => "RPM",
        Parameter::Surface => "Surface",
    }
}

/// Decides from an event's path how its instances are started.
pub fn play_plan(path: &str) -> (plan: PlayPlan)
    ensures
        plan == plan_of(path@),
{
    let footstep = contains(path, "Footstep");
    let setting = if contains(path, "Vehicle") || contains(path, "Ride-on Mower") {
        Some(ParameterSetting { parameter: Parameter::Rpm, value: 1500, required: true })
    } else if footstep {
        Some(ParameterSetting { parameter: Parameter::Surface, value: 1, required: false })
    } else {
        None
    };
    let one_shot = footstep || contains(path, "Explosion");
    PlayPlan { setting, one_shot }
}

/// The bank files that the harness loads, in the order in which it loads them.
pub fn bank_files() -> (files: Vec<&'static str>)
    ensures
        files@.map_values(|file: &'static str| file@) == bank_file_names(),
{
    let mut files: Vec<&'static str> = Vec::new();
    files.push("Master.bank");
    files.push("Master.strings.bank");
    files.push("SFX.bank");
    files.push("Music.bank");
    files.push("Vehicles.bank");
    assert(files@.map_values(|file: &'static str| file@) =~= bank_file_names());
    files
}

/// The events that the harness looks up, in the order of their slots. An
/// event that the loaded banks do not hold gets no slot, and the events after
/// it move up.
pub fn event_paths() -> (paths: Vec<&'static str>)
    ensures
        paths@.map_values(|path: &'static str| path@) == known_event_paths(),
{
    let mut paths: Vec<&'static str> = Vec::new();
    paths.push("event:/Ambience/Country");
    paths.push("event:/Character/Player Footsteps");
    paths.push("event:/Weapons/Explosion");
    paths.push("event:/UI/Cancel");
    paths.push("event:/Vehicles/Ride-on Mower");
    paths.push("event:/Music/Level 01");
    assert(paths@.map_values(|path: &'static str| path@) =~= known_event_paths());
    paths
}

/// Where the bank files of the harness lie, in the order in which it loads
/// them, given the value of the variable that configures the SDK root.
pub fn bank_paths(configured: Option<String>) -> (paths: Result<Vec<String>, String>)
    ensures
        match configured {
            Some(sdk_dir) => paths is Ok && paths->Ok_0@.map_values(|path: String| path@)
                == bank_file_names().map_values(|file: Seq<char>| bank_path_under(sdk_dir@, file)),
            None => paths is Err && paths->Err_0@ == sdk_dir_unset_message(),
        },
{
    let ghost sdk_dir = if configured is Some {
        configured->Some_0@
    } else {
        Seq::empty()
    };
    match get_example_banks_dir(configured) {
        Err(message) => Err(message),
        Ok(banks_dir) => {
            let files = bank_files();
            let ghost names = bank_file_names();
            let mut paths: Vec<String> = Vec::new();
            let mut i: usize = 0;
            while i < files.len()
                invariant
                    i <= files.len(),
                    paths.len() == i,
                    files@.map_values(|file: &'static str| file@) == names,
                    banks_dir@ == banks_dir_under(sdk_dir),
                    forall|k: int|
                        0 <= k < i ==> (#[trigger] paths[k])@ == bank_path_under(sdk_dir, names[k]),
                decreases files.len() - i,
            {
                assert(names[i as int] == files@.map_values(|file: &'static str| file@)[i as int]);
                let path = banks_dir.clone().concat("/").concat(files[i]);
                paths.push(path);
                i += 1;
            }
            assert(paths@.map_values(|path: String| path@) =~= names.map_values(
                |file: Seq<char>| bank_path_under(sdk_dir, file),
            ));
            Ok(paths)
        },
    }
}

/// One loaded event and whether an instance of it is kept.
struct EventSlot {
    path: String,
    playing: bool,
}

/// The harness: the loaded events and which of them play.
pub struct Harness {
    slots: Vec<EventSlot>,
    selected: usize,
    show_help: bool,
}

impl View for Harness {
    type V = Model;

    closed spec fn view(&self) -> Model {
        Model {
            events: Seq::new(self.slots.len() as nat, |slot: int| self.slots[slot].path@),
            playing: Set::new(|slot: int| 0 <= slot < self.slots.len() && self.slots[slot].playing),
            selected: self.selected as int,
            show_help: self.show_help,
        }
    }
}

impl Harness {
    /// Whatever has happened to a harness, only slots of loaded events hold
    /// an instance.
    pub proof fn lemma_view_wf(&self)
        ensures
            self@.wf(),
    {
    }

    /// A silent harness over the events at the given paths.
    pub fn new(events: Vec<String>) -> (harness: Harness)
        ensures
            harness@ == Model::fresh(Seq::new(events.len() as nat, |slot: int| events[slot]@)),
    {
        let ghost paths = Seq::new(events.len() as nat, |slot: int| events[slot]@);
        let mut events = events;
        let mut slots: Vec<EventSlot> = Vec::new();
        let mut slot: usize = 0;
        while slot < events.len()
            invariant
                slot <= events.len(),
                slots.len() == slot,
                events.len() == paths.len(),
                forall|i: int| slot <= i < events.len() ==> events[i]@ == paths[i],
                forall|i: int| 0 <= i < slot ==> (#[trigger] slots[i]).path@ == paths[i],
                forall|i: int| 0 <= i < slot ==> !(#[trigger] slots[i]).playing,
            decreases events.len() - slot,
        {
            let mut path = String::new();
            core::mem::swap(&mut events[slot], &mut path);
            slots.push(EventSlot { path, playing: false });
            slot += 1;
        }
        let harness = Harness { slots, selected: 0, show_help: false };
        assert(harness@.playing =~= Set::empty());
        assert(harness@.events =~= paths);
        harness
    }

    /// Handles one key press: moves to the next state and returns what the
    /// engine has to do.
    pub fn handle_key(&mut self, key: Key, shift: bool) -> (action: Action)
        ensures
            final(self)@ == old(self)@.step(key, shift).0,
            action == old(self)@.step(key, shift).1,
    {
        let command = command_for_key(key, shift, self.slots.len());
        self.apply(command)
    }

    /// Carries out one command: moves to the next state and returns what the
    /// engine has to do.
    pub fn apply(&mut self, command: Command) -> (action: Action)
        ensures
            final(self)@ == old(self)@.apply(command).0,
            action == old(self)@.apply(command).1,
    {
        match command {
            Command::Quit => {
                self.silence();
                Action::Quit
            },
            Command::ToggleHelp => {
                self.show_help = !self.show_help;
                Action::Nothing
            },
            Command::ToggleEvent { slot } => self.toggle(slot),
            Command::StopAll => {
                self.silence();
                Action::StopAll
            },
            Command::MoveSource { axis, negative, step } => Action::MoveSource {
                axis,
                negative,
                step,
            },
            Command::ResetSource => Action::ResetSource,
            Command::NudgeParameter { up } => Action::NudgeParameter { up },
            Command::Ignore => Action::Nothing,
        }
    }

    /// Starts the event in `slot` if it is silent and stops it if it plays.
    fn toggle(&mut self, slot: usize) -> (action: Action)
        ensures
            final(self)@ == old(self)@.toggle(slot).0,
            action == old(self)@.toggle(slot).1,
    {
        if slot >= self.slots.len() {
            Action::Nothing
        } else if self.slots[slot].playing {
            self.slots[slot].playing = false;
            assert(self@.playing =~= old(self)@.playing.remove(slot as int));
            assert(self@.events =~= old(self)@.events);
            Action::Stop { slot }
        } else {
            let plan = play_plan(self.slots[slot].path.as_str());
            if !plan.one_shot {
                self.slots[slot].playing = true;
                assert(self@.playing =~= old(self)@.playing.insert(slot as int));
            }
            assert(self@.events =~= old(self)@.events);
            Action::Start { slot, plan }
        }
    }

    /// Forgets every instance.
    fn silence(&mut self)
        ensures
            final(self)@ == (Model { playing: Set::empty(), ..old(self)@ }),
    {
        let mut slot: usize = 0;
        while slot < self.slots.len()
            invariant
                slot <= self.slots.len(),
                self.slots.len() == old(self).slots.len(),
                self.selected == old(self).selected,
                self.show_help == old(self).show_help,
                forall|i: int|
                    0 <= i < self.slots.len() ==> (#[trigger] self.slots[i]).path == old(
                        self,
                    ).slots[i].path,
                forall|i: int| 0 <= i < slot ==> !(#[trigger] self.slots[i]).playing,
            decreases self.slots.len() - slot,
        {
            self.slots[slot].playing = false;
            slot += 1;
        }
        assert(self@.playing =~= Set::empty());
        assert(self@.events =~= old(self)@.events);
    }

    /// The number of loaded events.
    pub fn event_count(&self) -> (count: usize)
        ensures
            count == self@.events.len(),
    {
        self.slots.len()
    }

    /// The path of the event in `slot`, if there is one.
    pub fn event_path(&self, slot: usize) -> (path: Option<&str>)
        ensures
            match path {
                Some(path) => slot < self@.events.len() && path@ == self@.events[slot as int],
                None => slot >= self@.events.len(),
            },
    {
        if slot < self.slots.len() {
            Some(self.slots[slot].path.as_str())
        } else {
            None
        }
    }

    /// Whether an instance is kept under `slot`.
    pub fn is_playing(&self, slot: usize) -> (playing: bool)
        ensures
            playing == self@.playing.contains(slot as int),
    {
        slot < self.slots.len() && self.slots[slot].playing
    }

    /// The slots below `bound` under which an instance is kept.
    spec fn playing_below(&self, bound: int) -> Set<int> {
        Set::new(
            |slot: int| 0 <= slot < bound && slot < self.slots.len() && self.slots[slot].playing,
        )
    }

    /// The number of instances that are kept.
    pub fn playing_count(&self) -> (count: usize)
        ensures
            self@.playing.finite(),
            count == self@.playing.len(),
    {
        let mut count: usize = 0;
        let mut slot: usize = 0;
        assert(self.playing_below(0) =~= Set::empty());
        while slot < self.slots.len()
            invariant
                slot <= self.slots.len(),
                count <= slot,
                self.playing_below(slot as int).finite(),
                count == self.playing_below(slot as int).len(),
            decreases self.slots.len() - slot,
        {
            if self.slots[slot].playing {
                assert(self.playing_below(slot + 1) =~= self.playing_below(slot as int).insert(
                    slot as int,
                ));
                count += 1;
            } else {
                assert(self.playing_below(slot + 1) =~= self.playing_below(slot as int));
            }
            slot += 1;
        }
        assert(self.playing_below(self.slots.len() as int) =~= self@.playing);
        count
    }

    /// The slot that the display marks.
    pub fn selected_event(&self) -> (slot: usize)
        ensures
            slot == self@.selected,
    {
        self.selected
    }

    /// Whether the display lists all controls.
    pub fn show_help(&self) -> (shown: bool)
        ensures
            shown == self@.show_help,
    {
        self.show_help
    }
}

} // verus!
