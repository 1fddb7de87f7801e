//! The scripted demonstration: which of its parts a run plays.

use crate::text::same_text;
use vstd::prelude::*;
use vstd::string::*;

verus! {

/// A part of the scripted demonstration.
#[derive(Clone, Copy, Debug, PartialEq, Eq)]
pub enum Demo {
    /// A one-shot event played once.
    Explosion,
    /// A vehicle driven past the listener.
    Spatial,
    /// The engine speed of a vehicle swept up and down.
    Parameters,
    /// Footsteps on changing surfaces.
    Footsteps,
}

/// A surface on which footsteps fall.
#[derive(Clone, Copy, Debug, PartialEq, Eq)]
pub enum Surface {
    Concrete,
    Gravel,
    Wood,
    Metal,
}

/// The name that selects a part.
pub open spec fn name_of(demo: Demo) -> Seq<char> {
    match demo {
        Demo::Explosion => "explosion"@,
        Demo::Spatial => "spatial"@,
        Demo::Parameters => "parameters"@,
        Demo::Footsteps => "footsteps"@,
    }
}

/// The name that a run goes by: the first argument after the program's own
/// name; without one, `all`.
pub open spec fn chosen_name(args: Seq<Seq<char>>) -> Seq<char> {
    if args.len() > 1 {
        args[1]
    } else {
        "all"@
    }
}

/// A run plays every part when it goes by the name `all`.
pub open spec fn is_full(name: Seq<char>) -> bool {
    name == "all"@
}

/// A run plays a part when it is a full run or goes by the part's name. The
/// parameter sweep also answers to `rpm`.
pub open spec fn selects(name: Seq<char>, demo: Demo) -> bool {
    ||| is_full(name)
    ||| name == name_of(demo)
    ||| demo == Demo::Parameters && name == "rpm"@
}

/// The surface of the `step`-th footstep: the four surfaces in turn.
pub open spec fn surface_at(step: int) -> Surface {
    if step % 4 == 0 {
        Surface::Concrete
    } else if step % 4 == 1 {
        Surface::Gravel
    } else if step % 4 == 2 {
        Surface::Wood
    } else {
        Surface::Metal
    }
}

/// The value of the surface parameter that stands for a surface.
pub open spec fn surface_value(surface: Surface) -> int {
    match surface {
        Surface::Concrete => 0,
        Surface::Gravel => 1,
        Surface::Wood => 2,
        Surface::Metal => 3,
    }
}

/// The name under which a surface is shown.
pub open spec fn surface_name(surface: Surface) -> Seq<char> {
    match surface {
        Surface::Concrete => "concrete"@,
        Surface::Gravel => "gravel"@,
        Surface::Wood => "wood"@,
        Surface::Metal => "metal"@,
    }
}

/// The name of the run, from the program's arguments.
pub fn demo_name(args: &Vec<String>) -> (name: &str)
    ensures
        name@ == chosen_name(Seq::new(args.len() as nat, |i: int| args[i]@)),
{
    if args.len() > 1 {
        args[1].as_str()
    } else {
        "all"
    }
}

/// Whether the run plays every part, with a pause after each and a summary
/// at the end.
pub fn is_full_run(name: &str) -> (full: bool)
    ensures
        full == is_full(name@),
{
    same_text(name, "all")
}

/// Whether the run plays the part `demo`.
pub fn runs(name: &str, demo: Demo) -> (selected: bool)
    ensures
        selected == selects(name@, demo),
{
    if same_text(name, "all") {
        return true;
    }
    match demo {
        Demo::Explosion => same_text(name, "explosion"),
        Demo::Spatial => same_text(name, "spatial"),
        Demo::Parameters => same_text(name, "parameters") || same_text(name, "rpm"),
        Demo::Footsteps => same_text(name, "footsteps"),
    }
}

/// The surface on which the `step`-th footstep falls.
pub fn surface_for_step(step: u32) -> (surface: Surface)
    ensures
        surface == surface_at(step as int),
{
    match step % 4 {
        0 => Surface::Concrete,
        1 => Surface::Gravel,
        2 => Surface::Wood,
        _ => Surface::Metal,
    }
}

/// The value to give the surface parameter for a surface.
pub fn value_of_surface(surface: Surface) -> (value: u32)
    ensures
        value == surface_value(surface),
{
    match surface {
        Surface::Concrete => 0,
        Surface::Gravel => 1,
        Surface::Wood => 2,
        Surface::Metal => 3,
    }
}

/// The name under which a surface is shown.
pub fn name_of_surface(surface: Surface) -> (name: &'static str)
    ensures
        name@ == surface_name(surface),
{
    match surface {
        Surface::Concrete => "concrete",
        Surface::Gravel => "gravel",
        Surface::Wood => "wood",
        Surface::Metal => "metal",
    }
}

/// Without an argument the run is a full run, and a full run plays every
/// part.
pub proof fn lemma_default_runs_everything(args: Seq<Seq<char>>, demo: Demo)
    requires
        args.len() <= 1,
    ensures
        chosen_name(args) == "all"@,
        is_full(chosen_name(args)),
        selects(chosen_name(args), demo),
{
}

/// A run that is not a full run plays at most one part.
pub proof fn lemma_a_name_selects_one_part(name: Seq<char>, a: Demo, b: Demo)
    requires
        !is_full(name),
        selects(name, a),
        selects(name, b),
    ensures
        a == b,
{
    reveal_strlit("explosion");
    reveal_strlit("spatial");
    reveal_strlit("parameters");
    reveal_strlit("footsteps");
    reveal_strlit("rpm");
    assert("explosion"@[0] == 'e' && "spatial"@[0] == 's' && "parameters"@[0] == 'p');
    assert("footsteps"@[0] == 'f' && "rpm"@[0] == 'r');
}

/// The value of the surface parameter goes through 0, 1, 2, 3 with the
/// steps: it is the step's remainder by four.
pub proof fn lemma_surface_value_cycles(step: nat)
    ensures
        surface_value(surface_at(step as int)) == step % 4,
{
}

} // verus!
