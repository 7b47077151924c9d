//! The lights that the bridge reports, and the engine's record of each.

use vstd::prelude::*;
use vstd::string::StringExecFns;

verus! {

/// What the engine keeps of a light that the bridge reports.
#[derive(Debug, PartialEq, Eq)]
pub struct Light {
    /// The name under which the bridge takes commands for the light.
    pub id: String,
    /// The light's name for the user.
    pub name: String,
    /// The kind of light, as the bridge words it.
    pub kind: String,
    /// The identifier that stays with the light for good.
    pub unique_id: String,
}

impl Clone for Light {
    fn clone(&self) -> (copy: Light)
        ensures
            copy == *self,
    {
        Light {
            id: self.id.clone(),
            name: self.name.clone(),
            kind: self.kind.clone(),
            unique_id: self.unique_id.clone(),
        }
    }
}

/// A light and whether the user wants it in the show. The flag is the
/// engine's intent, not the state that the bridge reports.
#[derive(Debug, PartialEq, Eq)]
pub struct DiscoLight {
    pub light: Light,
    pub on: bool,
}

impl DiscoLight {
    /// The record of a light that has just been found: not in the show.
    pub fn new(light: Light) -> (entry: DiscoLight)
        ensures
            entry == (DiscoLight { light, on: false }),
    {
        DiscoLight { light, on: false }
    }
}

impl Clone for DiscoLight {
    fn clone(&self) -> (copy: DiscoLight)
        ensures
            copy == *self,
    {
        DiscoLight { light: self.light.clone(), on: self.on }
    }
}

/// Whether a kind, as the bridge words it, is that of a light with full
/// colour.
pub open spec fn is_color_kind(kind: Seq<char>) -> bool {
    kind == "Extended color light"@
}

/// The lights of full colour among `lights`, in their order.
pub open spec fn color_only(lights: Seq<Light>) -> Seq<Light>
    decreases lights.len(),
{
    if lights.len() == 0 {
        Seq::empty()
    } else if is_color_kind(lights.last().kind@) {
        color_only(lights.drop_last()).push(lights.last())
    } else {
        color_only(lights.drop_last())
    }
}

/// Whether a light takes a full colour.
pub fn is_color_light(light: &Light) -> (yes: bool)
    ensures
        yes == is_color_kind(light.kind@),
{
    let wanted = String::from_str("Extended color light");
    light.kind == wanted
}

/// Keeps the lights of full colour, in their order.
pub fn get_color_lights(lights: &Vec<Light>) -> (kept: Vec<Light>)
    ensures
        kept@ == color_only(lights@),
{
    let mut kept: Vec<Light> = Vec::new();
    let mut i: usize = 0;
    while i < lights.len()
        invariant
            i <= lights.len(),
            kept@ == color_only(lights@.take(i as int)),
        decreases lights.len() - i,
    {
        proof {
            assert(lights@.take(i + 1).drop_last() == lights@.take(i as int));
        }
        if is_color_light(&lights[i]) {
            kept.push(lights[i].clone());
        }
        i += 1;
    }
    proof {
        assert(lights@.take(i as int) == lights@);
    }
    kept
}

} // verus!
