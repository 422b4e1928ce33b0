//! Static terrain definitions: the immutable catalog that terrain cells
//! reference by index.

use vstd::prelude::*;

verus! {

/// One terrain type's static metadata: display label, identifier, flavour
/// text, the sprite it selects in the texture atlas, and its load-bearing
/// capacity in whole units of weight.
#[derive(Clone, Copy, Debug)]
pub struct SurfaceDef<'a> {
    pub label: &'a str,
    pub name: &'a str,
    pub description: &'a str,
    pub texture_index: u32,
    pub support: u32,
}

/// The fixed, ordered terrain catalog, built once at startup and never
/// mutated: mud, grass and sand, in that order.
pub fn terrain_catalog() -> (r: Vec<SurfaceDef<'static>>)
    ensures
        r@.len() == 3,
        r@[0].label@ == "Mud"@,
        r@[0].name@ == "mud"@,
        r@[0].description@ == "Soil saturated with water."@,
        r@[0].texture_index == 13,
        r@[0].support == 20,
        r@[1].label@ == "Grass"@,
        r@[1].name@ == "grass"@,
        r@[1].description@ == "Green. Try to touch it."@,
        r@[1].texture_index == 14,
        r@[1].support == 40,
        r@[2].label@ == "Sand"@,
        r@[2].name@ == "sand"@,
        r@[2].description@ == "Gets everywhere, ruins vanilla sex fantasies."@,
        r@[2].texture_index == 15,
        r@[2].support == 20,
{
    let mut r: Vec<SurfaceDef<'static>> = Vec::new();
    r.push(SurfaceDef {
        label: "Mud",
        name: "mud",
        description: "Soil saturated with water.",
        texture_index: 13,
        support: 20,
    });
    r.push(SurfaceDef {
        label: "Grass",
        name: "grass",
        description: "Green. Try to touch it.",
        texture_index: 14,
        support: 40,
    });
    r.push(SurfaceDef {
        label: "Sand",
        name: "sand",
        description: "Gets everywhere, ruins vanilla sex fantasies.",
        texture_index: 15,
        support: 20,
    });
    r
}

} // verus!
