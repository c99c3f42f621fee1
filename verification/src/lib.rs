//! A typed builder for breadboard graphs and the encoder of the blueprint
//! container that holds them.
//!
//! A [`Breadboard`] is built one component at a time. Every call that adds
//! a component gives back typed handles to its outputs, and a later call
//! takes such handles as the new component's inputs, so the wiring has no
//! cycle. Written out, the breadboard becomes one block of a blueprint: a
//! section for every component and a main section that lists them, in the
//! byte layout of [`ftd_data`].
//!
//! Numbers with a fraction are held as their bit patterns ([`float32`]),
//! identifiers as their sixteen bytes ([`guid`]), and the literals of an
//! expression as their decimal text, so that every function of the library
//! works on integers, bytes and text.

pub mod breadboard;
pub mod float32;
pub mod ftd_data;
pub mod guid;
pub mod keyed;
pub mod serializer;

pub use breadboard::{Breadboard, SwitchOptions};

use vstd::prelude::*;
use vstd::string::*;

verus! {

/// The folder of the player profile whose prefabs the library writes.
pub fn find_ftd_folder() -> (folder: String)
    ensures
        folder@ == "/home/jack/From The Depths/Player Profiles/DeltaForce"@,
{
    String::from_str("/home/jack/From The Depths/Player Profiles/DeltaForce")
}

/// The folder in which the host looks for prefabs: `PrefabsVersion2` inside
/// the profile folder.
pub fn find_prefabs_folder() -> (folder: String)
    ensures
        folder@ == "/home/jack/From The Depths/Player Profiles/DeltaForce"@ + "/"@
            + "PrefabsVersion2"@,
{
    let mut folder = find_ftd_folder();
    folder.append("/");
    folder.append("PrefabsVersion2");
    folder
}

} // verus!
