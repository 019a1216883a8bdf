//! The closed set of named device features that the catalog can enable
//! per model.  Feature names are the kebab-case strings that embedding
//! applications use to key their command surfaces.

use vstd::prelude::*;

verus! {

/// A named device feature.
pub trait Feature {
    /// The feature's kebab-case name.
    fn name(&self) -> &'static str;
}

/// Battery charge limiting.
pub struct BatteryCare {}

/// The lid logo.
pub struct LidLogo {}

/// Lighting that stays on while the lid is closed.
pub struct LightsAlwaysOn {}

/// The keyboard backlight.
pub struct KbdBacklight {}

/// Fan control.
pub struct Fan {}

/// Performance modes.
pub struct Perf {}

impl Feature for BatteryCare {
    fn name(&self) -> (r: &'static str)
        ensures
            r@ == "battery-care"@,
    {
        "battery-care"
    }
}

impl Feature for LidLogo {
    fn name(&self) -> (r: &'static str)
        ensures
            r@ == "lid-logo"@,
    {
        "lid-logo"
    }
}

impl Feature for LightsAlwaysOn {
    fn name(&self) -> (r: &'static str)
        ensures
            r@ == "lights-always-on"@,
    {
        "lights-always-on"
    }
}

impl Feature for KbdBacklight {
    fn name(&self) -> (r: &'static str)
        ensures
            r@ == "kbd-backlight"@,
    {
        "kbd-backlight"
    }
}

impl Feature for Fan {
    fn name(&self) -> (r: &'static str)
        ensures
            r@ == "fan"@,
    {
        "fan"
    }
}

impl Feature for Perf {
    fn name(&self) -> (r: &'static str)
        ensures
            r@ == "perf"@,
    {
        "perf"
    }
}

/// Whether the given name belongs to the closed feature set.
pub open spec fn is_known_feature(name: Seq<char>) -> bool {
    ||| name == "battery-care"@
    ||| name == "lid-logo"@
    ||| name == "lights-always-on"@
    ||| name == "kbd-backlight"@
    ||| name == "fan"@
    ||| name == "perf"@
}

/// Every known feature name, in a fixed order.
pub fn all_features() -> (r: Vec<String>)
    ensures
        r@.len() == 6,
        r@[0]@ == "battery-care"@,
        r@[1]@ == "lid-logo"@,
        r@[2]@ == "lights-always-on"@,
        r@[3]@ == "kbd-backlight"@,
        r@[4]@ == "fan"@,
        r@[5]@ == "perf"@,
        forall|i: int| 0 <= i < r@.len() ==> is_known_feature(r@[i]@),
{
    let mut v: Vec<String> = Vec::new();
    v.push("battery-care".to_owned());
    v.push("lid-logo".to_owned());
    v.push("lights-always-on".to_owned());
    v.push("kbd-backlight".to_owned());
    v.push("fan".to_owned());
    v.push("perf".to_owned());
    v
}

/// Whether one name belongs to the closed feature set.
fn is_known(feature: &String) -> (r: bool)
    ensures
        r == is_known_feature(feature@),
{
    if *feature == "battery-care".to_owned() {
        return true;
    }
    if *feature == "lid-logo".to_owned() {
        return true;
    }
    if *feature == "lights-always-on".to_owned() {
        return true;
    }
    if *feature == "kbd-backlight".to_owned() {
        return true;
    }
    if *feature == "fan".to_owned() {
        return true;
    }
    if *feature == "perf".to_owned() {
        return true;
    }
    false
}

/// Whether every listed feature belongs to the closed feature set; a
/// catalog entry with an unknown feature name is a construction error.
pub fn validate_features(features: &Vec<String>) -> (r: bool)
    ensures
        r == (forall|i: int| 0 <= i < features@.len() ==> is_known_feature(features@[i]@)),
{
    let mut i: usize = 0;
    while i < features.len()
        invariant
            i <= features@.len(),
            forall|j: int| 0 <= j < i ==> is_known_feature(features@[j]@),
        decreases features@.len() - i,
    {
        if !is_known(&features[i]) {
            return false;
        }
        i = i + 1;
    }
    true
}

} // verus!
