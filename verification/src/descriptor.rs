//! The static catalog of supported models: for each one, the model
//! number prefix it is detected by, a display name, the product id, and
//! the set of features enabled on it.

use vstd::prelude::*;

use vstd::utf8::encode_utf8;

use crate::feature::is_known_feature;

verus! {

/// The vendor id shared by every supported model.
pub const RAZER_VID: u16 = 0x1532;

/// One supported model.  The model number prefix is matched against the
/// BIOS-reported model number during detection.
#[derive(Debug)]
pub struct Descriptor {
    pub model_number_prefix: String,
    pub name: String,
    pub pid: u16,
    pub features: Vec<String>,
}

impl Clone for Descriptor {
    fn clone(&self) -> (res: Self)
        ensures
            res.model_number_prefix@ == self.model_number_prefix@,
            res.name@ == self.name@,
            res.pid == self.pid,
            res.features@ == self.features@,
    {
        let mut features: Vec<String> = Vec::new();
        let mut i: usize = 0;
        while i < self.features.len()
            invariant
                i <= self.features@.len(),
                features@ == self.features@.take(i as int),
            decreases self.features@.len() - i,
        {
            features.push(self.features[i].clone());
            proof {
                assert(features@ =~= self.features@.take(i + 1));
            }
            i = i + 1;
        }
        proof {
            assert(features@ =~= self.features@);
        }
        Descriptor {
            model_number_prefix: self.model_number_prefix.clone(),
            name: self.name.clone(),
            pid: self.pid,
            features,
        }
    }
}

/// `p` is a byte-level prefix of `s`.
pub open spec fn bytes_prefix(s: Seq<u8>, p: Seq<u8>) -> bool {
    p.len() <= s.len() && s.take(p.len() as int) == p
}

/// The detected model matches a catalog entry when the entry's model
/// number prefix is a byte-level prefix of the reported model number.
pub open spec fn model_matches(model: Seq<char>, prefix: Seq<char>) -> bool {
    bytes_prefix(encode_utf8(model), encode_utf8(prefix))
}

/// Whether `prefix` is a byte-level prefix of `s`.
pub fn str_starts_with(s: &String, prefix: &String) -> (r: bool)
    ensures
        r == model_matches(s@, prefix@),
{
    let sb = s.as_str().as_bytes();
    let pb = prefix.as_str().as_bytes();
    if pb.len() > sb.len() {
        return false;
    }
    let mut i: usize = 0;
    while i < pb.len()
        invariant
            i <= pb@.len(),
            pb@.len() <= sb@.len(),
            sb@.take(i as int) == pb@.take(i as int),
            sb@ == encode_utf8(s@),
            pb@ == encode_utf8(prefix@),
        decreases pb@.len() - i,
    {
        if sb[i] != pb[i] {
            return false;
        }
        proof {
            assert(sb@.take(i + 1) =~= pb@.take(i + 1));
        }
        i = i + 1;
    }
    proof {
        assert(pb@.take(pb@.len() as int) =~= pb@);
    }
    true
}

/// The catalog of supported models: each entry's model number prefix,
/// display name, product id, and exact feature list, every feature name
/// drawn from the closed feature set.
pub fn supported_descriptors() -> (r: Vec<Descriptor>)
    ensures
        r@.len() == 2,
        r@[0].model_number_prefix@ == "RZ09-0483"@,
        r@[0].name@ == "Razer Blade 16\u{201d} (2023) Black"@,
        r@[0].pid == 0x029f,
        r@[0].features@.len() == 6,
        r@[0].features@[0]@ == "battery-care"@,
        r@[0].features@[1]@ == "fan"@,
        r@[0].features@[2]@ == "kbd-backlight"@,
        r@[0].features@[3]@ == "lid-logo"@,
        r@[0].features@[4]@ == "lights-always-on"@,
        r@[0].features@[5]@ == "perf"@,
        r@[1].model_number_prefix@ == "RZ09-0482"@,
        r@[1].name@ == "Razer Blade 14\u{201d} (2023) Mercury"@,
        r@[1].pid == 0x029d,
        r@[1].features@.len() == 5,
        r@[1].features@[0]@ == "battery-care"@,
        r@[1].features@[1]@ == "fan"@,
        r@[1].features@[2]@ == "kbd-backlight"@,
        r@[1].features@[3]@ == "lights-always-on"@,
        r@[1].features@[4]@ == "perf"@,
        forall|i: int, j: int|
            0 <= i < r@.len() && 0 <= j < r@[i].features@.len() ==> is_known_feature(
                r@[i].features@[j]@,
            ),
{
    let mut blade16_features: Vec<String> = Vec::new();
    blade16_features.push("battery-care".to_owned());
    blade16_features.push("fan".to_owned());
    blade16_features.push("kbd-backlight".to_owned());
    blade16_features.push("lid-logo".to_owned());
    blade16_features.push("lights-always-on".to_owned());
    blade16_features.push("perf".to_owned());
    let blade16 = Descriptor {
        model_number_prefix: "RZ09-0483".to_owned(),
        name: "Razer Blade 16\u{201d} (2023) Black".to_owned(),
        pid: 0x029f,
        features: blade16_features,
    };
    let mut blade14_features: Vec<String> = Vec::new();
    blade14_features.push("battery-care".to_owned());
    blade14_features.push("fan".to_owned());
    blade14_features.push("kbd-backlight".to_owned());
    blade14_features.push("lights-always-on".to_owned());
    blade14_features.push("perf".to_owned());
    let blade14 = Descriptor {
        model_number_prefix: "RZ09-0482".to_owned(),
        name: "Razer Blade 14\u{201d} (2023) Mercury".to_owned(),
        pid: 0x029d,
        features: blade14_features,
    };
    let mut catalog: Vec<Descriptor> = Vec::new();
    catalog.push(blade16);
    catalog.push(blade14);
    catalog
}

/// Finds the first catalog entry whose model number prefix matches the
/// reported model number, and returns its index.
pub fn find_supported(catalog: &Vec<Descriptor>, model: &String) -> (r: Option<usize>)
    ensures
        (r matches Some(i) ==> (i < catalog@.len() && model_matches(
            model@,
            catalog@[i as int].model_number_prefix@,
        ) && (forall|j: int|
            0 <= j < i ==> !model_matches(model@, catalog@[j].model_number_prefix@)))),
        r is None ==> (forall|j: int|
            0 <= j < catalog@.len() ==> !model_matches(model@, catalog@[j].model_number_prefix@)),
{
    let mut i: usize = 0;
    while i < catalog.len()
        invariant
            i <= catalog@.len(),
            forall|j: int| 0 <= j < i ==> !model_matches(model@, catalog@[j].model_number_prefix@),
        decreases catalog@.len() - i,
    {
        if str_starts_with(model, &catalog[i].model_number_prefix) {
            return Some(i);
        }
        i = i + 1;
    }
    None
}

} // verus!
