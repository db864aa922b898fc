use vstd::prelude::*;
use crate::text::{has_prefix, contains_chars, occurs_in};

verus! {

/// A mounted volume as seen by the mass-storage lookup: its directory name
/// and the text of its `DETAILS.TXT`, or `None` where that file could not be
/// read.
#[derive(Debug)]
pub struct MountedVolume {
    pub name: String,
    pub details: Option<String>,
}

/// The directory-name prefix of DAPLink mass-storage volumes.
pub open spec fn daplink_volume_prefix() -> Seq<char> {
    seq!['D', 'A', 'P', 'L', 'I', 'N', 'K']
}

/// Whether `v` is a DAPLink volume whose details name the serial number.
pub open spec fn volume_matches(serial: Seq<char>, v: MountedVolume) -> bool {
    &&& daplink_volume_prefix().is_prefix_of(v.name@)
    &&& match v.details {
        Some(d) => occurs_in(serial, d@),
        None => false,
    }
}

/// The index of the first volume from `i` on that matches `serial`.
pub open spec fn first_match_from(serial: Seq<char>, vols: Seq<MountedVolume>, i: int) -> Option<int>
    decreases vols.len() - i,
{
    if i < 0 || i >= vols.len() {
        None
    } else if volume_matches(serial, vols[i]) {
        Some(i)
    } else {
        first_match_from(serial, vols, i + 1)
    }
}

/// The index of the first volume that matches `serial`.
pub open spec fn first_match(serial: Seq<char>, vols: Seq<MountedVolume>) -> Option<int> {
    first_match_from(serial, vols, 0)
}

/// Whether a volume of this directory name is a DAPLink volume.
pub fn is_daplink_volume(name: &str) -> (r: bool)
    ensures
        r == daplink_volume_prefix().is_prefix_of(name@),
{
    proof {
        reveal_strlit("DAPLINK");
    }
    assert("DAPLINK"@ =~= daplink_volume_prefix());
    has_prefix(name, "DAPLINK")
}

/// Whether the volume is a DAPLink volume whose details name `serial`.
pub fn volume_holds_serial(serial: &str, v: &MountedVolume) -> (r: bool)
    ensures
        r == volume_matches(serial@, *v),
{
    if !is_daplink_volume(v.name.as_str()) {
        return false;
    }
    match &v.details {
        Some(d) => contains_chars(d.as_str(), serial),
        None => false,
    }
}

/// Finds the first DAPLink volume whose details name `serial`. A volume
/// whose details could not be read is passed over.
pub fn find_volume(serial: &str, volumes: &Vec<MountedVolume>) -> (r: Option<usize>)
    ensures
        r matches Some(i) ==> i < volumes@.len() && first_match(serial@, volumes@) == Some(i as int),
        r is None ==> first_match(serial@, volumes@) is None,
{
    let mut i: usize = 0;
    while i < volumes.len()
        invariant
            i <= volumes@.len(),
            first_match(serial@, volumes@) == first_match_from(serial@, volumes@, i as int),
        decreases volumes@.len() - i,
    {
        if volume_holds_serial(serial, &volumes[i]) {
            return Some(i);
        }
        i = i + 1;
    }
    None
}

} // verus!
