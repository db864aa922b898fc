//! Classification and addressing of USB debug probes.
//!
//! Raw USB records are classified into probe families by their vendor and
//! product ids; each family knows how it is addressed (debugger serial
//! argument, serial console device, mass-storage volume), and a filter
//! selects probes by family and by fingerprint prefix.

pub mod family;
pub mod filter;
pub mod record;
pub mod text;
pub mod volume;

pub use family::{
    enumerate, lemma_classification_total, lookup, DapLinkDevice, Device, Family, JLinkDevice, Probe, StLinkV21Device,
    StLinkV2Device, TiIcdiDevice, UnknownDevice,
};
pub use filter::{
    lemma_empty_prefix_is_no_prefix, lemma_search_all_is_prefix_only, lemma_search_drops_unknown,
    matches_filter, search, DeviceFilter,
};
pub use record::{lemma_fingerprint_by_strings, UsbDevice};
pub use text::{contains_chars, has_prefix, push_hex_nonzero};
pub use volume::{find_volume, is_daplink_volume, volume_holds_serial, MountedVolume};
