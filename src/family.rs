use vstd::prelude::*;
use crate::record::{fingerprint, UsbDevice};
use crate::text::{hex_digits, strip_zeros, push_hex_nonzero};
use crate::volume::{first_match, find_volume, MountedVolume};

verus! {

/// The probe families this library knows, and the fallback for all others.
#[derive(Debug, Clone, Copy, PartialEq, Eq, Structural)]
pub enum Family {
    Unknown,
    JLink,
    StLinkV2,
    StLinkV21,
    TiIcdi,
    DapLink,
}

/// The family of a device with the given vendor and product ids.
pub open spec fn classify(vendor_id: u16, product_id: u16) -> Family {
    match (vendor_id, product_id) {
        (0x0d28, 0x0204) => Family::DapLink,
        (0x03eb, 0x2157) => Family::DapLink,
        (0x0483, 0x3748) => Family::StLinkV2,
        (0x0483, 0x374b) => Family::StLinkV21,
        (0x1366, 0x0101) => Family::JLink,
        (0x1366, 0x0105) => Family::JLink,
        (0x1cbe, 0x00fd) => Family::TiIcdi,
        _ => Family::Unknown,
    }
}

/// Whether the pair of ids is a row of the classification table.
pub open spec fn is_listed(vendor_id: u16, product_id: u16) -> bool {
    ||| vendor_id == 0x0d28 && product_id == 0x0204
    ||| vendor_id == 0x03eb && product_id == 0x2157
    ||| vendor_id == 0x0483 && product_id == 0x3748
    ||| vendor_id == 0x0483 && product_id == 0x374b
    ||| vendor_id == 0x1366 && product_id == 0x0101
    ||| vendor_id == 0x1366 && product_id == 0x0105
    ||| vendor_id == 0x1cbe && product_id == 0x00fd
}

/// Classification depends on the vendor and product ids alone, and gives
/// the unknown family to exactly the pairs outside the table.
pub proof fn lemma_classification_total(a: UsbDevice, b: UsbDevice)
    requires
        a.vendor_id == b.vendor_id,
        a.product_id == b.product_id,
    ensures
        classify(a.vendor_id, a.product_id) == classify(b.vendor_id, b.product_id),
        (classify(a.vendor_id, a.product_id) == Family::Unknown) <==> !is_listed(
            a.vendor_id,
            a.product_id,
        ),
{
}

/// The display name of a family.
pub open spec fn family_label(f: Family) -> Option<Seq<char>> {
    match f {
        Family::Unknown => None,
        Family::JLink => Some("JLink"@),
        Family::StLinkV2 => Some("STLinkV2"@),
        Family::StLinkV21 => Some("STLinkV21"@),
        Family::TiIcdi => Some("TI-ICDI"@),
        Family::DapLink => Some("DAPLink"@),
    }
}

/// The argument that selects the unit with this serial number in the
/// debugger tool.
pub open spec fn openocd_serial_of(f: Family, serial: Seq<char>) -> Option<Seq<char>> {
    match f {
        Family::Unknown => None,
        Family::JLink => Some("jlink_serial "@ + serial),
        Family::StLinkV2 => Some("hla_serial "@ + serial),
        Family::StLinkV21 => Some("hla_serial "@ + serial),
        Family::TiIcdi => Some("hla_serial "@ + serial),
        Family::DapLink => Some("cmsis_dap_serial "@ + serial),
    }
}

/// The directory part and stem shared by all serial console paths.
pub open spec fn usbmodem_stem() -> Seq<char> {
    "/dev/cu.usbmodem"@
}

/// The location id as the unsigned 64-bit word that hex formatting renders
/// (two's complement for negative values); zero when absent.
pub open spec fn location_word(loc: Option<i64>) -> nat {
    match loc {
        Some(l) => if l >= 0 {
            l as nat
        } else {
            (l + 0x1_0000_0000_0000_0000) as nat
        },
        None => 0,
    }
}

/// The serial console path built from the location id: the stem, the hex
/// digits of the location without its zeros, then the family's suffix digit.
pub open spec fn location_path(u: UsbDevice, suffix: char) -> Seq<char> {
    usbmodem_stem() + strip_zeros(hex_digits(location_word(u.location_id))) + seq![suffix]
}

/// The serial console path of a unit, where its family exposes one.
pub open spec fn serial_path_of(f: Family, u: UsbDevice) -> Option<Seq<char>> {
    match f {
        Family::JLink => Some(location_path(u, '1')),
        Family::StLinkV21 => Some(location_path(u, '3')),
        Family::DapLink => Some(location_path(u, '2')),
        Family::TiIcdi => if u.serial_number@.len() >= 7 {
            Some(usbmodem_stem() + u.serial_number@.subrange(0, 7) + seq!['1'])
        } else {
            None
        },
        _ => None,
    }
}

/// The name of the mounted volume of a unit, where its family exposes one
/// and a volume names its serial number.
pub open spec fn msd_path_of(f: Family, u: UsbDevice, vols: Seq<MountedVolume>) -> Option<
    Seq<char>,
> {
    match f {
        Family::DapLink => match first_match(u.serial_number@, vols) {
            Some(i) => Some(vols[i].name@),
            None => None,
        },
        _ => None,
    }
}

/// The text of an optional string.
pub open spec fn opt_string_view(s: Option<String>) -> Option<Seq<char>> {
    match s {
        Some(s) => Some(s@),
        None => None,
    }
}

/// The text of an optional string slice.
pub open spec fn opt_str_view(s: Option<&str>) -> Option<Seq<char>> {
    match s {
        Some(s) => Some(s@),
        None => None,
    }
}

/// The serial console path derived from the location id, with `suffix`
/// (one character) at its end.
fn location_serial_path(usb: &UsbDevice, suffix: &str) -> (r: String)
    requires
        suffix@.len() == 1,
    ensures
        r@ == location_path(*usb, suffix@[0]),
{
    let loc: i64 = match usb.location_id {
        Some(l) => l,
        None => 0,
    };
    let word: u64 = if loc >= 0 {
        loc as u64
    } else {
        (loc as i128 + 0x1_0000_0000_0000_0000i128) as u64
    };
    let mut out = "/dev/cu.usbmodem".to_owned();
    push_hex_nonzero(word, &mut out);
    out.append(suffix);
    assert(suffix@ =~= seq![suffix@[0]]);
    out
}

/// The serial console path built from the first seven characters of the
/// serial number; `None` for a shorter serial number.
fn serial_prefix_path(usb: &UsbDevice) -> (r: Option<String>)
    ensures
        opt_string_view(r) == serial_path_of(Family::TiIcdi, *usb),
{
    let serial = usb.serial_number.as_str();
    if serial.unicode_len() < 7 {
        return None;
    }
    let mut out = "/dev/cu.usbmodem".to_owned();
    out.append(serial.substring_char(0, 7));
    proof {
        reveal_strlit("1");
    }
    out.append("1");
    assert("1"@ =~= seq!['1']);
    Some(out)
}

/// The debugger argument: `lead` (the keyword and its space), then the
/// serial number.
fn debugger_arg(lead: &str, serial: &str) -> (r: String)
    ensures
        r@ == lead@ + serial@,
{
    let mut out = lead.to_owned();
    out.append(serial);
    out
}

/// A probe handle: one USB record together with the family it was
/// classified into.
pub trait Device {
    /// The family of this handle.
    spec fn family(&self) -> Family;

    /// The record this handle wraps.
    spec fn record(&self) -> UsbDevice;

    /// The wrapped record.
    fn usb(&self) -> (r: &UsbDevice)
        ensures
            *r == self.record(),
    ;

    /// The fingerprint of the wrapped record.
    fn hash(&self) -> (r: String)
        ensures
            r@ == fingerprint(self.record()),
    ;

    /// Whether the device belongs to no known family.
    fn is_unknown(&self) -> (r: bool)
        ensures
            r == (self.family() == Family::Unknown),
    ;

    /// The family's display name; `None` for an unknown device.
    fn device_type(&self) -> (r: Option<&str>)
        ensures
            opt_str_view(r) == family_label(self.family()),
    ;

    /// The serial console device, where the family exposes one.
    fn serial_path(&self) -> (r: Option<String>)
        ensures
            opt_string_view(r) == serial_path_of(self.family(), self.record()),
    ;

    /// The name of the mounted volume, among `volumes`, that belongs to
    /// this unit.
    fn msd_path(&self, volumes: &Vec<MountedVolume>) -> (r: Option<String>)
        ensures
            opt_string_view(r) == msd_path_of(self.family(), self.record(), volumes@),
    ;

    /// The debugger argument that selects this unit, where the family has
    /// one.
    fn openocd_serial(&self) -> (r: Option<String>)
        ensures
            opt_string_view(r) == openocd_serial_of(self.family(), self.record().serial_number@),
    ;
}

/// A device of no known probe family.
pub struct UnknownDevice {
    usb: UsbDevice,
}

impl Device for UnknownDevice {
    open spec fn family(&self) -> Family {
        Family::Unknown
    }

    closed spec fn record(&self) -> UsbDevice {
        self.usb
    }

    fn usb(&self) -> (r: &UsbDevice) {
        &self.usb
    }

    fn hash(&self) -> (r: String) {
        self.usb.hash()
    }

    fn is_unknown(&self) -> (r: bool) {
        true
    }

    fn device_type(&self) -> (r: Option<&str>) {
        None
    }

    fn serial_path(&self) -> (r: Option<String>) {
        None
    }

    fn msd_path(&self, volumes: &Vec<MountedVolume>) -> (r: Option<String>) {
        None
    }

    fn openocd_serial(&self) -> (r: Option<String>) {
        None
    }
}

/// A SEGGER J-Link probe.
pub struct JLinkDevice {
    usb: UsbDevice,
}

impl Device for JLinkDevice {
    open spec fn family(&self) -> Family {
        Family::JLink
    }

    closed spec fn record(&self) -> UsbDevice {
        self.usb
    }

    fn usb(&self) -> (r: &UsbDevice) {
        &self.usb
    }

    fn hash(&self) -> (r: String) {
        self.usb.hash()
    }

    fn is_unknown(&self) -> (r: bool) {
        false
    }

    fn device_type(&self) -> (r: Option<&str>) {
        Some("JLink")
    }

    fn serial_path(&self) -> (r: Option<String>) {
        proof {
            reveal_strlit("1");
        }
        Some(location_serial_path(&self.usb, "1"))
    }

    fn msd_path(&self, volumes: &Vec<MountedVolume>) -> (r: Option<String>) {
        None
    }

    fn openocd_serial(&self) -> (r: Option<String>) {
        Some(debugger_arg("jlink_serial ", self.usb.serial_number.as_str()))
    }
}

/// An ST-Link/V2 probe.
pub struct StLinkV2Device {
    usb: UsbDevice,
}

impl Device for StLinkV2Device {
    open spec fn family(&self) -> Family {
        Family::StLinkV2
    }

    closed spec fn record(&self) -> UsbDevice {
        self.usb
    }

    fn usb(&self) -> (r: &UsbDevice) {
        &self.usb
    }

    fn hash(&self) -> (r: String) {
        self.usb.hash()
    }

    fn is_unknown(&self) -> (r: bool) {
        false
    }

    fn device_type(&self) -> (r: Option<&str>) {
        Some("STLinkV2")
    }

    fn serial_path(&self) -> (r: Option<String>) {
        None
    }

    fn msd_path(&self, volumes: &Vec<MountedVolume>) -> (r: Option<String>) {
        None
    }

    fn openocd_serial(&self) -> (r: Option<String>) {
        Some(debugger_arg("hla_serial ", self.usb.serial_number.as_str()))
    }
}

/// An ST-Link/V2-1 probe.
pub struct StLinkV21Device {
    usb: UsbDevice,
}

impl Device for StLinkV21Device {
    open spec fn family(&self) -> Family {
        Family::StLinkV21
    }

    closed spec fn record(&self) -> UsbDevice {
        self.usb
    }

    fn usb(&self) -> (r: &UsbDevice) {
        &self.usb
    }

    fn hash(&self) -> (r: String) {
        self.usb.hash()
    }

    fn is_unknown(&self) -> (r: bool) {
        false
    }

    fn device_type(&self) -> (r: Option<&str>) {
        Some("STLinkV21")
    }

    fn serial_path(&self) -> (r: Option<String>) {
        proof {
            reveal_strlit("3");
        }
        Some(location_serial_path(&self.usb, "3"))
    }

    fn msd_path(&self, volumes: &Vec<MountedVolume>) -> (r: Option<String>) {
        None
    }

    fn openocd_serial(&self) -> (r: Option<String>) {
        Some(debugger_arg("hla_serial ", self.usb.serial_number.as_str()))
    }
}

/// A TI In-Circuit Debug Interface.
pub struct TiIcdiDevice {
    usb: UsbDevice,
}

impl Device for TiIcdiDevice {
    open spec fn family(&self) -> Family {
        Family::TiIcdi
    }

    closed spec fn record(&self) -> UsbDevice {
        self.usb
    }

    fn usb(&self) -> (r: &UsbDevice) {
        &self.usb
    }

    fn hash(&self) -> (r: String) {
        self.usb.hash()
    }

    fn is_unknown(&self) -> (r: bool) {
        false
    }

    fn device_type(&self) -> (r: Option<&str>) {
        Some("TI-ICDI")
    }

    fn serial_path(&self) -> (r: Option<String>) {
        serial_prefix_path(&self.usb)
    }

    fn msd_path(&self, volumes: &Vec<MountedVolume>) -> (r: Option<String>) {
        None
    }

    fn openocd_serial(&self) -> (r: Option<String>) {
        Some(debugger_arg("hla_serial ", self.usb.serial_number.as_str()))
    }
}

/// An Arm DAPLink (CMSIS-DAP) probe.
pub struct DapLinkDevice {
    usb: UsbDevice,
}

impl Device for DapLinkDevice {
    open spec fn family(&self) -> Family {
        Family::DapLink
    }

    closed spec fn record(&self) -> UsbDevice {
        self.usb
    }

    fn usb(&self) -> (r: &UsbDevice) {
        &self.usb
    }

    fn hash(&self) -> (r: String) {
        self.usb.hash()
    }

    fn is_unknown(&self) -> (r: bool) {
        false
    }

    fn device_type(&self) -> (r: Option<&str>) {
        Some("DAPLink")
    }

    fn serial_path(&self) -> (r: Option<String>) {
        proof {
            reveal_strlit("2");
        }
        Some(location_serial_path(&self.usb, "2"))
    }

    fn msd_path(&self, volumes: &Vec<MountedVolume>) -> (r: Option<String>) {
        match find_volume(self.usb.serial_number.as_str(), volumes) {
            Some(i) => Some(volumes[i].name.clone()),
            None => None,
        }
    }

    fn openocd_serial(&self) -> (r: Option<String>) {
        Some(debugger_arg("cmsis_dap_serial ", self.usb.serial_number.as_str()))
    }
}

/// A classified probe: one of the family handles.
pub enum Probe {
    Unknown(UnknownDevice),
    JLink(JLinkDevice),
    StLinkV2(StLinkV2Device),
    StLinkV21(StLinkV21Device),
    TiIcdi(TiIcdiDevice),
    DapLink(DapLinkDevice),
}

impl Device for Probe {
    open spec fn family(&self) -> Family {
        match self {
            Probe::Unknown(_) => Family::Unknown,
            Probe::JLink(_) => Family::JLink,
            Probe::StLinkV2(_) => Family::StLinkV2,
            Probe::StLinkV21(_) => Family::StLinkV21,
            Probe::TiIcdi(_) => Family::TiIcdi,
            Probe::DapLink(_) => Family::DapLink,
        }
    }

    open spec fn record(&self) -> UsbDevice {
        match self {
            Probe::Unknown(d) => d.record(),
            Probe::JLink(d) => d.record(),
            Probe::StLinkV2(d) => d.record(),
            Probe::StLinkV21(d) => d.record(),
            Probe::TiIcdi(d) => d.record(),
            Probe::DapLink(d) => d.record(),
        }
    }

    fn usb(&self) -> (r: &UsbDevice) {
        match self {
            Probe::Unknown(d) => d.usb(),
            Probe::JLink(d) => d.usb(),
            Probe::StLinkV2(d) => d.usb(),
            Probe::StLinkV21(d) => d.usb(),
            Probe::TiIcdi(d) => d.usb(),
            Probe::DapLink(d) => d.usb(),
        }
    }

    fn hash(&self) -> (r: String) {
        match self {
            Probe::Unknown(d) => d.hash(),
            Probe::JLink(d) => d.hash(),
            Probe::StLinkV2(d) => d.hash(),
            Probe::StLinkV21(d) => d.hash(),
            Probe::TiIcdi(d) => d.hash(),
            Probe::DapLink(d) => d.hash(),
        }
    }

    fn is_unknown(&self) -> (r: bool) {
        match self {
            Probe::Unknown(d) => d.is_unknown(),
            Probe::JLink(d) => d.is_unknown(),
            Probe::StLinkV2(d) => d.is_unknown(),
            Probe::StLinkV21(d) => d.is_unknown(),
            Probe::TiIcdi(d) => d.is_unknown(),
            Probe::DapLink(d) => d.is_unknown(),
        }
    }

    fn device_type(&self) -> (r: Option<&str>) {
        match self {
            Probe::Unknown(d) => d.device_type(),
            Probe::JLink(d) => d.device_type(),
            Probe::StLinkV2(d) => d.device_type(),
            Probe::StLinkV21(d) => d.device_type(),
            Probe::TiIcdi(d) => d.device_type(),
            Probe::DapLink(d) => d.device_type(),
        }
    }

    fn serial_path(&self) -> (r: Option<String>) {
        match self {
            Probe::Unknown(d) => d.serial_path(),
            Probe::JLink(d) => d.serial_path(),
            Probe::StLinkV2(d) => d.serial_path(),
            Probe::StLinkV21(d) => d.serial_path(),
            Probe::TiIcdi(d) => d.serial_path(),
            Probe::DapLink(d) => d.serial_path(),
        }
    }

    fn msd_path(&self, volumes: &Vec<MountedVolume>) -> (r: Option<String>) {
        match self {
            Probe::Unknown(d) => d.msd_path(volumes),
            Probe::JLink(d) => d.msd_path(volumes),
            Probe::StLinkV2(d) => d.msd_path(volumes),
            Probe::StLinkV21(d) => d.msd_path(volumes),
            Probe::TiIcdi(d) => d.msd_path(volumes),
            Probe::DapLink(d) => d.msd_path(volumes),
        }
    }

    fn openocd_serial(&self) -> (r: Option<String>) {
        match self {
            Probe::Unknown(d) => d.openocd_serial(),
            Probe::JLink(d) => d.openocd_serial(),
            Probe::StLinkV2(d) => d.openocd_serial(),
            Probe::StLinkV21(d) => d.openocd_serial(),
            Probe::TiIcdi(d) => d.openocd_serial(),
            Probe::DapLink(d) => d.openocd_serial(),
        }
    }
}

/// Classifies a record by its vendor and product ids and wraps it in the
/// handle of its family; ids outside the table give an unknown device.
pub fn lookup(usb: UsbDevice) -> (r: Probe)
    ensures
        r.family() == classify(usb.vendor_id, usb.product_id),
        r.record() == usb,
{
    match (usb.vendor_id, usb.product_id) {
        (0x0d28, 0x0204) => Probe::DapLink(DapLinkDevice { usb }),
        (0x03eb, 0x2157) => Probe::DapLink(DapLinkDevice { usb }),
        (0x0483, 0x3748) => Probe::StLinkV2(StLinkV2Device { usb }),
        (0x0483, 0x374b) => Probe::StLinkV21(StLinkV21Device { usb }),
        (0x1366, 0x0101) => Probe::JLink(JLinkDevice { usb }),
        (0x1366, 0x0105) => Probe::JLink(JLinkDevice { usb }),
        (0x1cbe, 0x00fd) => Probe::TiIcdi(TiIcdiDevice { usb }),
        _ => Probe::Unknown(UnknownDevice { usb }),
    }
}

/// Classifies every record of an enumeration, keeping their order.
pub fn enumerate(records: Vec<UsbDevice>) -> (r: Vec<Probe>)
    ensures
        r@.len() == records@.len(),
        forall|i: int|
            0 <= i < r@.len() ==> (#[trigger] r@[i]).record() == records@[i] && r@[i].family()
                == classify(records@[i].vendor_id, records@[i].product_id),
{
    let ghost all = records@;
    let mut rest = records;
    let mut out: Vec<Probe> = Vec::new();
    while rest.len() > 0
        invariant
            out@.len() + rest@.len() == all.len(),
            rest@ == all.subrange(out@.len() as int, all.len() as int),
            forall|i: int|
                0 <= i < out@.len() ==> (#[trigger] out@[i]).record() == all[i] && out@[i].family()
                    == classify(all[i].vendor_id, all[i].product_id),
        decreases rest@.len(),
    {
        let usb = rest.remove(0);
        out.push(lookup(usb));
    }
    out
}

} // verus!
