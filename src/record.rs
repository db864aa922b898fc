use vstd::prelude::*;
use vstd::utf8::encode_utf8;

verus! {

/// The raw descriptor fields of one attached USB device.
#[derive(Debug)]
pub struct UsbDevice {
    pub vendor_id: u16,
    pub product_id: u16,
    pub vendor_string: String,
    pub product_string: String,
    pub serial_number: String,
    /// The platform's topology address of the port, where it reports one.
    pub location_id: Option<i64>,
}

/// The lower-case hexadecimal SHA-1 digest of `data`.
pub uninterp spec fn sha1_hex_of(data: Seq<u8>) -> Seq<char>;

/// The fingerprint of a record: the digest of its vendor string, product
/// string and serial number, concatenated without separators, as UTF-8.
pub open spec fn fingerprint(u: UsbDevice) -> Seq<char> {
    sha1_hex_of(encode_utf8(u.vendor_string@ + u.product_string@ + u.serial_number@))
}

/// Relies on `sha1::Sha1` (`new`, `update`, `digest`) and the `Display` of
/// `sha1::Digest`: the text is the hex digest of the bytes, and depends on
/// them alone.
#[verifier::external_body]
fn sha1_hex(data: &[u8]) -> (r: String)
    ensures
        r@ == sha1_hex_of(data@),
{
    let mut h = sha1::Sha1::new();
    h.update(data);
    h.digest().to_string()
}

impl UsbDevice {
    /// The fingerprint of this record, its identity among attached probes.
    pub fn hash(&self) -> (r: String)
        ensures
            r@ == fingerprint(*self),
    {
        let mut joined = self.vendor_string.clone();
        joined.append(self.product_string.as_str());
        joined.append(self.serial_number.as_str());
        let digest = sha1_hex(joined.as_str().as_bytes());
        assert(joined@ == self.vendor_string@ + self.product_string@ + self.serial_number@);
        digest
    }
}

/// Records that agree on vendor string, product string and serial number
/// have the same fingerprint, whatever their ids and location.
pub proof fn lemma_fingerprint_by_strings(a: UsbDevice, b: UsbDevice)
    requires
        a.vendor_string@ == b.vendor_string@,
        a.product_string@ == b.product_string@,
        a.serial_number@ == b.serial_number@,
    ensures
        fingerprint(a) == fingerprint(b),
{
}

} // verus!
