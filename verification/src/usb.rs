//! What the board tells of itself in its USB descriptors, and how the host
//! picks a board by them.

use vstd::prelude::*;
use vstd::string::StringSliceAdditionalSpecFns;

verus! {

/// Vendor identifier of the board.
pub const VENDOR_ID: u16 = 0xc0de;

/// Product identifier of the board.
pub const PRODUCT_ID: u16 = 0xcafe;

/// Manufacturer that the board reports.
pub const MANUFACTURER: &'static str = "QOD Lab";

/// Device class of a composite device with interface association
/// descriptors, which some hosts ask for.
pub const DEVICE_CLASS: u8 = 0xEF;

/// Device sub-class that goes with `DEVICE_CLASS`.
pub const DEVICE_SUB_CLASS: u8 = 0x02;

/// Device protocol that goes with `DEVICE_CLASS`.
pub const DEVICE_PROTOCOL: u8 = 0x01;

/// What the board reports of itself on the bus.
#[derive(Clone, Copy, Debug, PartialEq, Eq)]
pub struct UsbConfig {
    pub vendor_id: u16,
    pub product_id: u16,
    pub manufacturer: &'static str,
    pub product: &'static str,
    pub serial_number: &'static str,
    pub device_release: u16,
    pub device_class: u8,
    pub device_sub_class: u8,
    pub device_protocol: u8,
    pub composite_with_iads: bool,
}

/// A firmware or host version: major, minor, patch.
#[derive(Clone, Copy, Debug, PartialEq, Eq, Structural)]
pub struct Version {
    pub major: u16,
    pub minor: u16,
    pub patch: u16,
}

/// The release number of a version: the major part in the high byte, the
/// minor and the patch part in the two halves of the low byte.
pub open spec fn release_number(v: Version) -> int {
    256 * v.major + 16 * v.minor + v.patch
}

/// The version that a release number is read as: patch and minor part from
/// the two halves of the low byte, the major part from the high byte taken
/// as two decimal digits.
pub open spec fn version_of(release: u16) -> Version {
    Version {
        major: ((release / 256) % 16 + 10 * (release / 4096)) as u16,
        minor: ((release / 16) % 16) as u16,
        patch: (release % 16) as u16,
    }
}

/// The number of which `bytes` are the digits to base 256, lowest first.
pub open spec fn le_number(bytes: Seq<u8>) -> nat
    decreases bytes.len(),
{
    if bytes.len() == 0 {
        0
    } else {
        bytes[0] as nat + 256 * le_number(bytes.drop_first())
    }
}

/// 256 to the power of `n`.
pub open spec fn byte_span(n: nat) -> nat
    decreases n,
{
    if n == 0 {
        1
    } else {
        256 * byte_span((n - 1) as nat)
    }
}

impl Version {
    /// Whether every part fits the room it has in a release number.
    pub open spec fn fits(self) -> bool {
        self.major <= 255 && self.minor <= 15 && self.patch <= 15
    }
}

/// The release number that a device reports for its firmware's version, or
/// nothing where a part does not fit its room.
pub fn version_bcd(version: Version) -> (r: Option<u16>)
    ensures
        match r {
            Some(release) => version.fits() && release == release_number(version),
            None => !version.fits(),
        },
{
    if version.major > 255 || version.minor > 15 || version.patch > 15 {
        return None;
    }
    Some(version.major * 256 + version.minor * 16 + version.patch)
}

/// What a board with this product name and serial number, running
/// firmware of this version, reports of itself. There is nothing to report
/// where a part of the version does not fit its room in the release number.
pub fn get_usb_config(
    product_name: &'static str,
    serial_number: &'static str,
    version: Version,
) -> (r: Option<UsbConfig>)
    ensures
        match r {
            Some(config) => version.fits() && config == (UsbConfig {
                vendor_id: VENDOR_ID,
                product_id: PRODUCT_ID,
                manufacturer: MANUFACTURER,
                product: product_name,
                serial_number,
                device_release: release_number(version) as u16,
                device_class: DEVICE_CLASS,
                device_sub_class: DEVICE_SUB_CLASS,
                device_protocol: DEVICE_PROTOCOL,
                composite_with_iads: true,
            }),
            None => !version.fits(),
        },
{
    match version_bcd(version) {
        Some(device_release) => Some(
            UsbConfig {
                vendor_id: VENDOR_ID,
                product_id: PRODUCT_ID,
                manufacturer: MANUFACTURER,
                product: product_name,
                serial_number,
                device_release,
                device_class: DEVICE_CLASS,
                device_sub_class: DEVICE_SUB_CLASS,
                device_protocol: DEVICE_PROTOCOL,
                composite_with_iads: true,
            },
        ),
        None => None,
    }
}

/// The version that a device's release number is read as.
pub fn device_version(release: u16) -> (v: Version)
    ensures
        v == version_of(release),
{
    let patch: u16 = release & 0x000F;
    let minor: u16 = (release & 0x00F0) >> 4;
    let units: u16 = (release & 0x0F00) >> 8;
    let tens: u16 = (release & 0xF000) >> 12;
    assert(release & 0x000F == release % 16) by (bit_vector);
    assert((release & 0x00F0) >> 4 == (release / 16) % 16) by (bit_vector);
    assert((release & 0x0F00) >> 8 == (release / 256) % 16) by (bit_vector);
    assert((release & 0xF000) >> 12 == release / 4096) by (bit_vector);
    Version { major: units + 10 * tens, minor, patch }
}

/// A version with a major part below 16 is read back from its release
/// number as it was.
pub proof fn lemma_version_round_trip(v: Version)
    requires
        v.fits(),
        v.major < 16,
    ensures
        version_of(release_number(v) as u16) == v,
{
}

/// Whether the device's firmware is of the host's version.
pub fn version_matches(release: u16, host: Version) -> (same: bool)
    ensures
        same == (version_of(release) == host),
{
    let device = device_version(release);
    device.major == host.major && device.minor == host.minor && device.patch == host.patch
}

/// Whether two strings have the same bytes.
pub fn same_text(a: &str, b: &str) -> (same: bool)
    ensures
        same == (a.spec_bytes() == b.spec_bytes()),
{
    let x = a.as_bytes();
    let y = b.as_bytes();
    if x.len() != y.len() {
        return false;
    }
    let mut i: usize = 0;
    while i < x.len()
        invariant
            i <= x.len(),
            x.len() == y.len(),
            x@ == a.spec_bytes(),
            y@ == b.spec_bytes(),
            forall|j: int| 0 <= j < i ==> x@[j] == y@[j],
        decreases x.len() - i,
    {
        if x[i] != y[i] {
            return false;
        }
        i += 1;
    }
    assert(x@ =~= y@);
    true
}

/// Whether a device is the one to connect to. Where a serial number is
/// asked for, the device must report that serial number; its product
/// string does not count then. Where none is asked for, the device must
/// report the product string.
pub open spec fn spec_device_matches(
    wanted_serial: Option<&str>,
    wanted_product: &str,
    serial_number: Option<&str>,
    product_string: Option<&str>,
) -> bool {
    match wanted_serial {
        Some(wanted) => match serial_number {
            Some(found) => found.spec_bytes() == wanted.spec_bytes(),
            None => false,
        },
        None => match product_string {
            Some(found) => found.spec_bytes() == wanted_product.spec_bytes(),
            None => false,
        },
    }
}

/// Whether a device is the one to connect to, by the serial number and
/// the product string that it reports.
pub fn device_matches(
    wanted_serial: Option<&str>,
    wanted_product: &str,
    serial_number: Option<&str>,
    product_string: Option<&str>,
) -> (r: bool)
    ensures
        r == spec_device_matches(wanted_serial, wanted_product, serial_number, product_string),
{
    match wanted_serial {
        Some(wanted) => match serial_number {
            Some(found) => same_text(found, wanted),
            None => false,
        },
        None => match product_string {
            Some(found) => same_text(found, wanted_product),
            None => false,
        },
    }
}

/// A number of `n` digits to base 256 is below 256 to the power of `n`.
pub proof fn lemma_le_number_bound(bytes: Seq<u8>)
    ensures
        le_number(bytes) < byte_span(bytes.len()),
    decreases bytes.len(),
{
    if bytes.len() > 0 {
        lemma_le_number_bound(bytes.drop_first());
    }
}

/// The board's unique identifier as a number: its twelve bytes are the
/// digits to base 256, lowest first.
pub fn unique_id_number(id: &[u8; 12]) -> (n: u128)
    ensures
        n == le_number(id@),
        n < 0x1_0000_0000_0000_0000_0000_0000,
{
    let mut n: u128 = 0;
    let mut i: usize = 12;
    while i > 0
        invariant
            i <= 12,
            n == le_number(id@.skip(i as int)),
            n < byte_span((12 - i) as nat),
        decreases i,
    {
        i -= 1;
        proof {
            reveal_with_fuel(byte_span, 13);
            assert(id@.skip(i as int).drop_first() =~= id@.skip(i + 1));
            lemma_le_number_bound(id@.skip(i as int));
        }
        n = n * 256 + id[i] as u128;
    }
    proof {
        reveal_with_fuel(byte_span, 13);
        assert(id@.skip(0) =~= id@);
    }
    n
}

} // verus!
