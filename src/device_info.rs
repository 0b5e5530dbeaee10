use vstd::prelude::*;
use vstd::string::StringExecFns;

verus! {

/// The kind of physical device the engine runs on.
#[derive(Clone, Copy, Debug, PartialEq, Eq, Structural)]
pub enum DeviceType {
    Other,
    IntegratedGpu,
    DiscreteGpu,
    VirtualGpu,
    Cpu,
}

/// What the engine reports about its device.
pub struct DeviceInfo {
    pub name: String,
    pub device_type: DeviceType,
    pub vendor_id: u32,
}

/// The vendor name for a PCI vendor id.
pub open spec fn vendor_name_of(vendor_id: u32) -> &'static str {
    if vendor_id == 0x1002 {
        "AMD"
    } else if vendor_id == 0x1010 {
        "ImgTec"
    } else if vendor_id == 0x10DE {
        "NVIDIA Corporation"
    } else if vendor_id == 0x13B5 {
        "ARM"
    } else if vendor_id == 0x5143 {
        "Qualcomm"
    } else if vendor_id == 0x8086 {
        "INTEL Corporation"
    } else {
        "Unknown vendor"
    }
}

/// Names the vendor of a PCI vendor id.
pub fn vendor_name(vendor_id: u32) -> (r: &'static str)
    ensures
        r == vendor_name_of(vendor_id),
{
    if vendor_id == 0x1002 {
        "AMD"
    } else if vendor_id == 0x1010 {
        "ImgTec"
    } else if vendor_id == 0x10DE {
        "NVIDIA Corporation"
    } else if vendor_id == 0x13B5 {
        "ARM"
    } else if vendor_id == 0x5143 {
        "Qualcomm"
    } else if vendor_id == 0x8086 {
        "INTEL Corporation"
    } else {
        "Unknown vendor"
    }
}

/// The length of a zero-terminated name stored in a fixed buffer: the index
/// of its first zero byte, or the whole buffer when there is none.
pub open spec fn c_name_len(raw: Seq<u8>, n: int) -> bool {
    &&& 0 <= n <= raw.len()
    &&& forall|k: int| 0 <= k < n ==> raw[k] != 0
    &&& n < raw.len() ==> raw[n] == 0
}

/// Finds where a zero-terminated device name ends in its fixed buffer.
pub fn device_name_len(raw: &[u8]) -> (r: usize)
    ensures
        c_name_len(raw@, r as int),
{
    let mut i: usize = 0;
    while i < raw.len()
        invariant
            0 <= i <= raw@.len(),
            forall|k: int| 0 <= k < i ==> raw@[k] != 0,
        decreases raw@.len() - i,
    {
        if raw[i] == 0 {
            return i;
        }
        i = i + 1;
    }
    i
}

/// An API version split into its parts.
#[derive(Clone, Copy, Debug, PartialEq, Eq, Structural)]
pub struct ApiVersion {
    pub major: u32,
    pub minor: u32,
    pub patch: u32,
}

/// The parts of a packed API version (10 bits of minor, 12 of patch); a
/// loader that reports no version offers 1.0.0.
pub open spec fn api_version_of(packed: Option<u32>) -> ApiVersion {
    match packed {
        Some(v) => ApiVersion { major: v >> 22u32, minor: (v >> 12u32) & 0x3ff, patch: v & 0xfff },
        None => ApiVersion { major: 1, minor: 0, patch: 0 },
    }
}

/// Splits a packed API version.
pub fn api_version(packed: Option<u32>) -> (r: ApiVersion)
    ensures
        r == api_version_of(packed),
{
    match packed {
        Some(v) => ApiVersion { major: v >> 22u32, minor: (v >> 12u32) & 0x3ff, patch: v & 0xfff },
        None => ApiVersion { major: 1, minor: 0, patch: 0 },
    }
}

/// The character of a decimal digit.
pub open spec fn digit_char(d: int) -> char {
    if d == 0 {
        '0'
    } else if d == 1 {
        '1'
    } else if d == 2 {
        '2'
    } else if d == 3 {
        '3'
    } else if d == 4 {
        '4'
    } else if d == 5 {
        '5'
    } else if d == 6 {
        '6'
    } else if d == 7 {
        '7'
    } else if d == 8 {
        '8'
    } else {
        '9'
    }
}

/// The decimal digits of `n`, most significant first, with no leading zero.
pub open spec fn decimal(n: nat) -> Seq<char>
    decreases n,
{
    if n < 10 {
        seq![digit_char(n as int)]
    } else {
        decimal(n / 10).push(digit_char((n % 10) as int))
    }
}

/// The name of an API version: its three parts in decimal, separated by dots.
pub open spec fn version_name_of(v: ApiVersion) -> Seq<char> {
    decimal(v.major as nat) + seq!['.'] + decimal(v.minor as nat) + seq!['.'] + decimal(
        v.patch as nat,
    )
}

fn digit_str(d: u32) -> (r: &'static str)
    requires
        d < 10,
    ensures
        r@ == seq![digit_char(d as int)],
{
    proof {
        reveal_strlit("0");
        reveal_strlit("1");
        reveal_strlit("2");
        reveal_strlit("3");
        reveal_strlit("4");
        reveal_strlit("5");
        reveal_strlit("6");
        reveal_strlit("7");
        reveal_strlit("8");
        reveal_strlit("9");
    }
    let r = if d == 0 {
        "0"
    } else if d == 1 {
        "1"
    } else if d == 2 {
        "2"
    } else if d == 3 {
        "3"
    } else if d == 4 {
        "4"
    } else if d == 5 {
        "5"
    } else if d == 6 {
        "6"
    } else if d == 7 {
        "7"
    } else if d == 8 {
        "8"
    } else {
        "9"
    };
    assert(r@ =~= seq![digit_char(d as int)]);
    r
}

fn append_decimal(s: &mut String, n: u32)
    ensures
        final(s)@ == old(s)@ + decimal(n as nat),
    decreases n,
{
    if n < 10 {
        s.append(digit_str(n));
    } else {
        append_decimal(s, n / 10);
        s.append(digit_str(n % 10));
        assert(final(s)@ =~= old(s)@ + decimal(n as nat));
    }
}

/// Writes an API version as text, such as `1.2.170`.
pub fn version_name(v: ApiVersion) -> (r: String)
    ensures
        r@ == version_name_of(v),
{
    proof {
        reveal_strlit(".");
    }
    let mut r = String::new();
    append_decimal(&mut r, v.major);
    r.append(".");
    append_decimal(&mut r, v.minor);
    r.append(".");
    append_decimal(&mut r, v.patch);
    assert(r@ =~= version_name_of(v));
    r
}

} // verus!
