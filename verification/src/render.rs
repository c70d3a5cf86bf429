//! Pure text rendering of decoded records.
//!
//! Each decoded type gets a `describe` method returning a multi-line
//! `String` that surfaces every field, reserved values included, with the
//! two enumerations and the two booleans rendered by name. The exact text
//! produced is pinned down by the `spec_describe` functions.

use vstd::prelude::*;
use crate::model::{
    BinauralType, DeviceCapabilities, DeviceSide, FeatureMap, HiSyncID, ReadOnlyProperties,
};

verus! {

/// The decimal digit character for a value below ten.
pub open spec fn dec_digit(d: nat) -> char
    recommends
        d < 10,
{
    if d == 0 {
        '0'
    } else if d == 1 {
        '1'
    } else if d == 2 {
        '2'
    } else if d == 3 {
        '3'
    } else if d == 4 {
        '4'
    } else if d == 5 {
        '5'
    } else if d == 6 {
        '6'
    } else if d == 7 {
        '7'
    } else if d == 8 {
        '8'
    } else {
        '9'
    }
}

/// The decimal rendering of a natural number: most significant digit first,
/// no leading zeros (a lone zero for zero itself).
pub open spec fn dec_digits(n: nat) -> Seq<char>
    decreases n,
{
    if n < 10 {
        seq![dec_digit(n)]
    } else {
        dec_digits(n / 10) + seq![dec_digit(n % 10)]
    }
}

/// The one-character string for a decimal digit.
fn digit_str(d: u64) -> (r: &'static str)
    requires
        d < 10,
    ensures
        r@ == seq![dec_digit(d as nat)],
{
    proof {
        reveal_strlit("0");
        reveal_strlit("1");
        reveal_strlit("2");
        reveal_strlit("3");
        reveal_strlit("4");
        reveal_strlit("5");
        reveal_strlit("6");
        reveal_strlit("7");
        reveal_strlit("8");
        reveal_strlit("9");
    }
    let r: &'static str = if d == 0 {
        "0"
    } else if d == 1 {
        "1"
    } else if d == 2 {
        "2"
    } else if d == 3 {
        "3"
    } else if d == 4 {
        "4"
    } else if d == 5 {
        "5"
    } else if d == 6 {
        "6"
    } else if d == 7 {
        "7"
    } else if d == 8 {
        "8"
    } else {
        "9"
    };
    assert(r@ =~= seq![dec_digit(d as nat)]);
    r
}

/// Append the decimal rendering of `n` to `out`.
pub fn append_decimal(out: &mut String, n: u64)
    ensures
        final(out)@ == old(out)@ + dec_digits(n as nat),
    decreases n,
{
    if n >= 10 {
        append_decimal(out, n / 10);
    }
    let ds = digit_str(n % 10);
    out.append(ds);
    proof {
        if n < 10 {
            assert(old(out)@ + ds@ =~= old(out)@ + dec_digits(n as nat));
        } else {
            assert((old(out)@ + dec_digits(n as nat / 10)) + ds@ =~= old(out)@ + dec_digits(
                n as nat,
            ));
        }
    }
}

/// The decimal rendering of `n` as a `String`.
pub fn decimal_string(n: u64) -> (r: String)
    ensures
        r@ == dec_digits(n as nat),
{
    let mut out = String::new();
    append_decimal(&mut out, n);
    proof {
        assert(Seq::<char>::empty() + dec_digits(n as nat) =~= dec_digits(n as nat));
    }
    out
}

/// The rendering of a boolean, by name.
pub open spec fn spec_bool_text(b: bool) -> Seq<char> {
    if b {
        "true"@
    } else {
        "false"@
    }
}

/// The name of a boolean value.
pub fn bool_str(b: bool) -> (r: &'static str)
    ensures
        r@ == spec_bool_text(b),
{
    if b {
        "true"
    } else {
        "false"
    }
}

impl DeviceSide {
    /// The rendering of a side, by name.
    pub open spec fn spec_name(self) -> Seq<char> {
        match self {
            DeviceSide::Left => "Left"@,
            DeviceSide::Right => "Right"@,
        }
    }

    pub fn name(&self) -> (r: &'static str)
        ensures
            r@ == self.spec_name(),
    {
        match self {
            DeviceSide::Left => "Left",
            DeviceSide::Right => "Right",
        }
    }
}

impl BinauralType {
    /// The rendering of a binaural type, by name.
    pub open spec fn spec_name(self) -> Seq<char> {
        match self {
            BinauralType::Monaural => "Monaural"@,
            BinauralType::Binaural => "Binaural"@,
        }
    }

    pub fn name(&self) -> (r: &'static str)
        ensures
            r@ == self.spec_name(),
    {
        match self {
            BinauralType::Monaural => "Monaural",
            BinauralType::Binaural => "Binaural",
        }
    }
}

impl DeviceCapabilities {
    /// The full text rendering of a capabilities value: every field on its
    /// own line, enumerations and booleans by name, reserved bits in decimal.
    pub open spec fn spec_describe(self) -> Seq<char> {
        "DeviceCapabilities:\n    Device Side: "@ + self.device_side.spec_name()
            + "\n    Binaural Type: "@ + self.binaural_type.spec_name()
            + "\n    Supports CSIS: "@ + spec_bool_text(self.supports_csis)
            + "\n    Reserved: "@ + dec_digits(self.reserved as nat) + "\n"@
    }

    pub fn describe(&self) -> (r: String)
        ensures
            r@ == self.spec_describe(),
    {
        let mut out = String::from_str("DeviceCapabilities:\n    Device Side: ");
        out.append(self.device_side.name());
        out.append("\n    Binaural Type: ");
        out.append(self.binaural_type.name());
        out.append("\n    Supports CSIS: ");
        out.append(bool_str(self.supports_csis));
        out.append("\n    Reserved: ");
        append_decimal(&mut out, self.reserved as u64);
        out.append("\n");
        out
    }
}

impl HiSyncID {
    /// The full text rendering of a HiSyncID: both identifiers in decimal.
    pub open spec fn spec_describe(self) -> Seq<char> {
        "HiSyncID:\n    Manufacturer Id: "@ + dec_digits(self.manufacturer_id as nat)
            + "\n    Hearing Aid Set Id: "@ + dec_digits(self.hearing_aid_set_id as nat) + "\n"@
    }

    pub fn describe(&self) -> (r: String)
        ensures
            r@ == self.spec_describe(),
    {
        let mut out = String::from_str("HiSyncID:\n    Manufacturer Id: ");
        append_decimal(&mut out, self.manufacturer_id as u64);
        out.append("\n    Hearing Aid Set Id: ");
        append_decimal(&mut out, self.hearing_aid_set_id);
        out.append("\n");
        out
    }
}

impl FeatureMap {
    /// The full text rendering of a feature map: the boolean by name, the
    /// reserved bits in decimal.
    pub open spec fn spec_describe(self) -> Seq<char> {
        "FeatureMap:\n    LE CoC Supported: "@ + spec_bool_text(self.le_coc_supported)
            + "\n    Reserved: "@ + dec_digits(self.reserved as nat) + "\n"@
    }

    pub fn describe(&self) -> (r: String)
        ensures
            r@ == self.spec_describe(),
    {
        let mut out = String::from_str("FeatureMap:\n    LE CoC Supported: ");
        out.append(bool_str(self.le_coc_supported));
        out.append("\n    Reserved: ");
        append_decimal(&mut out, self.reserved as u64);
        out.append("\n");
        out
    }
}

impl ReadOnlyProperties {
    /// The full text rendering of a decoded record: every field surfaced,
    /// the nested structures rendered by their own descriptions.
    pub open spec fn spec_describe(self) -> Seq<char> {
        "ReadOnlyProperties:\n  Version: "@ + dec_digits(self.version as nat) + "\n  "@
            + self.device_capabilities.spec_describe() + "\n  "@ + self.hi_sync_id.spec_describe()
            + "\n  "@ + self.feature_map.spec_describe() + "\n  Render Delay: "@ + dec_digits(
            self.render_delay as nat,
        ) + "\n  Reserved: "@ + dec_digits(self.reserved as nat) + "\n  Supported Codec IDs: "@
            + dec_digits(self.supported_codec_ids as nat) + "\n"@
    }

    pub fn describe(&self) -> (r: String)
        ensures
            r@ == self.spec_describe(),
    {
        let mut out = String::from_str("ReadOnlyProperties:\n  Version: ");
        append_decimal(&mut out, self.version as u64);
        out.append("\n  ");
        out.append(self.device_capabilities.describe().as_str());
        out.append("\n  ");
        out.append(self.hi_sync_id.describe().as_str());
        out.append("\n  ");
        out.append(self.feature_map.describe().as_str());
        out.append("\n  Render Delay: ");
        append_decimal(&mut out, self.render_delay as u64);
        out.append("\n  Reserved: ");
        append_decimal(&mut out, self.reserved as u64);
        out.append("\n  Supported Codec IDs: ");
        append_decimal(&mut out, self.supported_codec_ids as u64);
        out.append("\n");
        out
    }
}

} // verus!
