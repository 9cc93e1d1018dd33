//! Information about the calculator
use vstd::prelude::*;

use crate::cstr::{c_str, lossy_text, until_nul};

verus! {

/// Native hardware code of a CAS model.
pub const NSPIRE_CAS: u32 = 14;
/// Native hardware code of a non-CAS model.
pub const NSPIRE_NONCAS: u32 = 30;
/// Native hardware code of a CAS CX model.
pub const NSPIRE_CASCX: u32 = 15;
/// Native hardware code of a non-CAS CX model.
pub const NSPIRE_NONCASCX: u32 = 31;

/// Native battery code: powered from outside.
pub const NSPIRE_BATT_POWERED: u32 = 0;
/// Native battery code: low.
pub const NSPIRE_BATT_LOW: u32 = 241;
/// Native battery code: fine.
pub const NSPIRE_BATT_OK: u32 = 127;

/// Native run level code: recovery mode.
pub const NSPIRE_RUNLEVEL_RECOVERY: u32 = 1;
/// Native run level code: the operating system runs.
pub const NSPIRE_RUNLEVEL_OS: u32 = 2;

#[derive(Copy, Clone, Debug, Hash, Eq, PartialEq, Structural)]
pub enum HardwareType {
    Cas,
    NonCas,
    CasCx,
    NonCasCx,
    Unknown(u8),
}

impl HardwareType {
    /// Whether this model is a CAS model. This is the physical model, not the
    /// software model: if CAS software has been installed on a non-CAS device,
    /// this will still return `false`. Use the [name][crate::info::Info::name]
    /// field and search for "CAS" instead.
    pub fn is_cas(&self) -> (r: bool)
        ensures
            r <==> (*self == HardwareType::Cas || *self == HardwareType::CasCx),
    {
        matches!(self, HardwareType::Cas | HardwareType::CasCx)
    }

    /// Whether this model is a CX or CX II model. Whether it is a CX II is
    /// told by the USB product identifier, see `is_cx_ii_product`.
    pub fn is_cx(&self) -> (r: bool)
        ensures
            r <==> (*self == HardwareType::CasCx || *self == HardwareType::NonCasCx),
    {
        matches!(self, HardwareType::CasCx | HardwareType::NonCasCx)
    }

    /// The hardware type that a native code stands for.
    pub open spec fn spec_from_code(code: u32) -> HardwareType {
        if code == NSPIRE_CAS {
            HardwareType::Cas
        } else if code == NSPIRE_CASCX {
            HardwareType::CasCx
        } else if code == NSPIRE_NONCAS {
            HardwareType::NonCas
        } else if code == NSPIRE_NONCASCX {
            HardwareType::NonCasCx
        } else {
            HardwareType::Unknown(code as u8)
        }
    }

    /// Reads a native hardware code; an unknown one keeps its low byte.
    pub fn from_code(code: u32) -> (r: HardwareType)
        ensures
            r == Self::spec_from_code(code),
    {
        match code {
            NSPIRE_CAS => HardwareType::Cas,
            NSPIRE_CASCX => HardwareType::CasCx,
            NSPIRE_NONCAS => HardwareType::NonCas,
            NSPIRE_NONCASCX => HardwareType::NonCasCx,
            v => HardwareType::Unknown(v as u8),
        }
    }
}

#[derive(Copy, Clone, Debug, Hash, Eq, PartialEq, Structural)]
pub enum Battery {
    Powered,
    Low,
    Normal,
    Unknown(u8),
}

impl Battery {
    /// The battery state that a native code stands for.
    pub open spec fn spec_from_code(code: u32) -> Battery {
        if code == NSPIRE_BATT_POWERED {
            Battery::Powered
        } else if code == NSPIRE_BATT_OK {
            Battery::Normal
        } else if code == NSPIRE_BATT_LOW {
            Battery::Low
        } else {
            Battery::Unknown(code as u8)
        }
    }

    /// Reads a native battery code; an unknown one keeps its low byte.
    pub fn from_code(code: u32) -> (r: Battery)
        ensures
            r == Self::spec_from_code(code),
    {
        match code {
            NSPIRE_BATT_POWERED => Battery::Powered,
            NSPIRE_BATT_OK => Battery::Normal,
            NSPIRE_BATT_LOW => Battery::Low,
            v => Battery::Unknown(v as u8),
        }
    }
}

/// The current state of the calculator.
#[derive(Copy, Clone, Debug, Hash, Eq, PartialEq, Structural)]
pub enum RunLevel {
    /// The calculator is in recovery mode.
    Recovery,
    /// The calculator is in the standard operating system.
    Os,
    Unknown(u8),
}

impl RunLevel {
    /// The run level that a native code stands for.
    pub open spec fn spec_from_code(code: u32) -> RunLevel {
        if code == NSPIRE_RUNLEVEL_RECOVERY {
            RunLevel::Recovery
        } else if code == NSPIRE_RUNLEVEL_OS {
            RunLevel::Os
        } else {
            RunLevel::Unknown(code as u8)
        }
    }

    /// Reads a native run level code; an unknown one keeps its low byte.
    pub fn from_code(code: u32) -> (r: RunLevel)
        ensures
            r == Self::spec_from_code(code),
    {
        match code {
            NSPIRE_RUNLEVEL_RECOVERY => RunLevel::Recovery,
            NSPIRE_RUNLEVEL_OS => RunLevel::Os,
            v => RunLevel::Unknown(v as u8),
        }
    }
}

#[derive(Copy, Clone, Debug, Hash, Eq, PartialEq, Structural)]
pub struct Version {
    pub major: u8,
    pub minor: u8,
    pub patch: u8,
    pub build: u16,
}

/// The ten decimal digits, in order.
pub open spec fn digits() -> Seq<char> {
    seq!['0', '1', '2', '3', '4', '5', '6', '7', '8', '9']
}

/// The decimal notation of a number, without leading zeros.
pub open spec fn decimal(n: nat) -> Seq<char>
    decreases n,
{
    if n < 10 {
        seq![digits()[n as int]]
    } else {
        decimal(n / 10).push(digits()[(n % 10) as int])
    }
}

/// Relies on String::push: the character is appended.
#[verifier::external_body]
fn push_char(s: &mut String, c: char)
    ensures
        final(s)@ == old(s)@.push(c),
{
    s.push(c)
}

fn digit(d: u16) -> (c: char)
    requires
        d < 10,
    ensures
        c == digits()[d as int],
{
    match d {
        0 => '0',
        1 => '1',
        2 => '2',
        3 => '3',
        4 => '4',
        5 => '5',
        6 => '6',
        7 => '7',
        8 => '8',
        _ => '9',
    }
}

fn push_decimal(s: &mut String, n: u16)
    ensures
        final(s)@ == old(s)@ + decimal(n as nat),
    decreases n,
{
    if n >= 10 {
        push_decimal(s, n / 10);
    }
    push_char(s, digit(n % 10));
    assert(s@ =~= old(s)@ + decimal(n as nat));
}

impl Version {
    /// The dotted text of the version: major, minor, patch and build, in
    /// decimal.
    pub open spec fn spec_text(&self) -> Seq<char> {
        decimal(self.major as nat) + seq!['.'] + decimal(self.minor as nat) + seq!['.'] + decimal(
            self.patch as nat,
        ) + seq!['.'] + decimal(self.build as nat)
    }

    /// The version as text, such as `4.5.3.14`.
    pub fn to_string(&self) -> (r: String)
        ensures
            r@ == self.spec_text(),
    {
        let mut s = String::new();
        push_decimal(&mut s, self.major as u16);
        push_char(&mut s, '.');
        push_decimal(&mut s, self.minor as u16);
        push_char(&mut s, '.');
        push_decimal(&mut s, self.patch as u16);
        push_char(&mut s, '.');
        push_decimal(&mut s, self.build);
        assert(s@ =~= self.spec_text());
        s
    }

    /// The version that the native record stands for: its combined field
    /// holds the minor number in its tens and the patch number in its units.
    pub open spec fn spec_from_raw(major: u8, combined: u8, build: u16) -> Version {
        Version { major, minor: combined / 10, patch: combined % 10, build }
    }

    /// Reads a native version record.
    pub fn from_raw(major: u8, combined: u8, build: u16) -> (r: Version)
        ensures
            r == Self::spec_from_raw(major, combined, build),
    {
        Version { major, minor: combined / 10, patch: combined % 10, build }
    }
}

#[derive(Copy, Clone, Debug, Hash, Eq, PartialEq, Structural)]
pub struct Lcd {
    pub width: u16,
    pub height: u16,
    /// The number of bits per pixel. Either 8 for non-color calculators or 16
    /// for color calculators.
    pub bpp: u8,
    pub sample_mode: u8,
}

impl Lcd {
    /// Reads a native display descriptor.
    pub fn from_raw(width: u16, height: u16, bbp: u8, sample_mode: u8) -> (r: Lcd)
        ensures
            r == (Lcd { width, height, bpp: bbp, sample_mode }),
    {
        Lcd { width, height, bpp: bbp, sample_mode }
    }
}

/// A native version record: major number, combined minor and patch number,
/// build number.
#[derive(Copy, Clone, Debug, PartialEq, Eq, Structural)]
pub struct RawVersion {
    pub major: u8,
    pub minor: u8,
    pub build: u16,
}

/// The device information record as the protocol engine fills it in, with
/// its text fields as the raw null-terminated buffers.
#[derive(Clone, Debug)]
pub struct RawInfo {
    pub storage_free: u64,
    pub storage_total: u64,
    pub ram_free: u64,
    pub ram_total: u64,
    pub versions: [RawVersion; 3],
    pub hw_type: u32,
    pub batt_status: u32,
    pub batt_is_charging: u8,
    pub clock_speed: u8,
    pub lcd_width: u16,
    pub lcd_height: u16,
    pub lcd_bbp: u8,
    pub lcd_sample_mode: u8,
    pub file_extension: Vec<u8>,
    pub os_extension: Vec<u8>,
    pub device_name: Vec<u8>,
    pub electronic_id: Vec<u8>,
    pub runlevel: u32,
}

#[derive(Clone, Debug)]
pub struct Info {
    pub free_storage: u64,
    pub total_storage: u64,
    pub free_ram: u64,
    pub total_ram: u64,
    /// The operating system version.
    pub version: Version,
    pub boot1_version: Version,
    pub boot2_version: Version,
    pub hw_type: HardwareType,
    pub clock_speed: u8,
    pub lcd: Lcd,
    /// The accepted file extension for OS upgrades.
    pub os_extension: String,
    /// The accepted file extension for files.
    pub file_extension: String,
    /// The name of the calculator.
    pub name: String,
    /// The ID ("serial number") of the calculator.
    pub id: String,
    /// Whether the calculator is in maintenance mode or the standard operating
    /// system.
    pub run_level: RunLevel,
    pub battery: Battery,
    pub is_charging: bool,
}

/// The version that a native version record stands for.
pub open spec fn version_of(v: RawVersion) -> Version {
    Version::spec_from_raw(v.major, v.minor, v.build)
}

fn version_from(v: &RawVersion) -> (r: Version)
    ensures
        r == version_of(*v),
{
    Version::from_raw(v.major, v.minor, v.build)
}

impl Info {
    /// Copies a native device information record out into an `Info`: codes
    /// become their kinds, versions are split, and each text buffer becomes
    /// the text before its first null byte.
    pub fn from_raw(raw: &RawInfo) -> (r: Info)
        ensures
            r.free_storage == raw.storage_free,
            r.total_storage == raw.storage_total,
            r.free_ram == raw.ram_free,
            r.total_ram == raw.ram_total,
            r.version == version_of(raw.versions[0]),
            r.boot1_version == version_of(raw.versions[1]),
            r.boot2_version == version_of(raw.versions[2]),
            r.hw_type == HardwareType::spec_from_code(raw.hw_type),
            r.clock_speed == raw.clock_speed,
            r.lcd == (Lcd {
                width: raw.lcd_width,
                height: raw.lcd_height,
                bpp: raw.lcd_bbp,
                sample_mode: raw.lcd_sample_mode,
            }),
            r.battery == Battery::spec_from_code(raw.batt_status),
            r.file_extension@ == lossy_text(until_nul(raw.file_extension@)),
            r.os_extension@ == lossy_text(until_nul(raw.os_extension@)),
            r.name@ == lossy_text(until_nul(raw.device_name@)),
            r.id@ == lossy_text(until_nul(raw.electronic_id@)),
            r.run_level == RunLevel::spec_from_code(raw.runlevel),
            r.is_charging == (raw.batt_is_charging > 0),
    {
        Info {
            free_storage: raw.storage_free,
            total_storage: raw.storage_total,
            free_ram: raw.ram_free,
            total_ram: raw.ram_total,
            version: version_from(&raw.versions[0]),
            boot1_version: version_from(&raw.versions[1]),
            boot2_version: version_from(&raw.versions[2]),
            hw_type: HardwareType::from_code(raw.hw_type),
            clock_speed: raw.clock_speed,
            lcd: Lcd::from_raw(raw.lcd_width, raw.lcd_height, raw.lcd_bbp, raw.lcd_sample_mode),
            battery: Battery::from_code(raw.batt_status),
            file_extension: c_str(raw.file_extension.as_slice()),
            os_extension: c_str(raw.os_extension.as_slice()),
            name: c_str(raw.device_name.as_slice()),
            id: c_str(raw.electronic_id.as_slice()),
            run_level: RunLevel::from_code(raw.runlevel),
            is_charging: raw.batt_is_charging > 0,
        }
    }
}

} // verus!
