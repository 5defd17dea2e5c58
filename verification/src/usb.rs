//! USB drives: their description, the choice of the target drive, and the
//! reading of what the operating system tools report about drives.
use vstd::prelude::*;
use vstd::string::StringSliceAdditionalSpecFns;

use crate::text::{
    ascii_upper, ascii_upper_all, char_is_space, char_to_ascii_uppercase, chars_of, concat,
    ends_with, first_tagged_in_order, has_prefix, has_suffix, is_ascii_digit, is_space, lines,
    matches_at, parse_unsigned, parse_unsigned_chars, push_char, starts_with, str_eq, string_of,
    tagged_value, tagged_value_of, tags_well_ordered, text_lines, trim, trim_range, trimmed,
};

verus! {

/// A drive that the installer can write to.
#[derive(Debug, Clone)]
pub struct UsbDevice {
    pub device_path: String,
    pub drive_letter: Option<String>,
    pub size: u64,
    pub model: String,
    pub is_removable: bool,
}

/// An exact copy of `d`.
pub fn copy_device(d: &UsbDevice) -> (r: UsbDevice)
    ensures
        r == *d,
{
    UsbDevice {
        device_path: d.device_path.clone(),
        drive_letter: match &d.drive_letter {
            Some(l) => Some(l.clone()),
            None => None,
        },
        size: d.size,
        model: d.model.clone(),
        is_removable: d.is_removable,
    }
}

/// Finds USB drives with the operating system's tools.
pub struct UsbDetector;

impl UsbDetector {
    pub fn new() -> (r: Self) {
        UsbDetector
    }
}

/// Why no target drive could be chosen.
#[derive(Debug, Clone, Copy, PartialEq, Eq, Structural)]
pub enum UsbSelectError {
    /// No drive was detected at all.
    NoDevicesDetected,
    /// Drives were detected, but none is removable.
    NoRemovableDevice,
}

impl UsbSelectError {
    /// The message shown for the error.
    pub fn message(&self) -> (r: &'static str)
        ensures
            r@ == match self {
                UsbSelectError::NoDevicesDetected => "No USB devices detected"@,
                UsbSelectError::NoRemovableDevice => "No removable USB devices found"@,
            },
    {
        match self {
            UsbSelectError::NoDevicesDetected => "No USB devices detected",
            UsbSelectError::NoRemovableDevice => "No removable USB devices found",
        }
    }
}

/// The raw device path of drive letter `c` on Windows: `\\.\C:`.
pub open spec fn raw_drive_path(c: char) -> Seq<char> {
    "\\\\.\\"@ + seq![c] + ":"@
}

/// The device path for a drive the user typed in: a text of one byte (`q`)
/// or of two bytes ending in a colon (`q:`) becomes the raw path of its first
/// character in upper case; anything else is taken as a path as it is.
pub open spec fn manual_device_path(drive: &str) -> Seq<char> {
    if drive.len() == 1 || (drive.len() == 2 && ends_with(
        drive@,
        ":"@,
    )) {
        raw_drive_path(ascii_upper(drive@[0]))
    } else {
        drive@
    }
}

/// The device that stands for a drive the user typed in.
pub open spec fn is_manual_device(d: UsbDevice, drive: &str) -> bool {
    &&& d.device_path@ == manual_device_path(drive)
    &&& d.drive_letter matches Some(l) && l@ == drive@
    &&& d.size == 0
    &&& d.model@ == "Manual Selection"@
    &&& d.is_removable
}

/// `i` is the first removable device of `devices`.
pub open spec fn is_first_removable(devices: Seq<UsbDevice>, i: int) -> bool {
    &&& 0 <= i < devices.len()
    &&& devices[i].is_removable
    &&& forall|j: int| 0 <= j < i ==> !(#[trigger] devices[j]).is_removable
}

/// The raw device path of drive letter `c`.
pub fn raw_drive_path_of(c: char) -> (r: String)
    ensures
        r@ == raw_drive_path(c),
{
    let mut r = String::from_str("\\\\.\\");
    push_char(&mut r, c);
    r.append(":");
    r
}

/// The drive to install to: the drive the user typed in when there is one,
/// otherwise the first removable detected drive.
pub fn select_usb_device(devices: &[UsbDevice], manual_drive: Option<&str>) -> (r: Result<
    UsbDevice,
    UsbSelectError,
>)
    ensures
        manual_drive matches Some(drive) ==> (r matches Ok(d) && is_manual_device(d, drive)),
        manual_drive is None ==> match r {
            Ok(d) => exists|i: int| is_first_removable(devices@, i) && d == devices@[i],
            Err(UsbSelectError::NoDevicesDetected) => devices@.len() == 0,
            Err(UsbSelectError::NoRemovableDevice) => devices@.len() > 0 && forall|i: int|
                0 <= i < devices@.len() ==> !(#[trigger] devices@[i]).is_removable,
        },
{
    if let Some(drive) = manual_drive {
        let n = drive.len();
        let device_path = if n == 1 || (n == 2 && has_suffix(
            chars_of(drive).as_slice(),
            chars_of(":").as_slice(),
        )) {
            assert(drive@.len() > 0) by {
                if drive@.len() == 0 {
                    assert(drive.spec_bytes() == Seq::<u8>::empty());
                }
            }
            let letter = char_to_ascii_uppercase(drive.get_char(0));
            raw_drive_path_of(letter)
        } else {
            String::from_str(drive)
        };
        let d = UsbDevice {
            device_path,
            drive_letter: Some(String::from_str(drive)),
            size: 0,
            model: String::from_str("Manual Selection"),
            is_removable: true,
        };
        return Ok(d);
    }
    if devices.len() == 0 {
        return Err(UsbSelectError::NoDevicesDetected);
    }
    let mut i: usize = 0;
    while i < devices.len()
        invariant
            manual_drive is None,
            i <= devices@.len(),
            forall|j: int| 0 <= j < i ==> !(#[trigger] devices@[j]).is_removable,
        decreases devices.len() - i,
    {
        if devices[i].is_removable {
            return Ok(copy_device(&devices[i]));
        }
        i += 1;
    }
    Err(UsbSelectError::NoRemovableDevice)
}

// ---------------------------------------------------------------------------
// Windows
// ---------------------------------------------------------------------------

/// Bit `i` of the logical drive mask is set.
pub open spec fn drive_bit(mask: u32, i: u32) -> bool {
    (mask >> i) & 1 == 1
}

/// The letter of drive number `i` (`A` for 0).
pub open spec fn drive_letter_of(i: int) -> char {
    ('A' as int + i) as char
}

/// The letters of the drives among the first `n` that the mask reports,
/// in alphabetical order.
pub open spec fn mask_letters(mask: u32, n: nat) -> Seq<char>
    decreases n,
{
    if n == 0 {
        seq![]
    } else {
        let rest = mask_letters(mask, (n - 1) as nat);
        if drive_bit(mask, (n - 1) as u32) {
            rest.push(drive_letter_of(n - 1))
        } else {
            rest
        }
    }
}

/// The letters of the drives that a `GetLogicalDrives` mask reports
/// (bit 0 for `A` up to bit 25 for `Z`), in alphabetical order.
pub fn drive_letters_in_mask(mask: u32) -> (r: Vec<char>)
    ensures
        r@ == mask_letters(mask, 26),
{
    let mut r: Vec<char> = Vec::new();
    let mut i: u32 = 0;
    while i < 26
        invariant
            i <= 26,
            r@ == mask_letters(mask, i as nat),
        decreases 26 - i,
    {
        if (mask >> i) & 1 == 1 {
            let c: char = ((65u8 + i as u8) as char);
            assert(c == drive_letter_of(i as int));
            r.push(c);
        }
        i += 1;
    }
    r
}

/// The name of drive letter `c` (`C:`).
pub fn drive_name_of(c: char) -> (r: String)
    ensures
        r@ == seq![c] + ":"@,
{
    let mut r = String::new();
    push_char(&mut r, c);
    r.append(":");
    r
}

/// The root directory of drive letter `c` (`C:\`).
pub fn drive_root_of(c: char) -> (r: String)
    ensures
        r@ == seq![c] + ":\\"@,
{
    let mut r = String::new();
    push_char(&mut r, c);
    r.append(":\\");
    r
}

/// The trimmed output of a model query, when it is not empty.
pub open spec fn model_from_output(out: Seq<char>) -> Option<Seq<char>> {
    if trimmed(out).len() > 0 {
        Some(trimmed(out))
    } else {
        None
    }
}

/// The model that a PowerShell model query printed, if any.
pub fn model_from_command_output(stdout: &str) -> (r: Option<String>)
    ensures
        match r {
            Some(m) => model_from_output(stdout@) == Some(m@),
            None => model_from_output(stdout@) is None,
        },
{
    let m = trim(stdout);
    if m.as_str().is_empty() {
        None
    } else {
        Some(m)
    }
}

/// The model on a `Model=` line of `wmic ... /value` output: `i` is the
/// first line that starts with `Model=` and has something after it.
pub open spec fn is_first_wmic_model_line(ls: Seq<Seq<char>>, i: int) -> bool {
    &&& 0 <= i < ls.len()
    &&& starts_with(ls[i], "Model="@)
    &&& trimmed(ls[i].skip(6)).len() > 0
    &&& forall|j: int|
        0 <= j < i ==> !(starts_with(#[trigger] ls[j], "Model="@) && trimmed(ls[j].skip(6)).len()
            > 0)
}

/// The model that `wmic diskdrive ... get Model /value` printed, if any.
pub fn model_from_wmic_output(stdout: &str) -> (r: Option<String>)
    ensures
        match r {
            Some(m) => exists|i: int|
                is_first_wmic_model_line(text_lines(stdout@), i) && m@ == trimmed(
                    text_lines(stdout@)[i].skip(6),
                ),
            None => forall|i: int| !is_first_wmic_model_line(text_lines(stdout@), i),
        },
{
    let cs = chars_of(stdout);
    let prefix = chars_of("Model=");
    let ls = lines(cs.as_slice());
    let ghost tl = text_lines(stdout@);
    let mut i: usize = 0;
    while i < ls.len()
        invariant
            i <= ls@.len() == tl.len(),
            tl == text_lines(stdout@),
            prefix@ == "Model="@,
            forall|k: int| 0 <= k < ls@.len() ==> #[trigger] ls@[k]@ == tl[k],
            forall|j: int|
                0 <= j < i ==> !(starts_with(#[trigger] tl[j], "Model="@) && trimmed(
                    tl[j].skip(6),
                ).len() > 0),
        decreases ls.len() - i,
    {
        let line = ls[i].as_slice();
        assert(line@ == tl[i as int]);
        if has_prefix(line, prefix.as_slice()) {
            proof {
                reveal_strlit("Model=");
            }
            let rest = string_of(line, 6, line.len());
            assert(line@.subrange(6, line@.len() as int) == line@.skip(6));
            let m = trim(rest.as_str());
            if !m.as_str().is_empty() {
                assert(is_first_wmic_model_line(tl, i as int));
                return Some(m);
            }
        }
        i += 1;
    }
    proof {
        assert forall|i: int| !is_first_wmic_model_line(tl, i) by {
            if 0 <= i < tl.len() {
                assert(!(starts_with(tl[i], "Model="@) && trimmed(tl[i].skip(6)).len() > 0));
            }
        }
    }
    None
}

/// The label of a drive whose model is known: `model (E:)`.
pub fn device_label(model: &str, drive_name: &str) -> (r: String)
    ensures
        r@ == model@ + " ("@ + drive_name@ + ")"@,
{
    let mut r = String::from_str(model);
    r.append(" (");
    r.append(drive_name);
    r.append(")");
    r
}

/// The label of a drive whose model could not be found.
pub fn fallback_device_label(drive_name: &str) -> (r: String)
    ensures
        r@ == "可移动磁盘 "@ + drive_name@,
{
    concat("可移动磁盘 ", drive_name)
}

/// The model on the first `Model=` line of `wmic` output that has one.
pub open spec fn wmic_model(out: Seq<char>) -> Option<Seq<char>> {
    if exists|i: int| is_first_wmic_model_line(text_lines(out), i) {
        let i = choose|i: int| is_first_wmic_model_line(text_lines(out), i);
        Some(trimmed(text_lines(out)[i].skip(6)))
    } else {
        None
    }
}

/// There is at most one first `Model=` line.
proof fn lemma_first_wmic_line_unique(ls: Seq<Seq<char>>, i: int, j: int)
    requires
        is_first_wmic_model_line(ls, i),
        is_first_wmic_model_line(ls, j),
    ensures
        i == j,
{
    if i < j {
        assert(!(starts_with(ls[i], "Model="@) && trimmed(ls[i].skip(6)).len() > 0));
    }
    if j < i {
        assert(!(starts_with(ls[j], "Model="@) && trimmed(ls[j].skip(6)).len() > 0));
    }
}

/// The queries tried, in this order, for the model of a removable drive.
#[derive(Debug, Clone, Copy, PartialEq, Eq, Structural)]
pub enum ModelQuery {
    /// The models of all removable disks (PowerShell).
    RemovableModels,
    /// The model of the disk that holds the drive (PowerShell).
    ModelOfDrive,
    /// The models of removable media (`wmic ... /value`).
    WmicModels,
}

/// What follows a model query.
pub enum LabelStep {
    /// The label of the drive.
    Label(String),
    /// Run this query next.
    Ask(ModelQuery),
}

/// The model that `query` printed (`None`: the query failed).
pub open spec fn model_answer(query: ModelQuery, output: Option<&str>) -> Option<Seq<char>> {
    match output {
        None => None,
        Some(o) => match query {
            ModelQuery::WmicModels => wmic_model(o@),
            _ => model_from_output(o@),
        },
    }
}

/// The step after `query` for drive `drive_name` answered `output` (`None`:
/// it failed): the label `model (E:)` when the answer names a model; else
/// the next query; else, after the last one, the generic label.
pub fn label_step(query: ModelQuery, output: Option<&str>, drive_name: &str) -> (r: LabelStep)
    ensures
        match model_answer(query, output) {
            Some(m) => r matches LabelStep::Label(l) && l@ == m + " ("@ + drive_name@ + ")"@,
            None => match query {
                ModelQuery::RemovableModels => r matches LabelStep::Ask(q) && q
                    == ModelQuery::ModelOfDrive,
                ModelQuery::ModelOfDrive => r matches LabelStep::Ask(q) && q
                    == ModelQuery::WmicModels,
                ModelQuery::WmicModels => r matches LabelStep::Label(l) && l@ == "可移动磁盘 "@
                    + drive_name@,
            },
        },
{
    if let Some(out) = output {
        let model = match query {
            ModelQuery::WmicModels => {
                let m = model_from_wmic_output(out);
                proof {
                    if m is Some {
                        let mm = m->0;
                        let i = choose|i: int|
                            is_first_wmic_model_line(text_lines(out@), i) && mm@ == trimmed(
                                text_lines(out@)[i].skip(6),
                            );
                        let c = choose|c: int| is_first_wmic_model_line(text_lines(out@), c);
                        lemma_first_wmic_line_unique(text_lines(out@), i, c);
                    }
                }
                m
            },
            _ => model_from_command_output(out),
        };
        if let Some(m) = model {
            return LabelStep::Label(device_label(m.as_str(), drive_name));
        }
    }
    match query {
        ModelQuery::RemovableModels => LabelStep::Ask(ModelQuery::ModelOfDrive),
        ModelQuery::ModelOfDrive => LabelStep::Ask(ModelQuery::WmicModels),
        ModelQuery::WmicModels => LabelStep::Label(fallback_device_label(drive_name)),
    }
}

/// Windows' drive type of removable drives (`DRIVE_REMOVABLE`).
pub const DRIVE_REMOVABLE: u32 = 2;

/// Whether a drive of Windows drive type `drive_type` is removable; only
/// those are offered as install targets.
pub fn is_removable_drive_type(drive_type: u32) -> (r: bool)
    ensures
        r == (drive_type == DRIVE_REMOVABLE),
{
    drive_type == DRIVE_REMOVABLE
}

/// The removable drive of letter `c`, of `size` bytes, shown as `label`.
pub fn windows_usb_device(c: char, size: u64, label: String) -> (r: UsbDevice)
    ensures
        r.device_path@ == raw_drive_path(c),
        r.drive_letter matches Some(l) && l@ == seq![c] + ":"@,
        r.size == size,
        r.model == label,
        r.is_removable,
{
    UsbDevice {
        device_path: raw_drive_path_of(c),
        drive_letter: Some(drive_name_of(c)),
        size,
        model: label,
        is_removable: true,
    }
}

// ---------------------------------------------------------------------------
// Linux
// ---------------------------------------------------------------------------

/// One block device as `lsblk -J` lists it (absent or `null` fields are
/// `None`).
#[derive(Debug, Clone)]
pub struct LsblkDevice {
    pub name: Option<String>,
    pub size: Option<String>,
    pub tran: Option<String>,
    pub model: Option<String>,
}

/// A USB block device found in `lsblk` output, before its size text is
/// turned into bytes.
#[derive(Debug, Clone)]
pub struct LsblkUsbDrive {
    pub device_path: String,
    pub size_text: String,
    pub model: String,
}

/// `d` is attached over USB and has a name.
pub open spec fn is_usb_block_device(d: LsblkDevice) -> bool {
    &&& d.tran matches Some(t) && t@ == "usb"@
    &&& d.name is Some
}

/// The USB drive that an `lsblk` entry describes, if it is one: its device
/// node under `/dev`, its size text (`"0"` when absent) and its model
/// (`"Unknown"` when absent).
pub fn lsblk_usb_drive(d: &LsblkDevice) -> (r: Option<LsblkUsbDrive>)
    ensures
        is_usb_block_device(*d) <==> r is Some,
        r matches Some(u) ==> {
            &&& u.device_path@ == "/dev/"@ + d.name->0@
            &&& u.size_text@ == match d.size {
                Some(s) => s@,
                None => "0"@,
            }
            &&& u.model@ == match d.model {
                Some(m) => m@,
                None => "Unknown"@,
            }
        },
{
    match (&d.tran, &d.name) {
        (Some(t), Some(name)) => {
            if !str_eq(t.as_str(), "usb") {
                return None;
            }
            Some(
                LsblkUsbDrive {
                    device_path: concat("/dev/", name.as_str()),
                    size_text: match &d.size {
                        Some(s) => s.clone(),
                        None => String::from_str("0"),
                    },
                    model: match &d.model {
                        Some(m) => m.clone(),
                        None => String::from_str("Unknown"),
                    },
                },
            )
        },
        _ => None,
    }
}

/// The number part and the unit part of an `lsblk` size such as `14.9G`:
/// the leading run of digits and dots of the trimmed text, and the rest.
pub open spec fn size_number_len(s: Seq<char>) -> int {
    choose|k: int| is_number_len(s, k)
}

/// `s[..k]` is the leading run of digits and dots of `s`.
pub open spec fn is_number_len(s: Seq<char>, k: int) -> bool {
    &&& 0 <= k <= s.len()
    &&& forall|i: int| 0 <= i < k ==> is_ascii_digit(#[trigger] s[i]) || s[i] == '.'
    &&& k == s.len() || !(is_ascii_digit(s[k]) || s[k] == '.')
}

/// The factor that a size unit stands for: `B` 1, `K`/`KB` 1024, `M`/`MB`,
/// `G`/`GB` and `T`/`TB` the next powers of 1024, letters taken in either
/// case; any other unit counts as bytes.
pub open spec fn unit_factor(unit: Seq<char>) -> u64 {
    let u = ascii_upper_all(unit);
    if u == "K"@ || u == "KB"@ {
        1024
    } else if u == "M"@ || u == "MB"@ {
        1048576
    } else if u == "G"@ || u == "GB"@ {
        1073741824
    } else if u == "T"@ || u == "TB"@ {
        1099511627776
    } else {
        1
    }
}

/// The factors of the size units: a unit letter, in either case, and the
/// same letter followed by `B` or `b` have the same factor; `K`, `M`, `G` and
/// `T` are 1024, 1024^2, 1024^3 and 1024^4, each unit 1024 times the one
/// before it.
pub proof fn lemma_unit_factors(c: char)
    ensures
        unit_factor(seq![c]) == unit_factor(seq![c, 'B']),
        unit_factor(seq![c]) == unit_factor(seq![c, 'b']),
        unit_factor(seq![c]) == unit_factor(seq![ascii_upper(c)]),
        unit_factor(seq!['K']) == 1024,
        unit_factor(seq!['M']) == 1024 * unit_factor(seq!['K']),
        unit_factor(seq!['G']) == 1024 * unit_factor(seq!['M']),
        unit_factor(seq!['T']) == 1024 * unit_factor(seq!['G']),
        unit_factor(seq!['T']) == 1024 * 1024 * 1024 * 1024,
{
    reveal_strlit("K");
    assert("K"@.len() == 1);
    assert("K"@[0] == 'K');
    reveal_strlit("KB");
    assert("KB"@.len() == 2);
    assert("KB"@[0] == 'K');
    assert("KB"@[1] == 'B');
    reveal_strlit("M");
    assert("M"@.len() == 1);
    assert("M"@[0] == 'M');
    reveal_strlit("MB");
    assert("MB"@.len() == 2);
    assert("MB"@[0] == 'M');
    assert("MB"@[1] == 'B');
    reveal_strlit("G");
    assert("G"@.len() == 1);
    assert("G"@[0] == 'G');
    reveal_strlit("GB");
    assert("GB"@.len() == 2);
    assert("GB"@[0] == 'G');
    assert("GB"@[1] == 'B');
    reveal_strlit("T");
    assert("T"@.len() == 1);
    assert("T"@[0] == 'T');
    reveal_strlit("TB");
    assert("TB"@.len() == 2);
    assert("TB"@[0] == 'T');
    assert("TB"@[1] == 'B');
    let u = ascii_upper(c);
    assert(ascii_upper_all(seq![c]) =~= seq![u]);
    assert(ascii_upper_all(seq![c, 'B']) =~= seq![u, 'B']);
    assert(ascii_upper_all(seq![c, 'b']) =~= seq![u, 'B']);
    assert(ascii_upper(u) == u);
    assert(ascii_upper_all(seq![u]) =~= seq![u]);
    let one = seq![u];
    let two = seq![u, 'B'];
    assert(one[0] == u && two[0] == u && two[1] == 'B');
    if u == 'K' {
        assert(one =~= "K"@ && two =~= "KB"@);
    } else if u == 'M' {
        assert(one =~= "M"@ && two =~= "MB"@);
    } else if u == 'G' {
        assert(one =~= "G"@ && two =~= "GB"@);
    } else if u == 'T' {
        assert(one =~= "T"@ && two =~= "TB"@);
    }
    assert(ascii_upper_all(seq!['K']) =~= seq!['K']);
    assert(ascii_upper_all(seq!['M']) =~= seq!['M']);
    assert(ascii_upper_all(seq!['G']) =~= seq!['G']);
    assert(ascii_upper_all(seq!['T']) =~= seq!['T']);
    assert(seq!['K'] =~= "K"@);
    assert(seq!['M'] =~= "M"@);
    assert(seq!['G'] =~= "G"@);
    assert(seq!['T'] =~= "T"@);
}

/// An `lsblk` size split into its number text and the factor of its unit.
#[derive(Debug, Clone)]
pub struct SizeText {
    pub number: String,
    pub factor: u64,
}

/// Splits an `lsblk` size such as ` 14.9G ` into the number text `14.9`
/// and the factor of its unit (1024^3); the bytes are the number times the
/// factor, rounded down.
pub fn split_size_text(size_str: &str) -> (r: SizeText)
    ensures
        ({
            let s = trimmed(size_str@);
            let k = size_number_len(s);
            &&& r.number@ == s.subrange(0, k)
            &&& r.factor == unit_factor(s.subrange(k, s.len() as int))
        }),
{
    let all = chars_of(size_str);
    let (a, b) = trim_range(all.as_slice());
    let cs = all.as_slice();
    let ghost s = trimmed(size_str@);
    assert(s == all@.subrange(a as int, b as int));
    let mut k = a;
    while k < b && (('0' <= cs[k] && cs[k] <= '9') || cs[k] == '.')
        invariant
            a <= k <= b <= cs@.len(),
            s == cs@.subrange(a as int, b as int),
            forall|i: int| a <= i < k ==> is_ascii_digit(#[trigger] cs@[i]) || cs@[i] == '.',
        decreases b - k,
    {
        k += 1;
    }
    let ghost kk = (k - a) as int;
    proof {
        assert(0 <= kk <= s.len());
        assert forall|i: int| 0 <= i < kk implies is_ascii_digit(#[trigger] s[i]) || s[i] == '.' by {
            assert(s[i] == cs@[a + i]);
        }
        assert(kk == s.len() || !(is_ascii_digit(s[kk]) || s[kk] == '.'));
        assert(is_number_len(s, kk));
        let k2 = size_number_len(s);
        if k2 < kk {
            assert(is_ascii_digit(s[k2]) || s[k2] == '.');
        }
        if kk < k2 {
            assert(is_ascii_digit(s[kk]) || s[kk] == '.');
        }
        assert(k2 == kk);
    }
    let number = string_of(cs, a, k);
    assert(number@ == s.subrange(0, kk));
    let mut unit: Vec<char> = Vec::new();
    let mut j = k;
    while j < b
        invariant
            k <= j <= b <= cs@.len(),
            unit@ == ascii_upper_all(cs@.subrange(k as int, j as int)),
        decreases b - j,
    {
        unit.push(char_to_ascii_uppercase(cs[j]));
        assert(cs@.subrange(k as int, j + 1) == cs@.subrange(k as int, j as int).push(cs@[j as int]));
        j += 1;
    }
    assert(s.subrange(kk, s.len() as int) == cs@.subrange(k as int, b as int));
    let u = unit.as_slice();
    let factor: u64 = if eq_chars(u, "K") || eq_chars(u, "KB") {
        1024
    } else if eq_chars(u, "M") || eq_chars(u, "MB") {
        1024 * 1024
    } else if eq_chars(u, "G") || eq_chars(u, "GB") {
        1024 * 1024 * 1024
    } else if eq_chars(u, "T") || eq_chars(u, "TB") {
        1024 * 1024 * 1024 * 1024
    } else {
        1
    };
    SizeText { number, factor }
}

/// Whether `cs` holds exactly the characters of `s`.
fn eq_chars(cs: &[char], s: &str) -> (r: bool)
    ensures
        r == (cs@ == s@),
{
    let t = chars_of(s);
    if t.len() != cs.len() {
        return false;
    }
    let r = matches_at(cs, t.as_slice(), 0);
    assert(r ==> cs@.subrange(0, t@.len() as int) == t@);
    assert(cs@.subrange(0, cs@.len() as int) == cs@);
    r
}

// ---------------------------------------------------------------------------
// macOS
// ---------------------------------------------------------------------------

/// The first whitespace-separated word of `l` when `l` does not start with
/// white space.
pub open spec fn first_word_len(l: Seq<char>) -> int {
    choose|k: int| is_first_word_len(l, k)
}

/// `l[..k]` is the leading run of non-white-space characters of `l`.
pub open spec fn is_first_word_len(l: Seq<char>, k: int) -> bool {
    &&& 0 <= k <= l.len()
    &&& forall|i: int| 0 <= i < k ==> !is_space(#[trigger] l[i])
    &&& k == l.len() || is_space(l[k])
}

/// The device nodes that `diskutil list -external physical` lists: the
/// first word of every line that starts with `/dev/disk`, in order.
pub open spec fn listed_disks(ls: Seq<Seq<char>>) -> Seq<Seq<char>>
    decreases ls.len(),
{
    if ls.len() == 0 {
        seq![]
    } else {
        let rest = listed_disks(ls.drop_last());
        let l = ls.last();
        if starts_with(l, "/dev/disk"@) {
            rest.push(l.subrange(0, first_word_len(l)))
        } else {
            rest
        }
    }
}

/// The device nodes of external physical disks that `diskutil list` printed.
pub fn macos_disk_paths(list_output: &str) -> (r: Vec<String>)
    ensures
        r@.len() == listed_disks(text_lines(list_output@)).len(),
        forall|i: int|
            0 <= i < r@.len() ==> #[trigger] r@[i]@ == listed_disks(text_lines(list_output@))[i],
{
    let cs = chars_of(list_output);
    let prefix = chars_of("/dev/disk");
    let ls = lines(cs.as_slice());
    let ghost tl = text_lines(list_output@);
    let mut r: Vec<String> = Vec::new();
    let mut i: usize = 0;
    while i < ls.len()
        invariant
            i <= ls@.len() == tl.len(),
            tl == text_lines(list_output@),
            prefix@ == "/dev/disk"@,
            forall|k: int| 0 <= k < ls@.len() ==> #[trigger] ls@[k]@ == tl[k],
            r@.len() == listed_disks(tl.take(i as int)).len(),
            forall|k: int|
                0 <= k < r@.len() ==> #[trigger] r@[k]@ == listed_disks(tl.take(i as int))[k],
        decreases ls.len() - i,
    {
        let line = ls[i].as_slice();
        assert(line@ == tl[i as int]);
        assert(tl.take(i + 1).drop_last() == tl.take(i as int));
        if has_prefix(line, prefix.as_slice()) {
            let mut k: usize = 0;
            while k < line.len() && !char_is_space(line[k])
                invariant
                    k <= line@.len(),
                    forall|j: int| 0 <= j < k ==> !is_space(#[trigger] line@[j]),
                decreases line.len() - k,
            {
                k += 1;
            }
            proof {
                let k2 = first_word_len(line@);
                assert(is_first_word_len(line@, k as int));
                if k2 < k {
                    assert(!is_space(line@[k2]));
                }
                if (k as int) < k2 {
                    assert(!is_space(line@[k as int]));
                }
            }
            r.push(string_of(line, 0, k));
        }
        i += 1;
    }
    assert(tl.take(tl.len() as int) == tl);
    r
}

/// The size that `diskutil info -plist` reports: the integer between
/// `<integer>` and `</integer>` on the first line mentioning `TotalSize`
/// that holds both tags, or 0 when there is none or it is not a number.
pub open spec fn macos_disk_size(info: Seq<char>) -> u64 {
    match tagged_value_of(info, "TotalSize"@, "<integer>"@, "</integer>"@) {
        Some(v) => match parse_unsigned(v, u64::MAX as int) {
            Some(n) => n as u64,
            None => 0,
        },
        None => 0,
    }
}

/// Whether the `TotalSize` line of `diskutil info -plist` output can be
/// read (its `</integer>` does not come before its `<integer>` ends).
pub fn macos_size_line_readable(info: &str) -> (r: bool)
    ensures
        r == first_tagged_in_order(info@, "TotalSize"@, "<integer>"@, "</integer>"@),
{
    tags_well_ordered(info, "TotalSize", "<integer>", "</integer>")
}

/// The disk size, in bytes, that `diskutil info -plist` reports.
pub fn parse_macos_disk_size(info: &str) -> (r: u64)
    requires
        first_tagged_in_order(info@, "TotalSize"@, "<integer>"@, "</integer>"@),
    ensures
        r == macos_disk_size(info@),
{
    match tagged_value(info, "TotalSize", "<integer>", "</integer>") {
        Some(v) => match parse_unsigned_chars(v.as_slice(), u64::MAX) {
            Some(n) => n,
            None => 0,
        },
        None => 0,
    }
}

/// The external disk at `path`, of `size` bytes.
pub fn macos_usb_device(path: &str, size: u64) -> (r: UsbDevice)
    ensures
        r.device_path@ == path@,
        r.drive_letter is None,
        r.size == size,
        r.model@ == "External Disk "@ + path@,
        r.is_removable,
{
    UsbDevice {
        device_path: String::from_str(path),
        drive_letter: None,
        size,
        model: concat("External Disk ", path),
        is_removable: true,
    }
}

/// The space free to an unprivileged user on a file system, from the
/// `statvfs` fields: available blocks times the fragment size.
pub fn available_bytes(blocks_available: u64, fragment_size: u64) -> (r: u64)
    requires
        blocks_available * fragment_size <= u64::MAX,
    ensures
        r == blocks_available * fragment_size,
{
    blocks_available * fragment_size
}

/// The USB drive at `path` found by `lsblk`, of `size` bytes.
pub fn linux_usb_device(drive: LsblkUsbDrive, size: u64) -> (r: UsbDevice)
    ensures
        r.device_path == drive.device_path,
        r.drive_letter is None,
        r.size == size,
        r.model == drive.model,
        r.is_removable,
{
    UsbDevice {
        device_path: drive.device_path,
        drive_letter: None,
        size,
        model: drive.model,
        is_removable: true,
    }
}

} // verus!
