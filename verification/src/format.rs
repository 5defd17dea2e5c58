//! Preparing a USB drive: the volume label, the commands and scripts that
//! repartition and format the drive, the reading of what those tools
//! report, and where copied files land.
use vstd::prelude::*;
use vstd::string::StringSliceAdditionalSpecFns;
use vstd::utf8::{decode_utf8, valid_utf8};

use base64::Engine;

use crate::text::{
    ascii_upper_all, char_to_ascii_uppercase, chars_of, concat, decimal, ends_with,
    first_tagged_in_order, has_prefix, has_suffix, parse_signed, parse_signed_chars,
    parse_unsigned, parse_unsigned_chars, push_char, push_chars, push_decimal, starts_with,
    string_of, tagged_value, tagged_value_of, tags_well_ordered, trim_end_char, trim_end_len, trim_range,
    trimmed,
};

verus! {

broadcast use vstd::string::group_string_axioms;

// ---------------------------------------------------------------------------
// Volume label
// ---------------------------------------------------------------------------

/// The volume label, base64-encoded.
pub const VOLUME_LABEL_B64: &'static str = "U0VHQV9JTlM=";

#[verifier::external_type_specification]
#[verifier::external_body]
pub struct ExDecodeError(base64::DecodeError);

/// What the standard base64 engine (`+`, `/`, `=` padding) decodes `input`
/// to, or `None` when it rejects the input.
pub uninterp spec fn base64_standard_decoding(input: Seq<u8>) -> Option<Seq<u8>>;

/// `base64::engine::general_purpose::STANDARD.decode`: the decoded bytes,
/// or an error exactly when the engine rejects the input. What the decoded
/// bytes are is the name `base64_standard_decoding`; nothing more is stated.
#[verifier::external_body]
fn base64_decode_standard(input: &[u8]) -> (r: Result<Vec<u8>, base64::DecodeError>)
    ensures
        r is Ok <==> base64_standard_decoding(input@) is Some,
        r matches Ok(v) ==> base64_standard_decoding(input@) == Some(v@),
{
    base64::engine::general_purpose::STANDARD.decode(input)
}

/// `String::from_utf8_lossy(..).to_string()`: valid UTF-8 is decoded as it
/// is. For invalid input the replacement of bad sequences by U+FFFD is not
/// stated.
#[verifier::external_body]
fn utf8_lossy(bytes: &[u8]) -> (r: String)
    ensures
        valid_utf8(bytes@) ==> r@ == decode_utf8(bytes@),
{
    String::from_utf8_lossy(bytes).to_string()
}

/// The text of the volume label: the decoded bytes of `VOLUME_LABEL_B64`,
/// read as UTF-8; `None` when the constant cannot be decoded.
pub fn volume_label() -> (r: Option<String>)
    ensures
        match r {
            Some(l) => base64_standard_decoding(VOLUME_LABEL_B64.spec_bytes()) matches Some(b) && (
            valid_utf8(b) ==> l@ == decode_utf8(b)),
            None => base64_standard_decoding(VOLUME_LABEL_B64.spec_bytes()) is None,
        },
{
    match base64_decode_standard(VOLUME_LABEL_B64.as_bytes()) {
        Ok(bytes) => Some(utf8_lossy(bytes.as_slice())),
        Err(_) => None,
    }
}

/// Formats USB drives as exFAT with the installer's volume label.
pub struct DiskFormatter;

impl DiskFormatter {
    pub fn new() -> (r: Self) {
        DiskFormatter
    }
}

// ---------------------------------------------------------------------------
// Windows
// ---------------------------------------------------------------------------

/// The drive the formatted drive is given: the requested one (`Q:` when
/// none is requested), with a `:` added when it lacks one.
pub open spec fn target_drive(requested: Option<Seq<char>>) -> Seq<char> {
    let t = match requested {
        Some(d) => d,
        None => "Q:"@,
    };
    if ends_with(t, ":"@) {
        t
    } else {
        t + ":"@
    }
}

/// The drive the formatted drive is given.
pub fn windows_target_drive(requested: Option<&str>) -> (r: String)
    ensures
        r@ == target_drive(
            match requested {
                Some(d) => Some(d@),
                None => None,
            },
        ),
{
    let t = match requested {
        Some(d) => d,
        None => "Q:",
    };
    if has_suffix(chars_of(t).as_slice(), chars_of(":").as_slice()) {
        String::from_str(t)
    } else {
        concat(t, ":")
    }
}

/// The letter that `assign letter=` gets: the target drive without its
/// trailing colons, in ASCII upper case.
pub open spec fn target_letter(target: Seq<char>) -> Seq<char> {
    ascii_upper_all(trim_end_char(target, ':'))
}

/// The letter that `assign letter=` gets.
pub fn target_letter_of(target: &str) -> (r: String)
    ensures
        r@ == target_letter(target@),
{
    let cs = chars_of(target);
    let end = trim_end_len(cs.as_slice(), ':');
    let mut r = String::new();
    let mut i: usize = 0;
    while i < end
        invariant
            i <= end <= cs@.len(),
            r@ == ascii_upper_all(cs@.subrange(0, i as int)),
        decreases end - i,
    {
        push_char(&mut r, char_to_ascii_uppercase(cs[i]));
        assert(cs@.subrange(0, i + 1) == cs@.subrange(0, i as int).push(cs@[i as int]));
        i += 1;
    }
    r
}

/// The drive letter a device path names: the fifth character of a raw
/// path `\\.\E:`, the first character of any other path, `C` when the path
/// is too short.
pub open spec fn device_path_letter(path: Seq<char>) -> char {
    if starts_with(path, "\\\\.\\"@) {
        if path.len() > 4 {
            path[4]
        } else {
            'C'
        }
    } else if path.len() > 0 {
        path[0]
    } else {
        'C'
    }
}

/// The drive letter a device path names.
pub fn device_drive_letter(device_path: &str) -> (r: char)
    ensures
        r == device_path_letter(device_path@),
{
    let cs = chars_of(device_path);
    if has_prefix(cs.as_slice(), chars_of("\\\\.\\").as_slice()) {
        if cs.len() > 4 {
            cs[4]
        } else {
            'C'
        }
    } else if cs.len() > 0 {
        cs[0]
    } else {
        'C'
    }
}

/// The PowerShell query that prints the disk number of the partition with
/// drive letter `l` (already upper case), or -1.
pub open spec fn disk_number_query(l: char) -> Seq<char> {
    "$vol = Get-Volume -DriveLetter '"@ + seq![l]
        + "'; $part = Get-Partition | Where-Object { $_.AccessPaths -like '*"@ + seq![l]
        + ":*' }; if ($part) { $part.DiskNumber } else { -1 }"@
}

/// The PowerShell query for the disk number of drive `letter`.
pub fn disk_number_query_for(letter: char) -> (r: String)
    ensures
        r@ == disk_number_query(crate::text::ascii_upper(letter)),
{
    let l = char_to_ascii_uppercase(letter);
    let mut r = String::from_str("$vol = Get-Volume -DriveLetter '");
    push_char(&mut r, l);
    r.append("'; $part = Get-Partition | Where-Object { $_.AccessPaths -like '*");
    push_char(&mut r, l);
    r.append(":*' }; if ($part) { $part.DiskNumber } else { -1 }");
    r
}

/// The second PowerShell query for the disk number of drive letter `l`
/// (already upper case).
pub open spec fn disk_number_fallback_query(l: char) -> Seq<char> {
    "(Get-Partition | Where-Object { $_.DriveLetter -eq '"@ + seq![l] + "' }).DiskNumber"@
}

/// The second PowerShell query for the disk number of drive `letter`.
pub fn disk_number_fallback_query_for(letter: char) -> (r: String)
    ensures
        r@ == disk_number_fallback_query(crate::text::ascii_upper(letter)),
{
    let l = char_to_ascii_uppercase(letter);
    let mut r = String::from_str("(Get-Partition | Where-Object { $_.DriveLetter -eq '");
    push_char(&mut r, l);
    r.append("' }).DiskNumber");
    r
}

/// The disk number that the first query printed: its trimmed output read
/// as an `i32`, when that is not negative.
pub open spec fn disk_number_from_query(out: Seq<char>) -> Option<u32> {
    match parse_signed(trimmed(out), i32::MIN as int, i32::MAX as int) {
        Some(n) => if n >= 0 {
            Some(n as u32)
        } else {
            None
        },
        None => None,
    }
}

/// The disk number that the first query printed, if any.
pub fn parse_disk_number(stdout: &str) -> (r: Option<u32>)
    ensures
        r == disk_number_from_query(stdout@),
{
    let cs = chars_of(stdout);
    let (a, b) = trim_range(cs.as_slice());
    let t = string_of(cs.as_slice(), a, b);
    let tc = chars_of(t.as_str());
    match parse_signed_chars(tc.as_slice(), 0x8000_0000, 0x7fff_ffff) {
        Some(n) => {
            if n >= 0 {
                Some(n as u32)
            } else {
                None
            }
        },
        None => None,
    }
}

/// The disk number that the second query printed: its trimmed output read
/// as a `u32`.
pub open spec fn disk_number_from_fallback(out: Seq<char>) -> Option<u32> {
    match parse_unsigned(trimmed(out), u32::MAX as int) {
        Some(n) => Some(n as u32),
        None => None,
    }
}

/// The disk number that the second query printed, if any.
pub fn parse_disk_number_fallback(stdout: &str) -> (r: Option<u32>)
    ensures
        r == disk_number_from_fallback(stdout@),
{
    let cs = chars_of(stdout);
    let (a, b) = trim_range(cs.as_slice());
    let t = string_of(cs.as_slice(), a, b);
    let tc = chars_of(t.as_str());
    match parse_unsigned_chars(tc.as_slice(), 0xffff_ffff) {
        Some(n) => Some(n as u32),
        None => None,
    }
}

/// The two PowerShell queries for a disk number, tried in this order.
#[derive(Debug, Clone, Copy, PartialEq, Eq, Structural)]
pub enum DiskNumberQuery {
    /// `disk_number_query_for`, read with `parse_disk_number`.
    Primary,
    /// `disk_number_fallback_query_for`, read with
    /// `parse_disk_number_fallback`.
    Fallback,
}

/// What follows a disk-number query.
pub enum DiskNumberStep {
    /// The disk number was found.
    Found(u32),
    /// Run this query next.
    Ask(DiskNumberQuery),
    /// Every query failed: the error to report.
    Fail(String),
}

/// The disk number that `query` printed, when it succeeded.
pub open spec fn disk_number_answer(query: DiskNumberQuery, success: bool, out: Seq<char>) -> Option<
    u32,
> {
    if !success {
        None
    } else {
        match query {
            DiskNumberQuery::Primary => disk_number_from_query(out),
            DiskNumberQuery::Fallback => disk_number_from_fallback(out),
        }
    }
}

/// The step after `query` for drive `letter` ran (`success`: it exited
/// successfully) and printed `stdout`: the number it printed; else the
/// second query after the first; else the error that no query gave one.
pub fn disk_number_step(query: DiskNumberQuery, letter: char, success: bool, stdout: &str) -> (r:
    DiskNumberStep)
    ensures
        match disk_number_answer(query, success, stdout@) {
            Some(n) => r matches DiskNumberStep::Found(m) && m == n,
            None => match query {
                DiskNumberQuery::Primary => r matches DiskNumberStep::Ask(q) && q
                    == DiskNumberQuery::Fallback,
                DiskNumberQuery::Fallback => r matches DiskNumberStep::Fail(e) && e@
                    == "无法通过PowerShell获取磁盘号，驱动器字母: "@ + seq![letter],
            },
        },
{
    if success {
        let n = match query {
            DiskNumberQuery::Primary => parse_disk_number(stdout),
            DiskNumberQuery::Fallback => parse_disk_number_fallback(stdout),
        };
        if let Some(n) = n {
            return DiskNumberStep::Found(n);
        }
    }
    match query {
        DiskNumberQuery::Primary => DiskNumberStep::Ask(DiskNumberQuery::Fallback),
        DiskNumberQuery::Fallback => {
            let mut e = String::from_str("无法通过PowerShell获取磁盘号，驱动器字母: ");
            push_char(&mut e, letter);
            DiskNumberStep::Fail(e)
        },
    }
}

/// The diskpart script that wipes disk `disk`, makes one primary exFAT
/// partition labelled `label` and gives it drive letter `letter`.
pub open spec fn diskpart_script(disk: u32, label: Seq<char>, letter: Seq<char>) -> Seq<char> {
    "select disk "@ + decimal(disk as nat) + "\nclean\ncreate partition primary\nformat fs=exfat quick label="@
        + label + "\nassign letter="@ + letter + "\nexit"@
}

/// The diskpart script for disk `disk`.
pub fn diskpart_script_for(disk: u32, label: &str, letter: &str) -> (r: String)
    ensures
        r@ == diskpart_script(disk, label@, letter@),
{
    let mut r = String::from_str("select disk ");
    push_decimal(&mut r, disk as u64);
    r.append("\nclean\ncreate partition primary\nformat fs=exfat quick label=");
    r.append(label);
    r.append("\nassign letter=");
    r.append(letter);
    r.append("\nexit");
    r
}

/// The root directory of the target drive, whose presence shows that the
/// format worked.
pub fn target_root(target: &str) -> (r: String)
    ensures
        r@ == target@ + "\\"@,
{
    concat(target, "\\")
}

// ---------------------------------------------------------------------------
// Linux
// ---------------------------------------------------------------------------

/// Where the formatted partition is mounted.
pub const LINUX_MOUNT_POINT: &'static str = "/mnt/zundalink";

/// The first partition of the block device `device`.
pub fn first_partition_path(device: &str) -> (r: String)
    ensures
        r@ == device@ + "1"@,
{
    concat(device, "1")
}

// ---------------------------------------------------------------------------
// macOS
// ---------------------------------------------------------------------------

/// The mount point that `diskutil info -plist` reports: what lies between
/// `<string>` and `</string>` on the first line mentioning `MountPoint`
/// that holds both.
pub open spec fn mount_point_of(info: Seq<char>) -> Option<Seq<char>> {
    tagged_value_of(info, "MountPoint"@, "<string>"@, "</string>"@)
}

/// Whether the `MountPoint` line of `diskutil info -plist` output can be
/// read (its `</string>` does not come before its `<string>` ends).
pub fn mount_point_line_readable(info: &str) -> (r: bool)
    ensures
        r == first_tagged_in_order(info@, "MountPoint"@, "<string>"@, "</string>"@),
{
    tags_well_ordered(info, "MountPoint", "<string>", "</string>")
}

/// The mount point that `diskutil info -plist` reports, if any.
pub fn extract_mount_point(info: &str) -> (r: Option<String>)
    requires
        first_tagged_in_order(info@, "MountPoint"@, "<string>"@, "</string>"@),
    ensures
        match r {
            Some(m) => mount_point_of(info@) == Some(m@),
            None => mount_point_of(info@) is None,
        },
{
    match tagged_value(info, "MountPoint", "<string>", "</string>") {
        Some(v) => Some(string_of(v.as_slice(), 0, v.len())),
        None => None,
    }
}

/// Where the formatted disk can be reached: its mount point, or the device
/// itself when `diskutil` reports none.
pub fn macos_install_target(info: &str, device_path: &str) -> (r: String)
    requires
        first_tagged_in_order(info@, "MountPoint"@, "<string>"@, "</string>"@),
    ensures
        r@ == match mount_point_of(info@) {
            Some(m) => m,
            None => device_path@,
        },
{
    match extract_mount_point(info) {
        Some(m) => m,
        None => String::from_str(device_path),
    }
}

// ---------------------------------------------------------------------------
// Copying
// ---------------------------------------------------------------------------

/// How far the copy of one file has come.
#[derive(Debug, Clone)]
pub struct CopyProgress {
    pub filename: String,
    pub copied: u64,
    pub total: u64,
}

/// Where file `name` is copied to on drive `target`: the drive without
/// trailing backslashes, a backslash, the name.
pub open spec fn copy_target(target: Seq<char>, name: Seq<char>) -> Seq<char> {
    trim_end_char(target, '\\') + "\\"@ + name
}

/// Where file `name` is copied to on drive `target`.
pub fn copy_target_path(target: &str, name: &str) -> (r: String)
    ensures
        r@ == copy_target(target@, name@),
{
    let cs = chars_of(target);
    let end = trim_end_len(cs.as_slice(), '\\');
    let mut r = string_of(cs.as_slice(), 0, end);
    r.append("\\");
    r.append(name);
    r
}

/// The progress reported after another `read` bytes of `name` were copied.
pub fn copy_progress_after(name: &str, copied: u64, read: u64, total: u64) -> (r: CopyProgress)
    requires
        copied + read <= u64::MAX,
    ensures
        r.filename@ == name@,
        r.copied == copied + read,
        r.total == total,
{
    CopyProgress { filename: String::from_str(name), copied: copied + read, total }
}

} // verus!
