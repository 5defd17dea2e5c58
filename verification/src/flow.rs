//! The installer's screen flow: which screen is shown, what the user has
//! chosen, the progress of downloads and copies, and what background work
//! each user action or finished task starts. The window and the tasks
//! themselves are run by the caller, which reports back what happened.
use vstd::prelude::*;

use crate::config::{InstallFile, InstallerConfig, VersionInfo, total_size};
use crate::download::{DownloadProgress, DownloadStatus};
use crate::format::CopyProgress;
use crate::text::{
    ascii_upper_all, char_to_ascii_uppercase, chars_of, concat, contains, find, push_char,
    str_eq, trim_end_char, trim_end_len,
};
use crate::usb::{UsbDevice, copy_device};

verus! {

broadcast use vstd::string::group_string_axioms;

/// The screen the installer shows.
#[derive(Debug, Clone)]
pub enum AppState {
    Loading,
    VersionSelection,
    UsbSelection,
    Downloading,
    FormatConfirmation,
    Formatting,
    Copying,
    Completed,
    Error(String),
}

/// Background work that the caller starts on behalf of the flow.
pub enum FlowAction {
    /// Fetch the installer configuration; report with `config_loaded`.
    LoadConfig,
    /// Look for USB drives; report with `usb_detection_finished`.
    DetectUsb,
    /// Fetch `files` into `temp_dir`, reporting progress with
    /// `progress_received`.
    StartDownload { files: Vec<InstallFile>, temp_dir: String },
    /// Tell the running check of the current file to stop and count as
    /// passed.
    SkipVerification,
    /// Format the drive at `device_path` (or, for `Err`, report that error
    /// at once); report with `format_copy_finished`.
    StartFormat { device_path: Result<String, String> },
    /// Copy `files` to the formatted drive (or, for `Err`, report that
    /// error at once); report with `copy_progress_received` and
    /// `format_copy_finished`.
    StartCopy { files: Result<Vec<String>, String> },
}

/// The state of the installer's screens.
pub struct InstallerFlow {
    pub state: AppState,
    pub config: Option<InstallerConfig>,
    pub selected_version: Option<VersionInfo>,
    pub usb_devices: Vec<UsbDevice>,
    pub selected_usb: Option<UsbDevice>,
    pub manual_drive_letter: String,
    pub download_progress: Vec<DownloadProgress>,
    pub error_message: Option<String>,
    pub show_format_warning: bool,
    pub format_confirmed: bool,
    pub download_started: bool,
    pub format_copy_status: String,
    pub copy_progress: Vec<CopyProgress>,
    pub current_copy_file: String,
    pub temp_dir: String,
    pub show_disk_space_warning: bool,
    pub required_space: u64,
    pub available_space: u64,
    pub show_skip_verify_dialog: bool,
    pub verifying_filename: Option<String>,
    /// A configuration fetch is under way.
    pub awaiting_config: bool,
    /// A USB drive search is under way.
    pub awaiting_usb: bool,
    /// A format or copy is under way.
    pub awaiting_format_copy: bool,
    /// Download progress reports are being received.
    pub receiving_progress: bool,
    /// Copy progress reports are being received.
    pub receiving_copy_progress: bool,
    /// A running download can be told to skip its check.
    pub can_skip_verification: bool,
}

// ---------------------------------------------------------------------------
// Progress lists
// ---------------------------------------------------------------------------

/// `i` is the first entry of `list` for file `name`.
pub open spec fn is_first_progress_for(list: Seq<DownloadProgress>, name: Seq<char>, i: int) -> bool {
    &&& 0 <= i < list.len()
    &&& list[i].filename@ == name
    &&& forall|j: int| 0 <= j < i ==> (#[trigger] list[j]).filename@ != name
}

/// `list` has an entry for file `name`.
pub open spec fn has_progress_for(list: Seq<DownloadProgress>, name: Seq<char>) -> bool {
    exists|i: int| 0 <= i < list.len() && (#[trigger] list[i]).filename@ == name
}

/// `list` after report `p`: the first entry for the same file is replaced
/// by `p`; a report for a new file is added at the end.
pub open spec fn upsert_progress(list: Seq<DownloadProgress>, p: DownloadProgress) -> Seq<
    DownloadProgress,
> {
    if has_progress_for(list, p.filename@) {
        let i = choose|i: int| is_first_progress_for(list, p.filename@, i);
        list.update(i, p)
    } else {
        list.push(p)
    }
}

/// The same for copy progress: `i` is the first entry for file `name`.
pub open spec fn is_first_copy_for(list: Seq<CopyProgress>, name: Seq<char>, i: int) -> bool {
    &&& 0 <= i < list.len()
    &&& list[i].filename@ == name
    &&& forall|j: int| 0 <= j < i ==> (#[trigger] list[j]).filename@ != name
}

pub open spec fn has_copy_for(list: Seq<CopyProgress>, name: Seq<char>) -> bool {
    exists|i: int| 0 <= i < list.len() && (#[trigger] list[i]).filename@ == name
}

/// `list` after copy report `p`.
pub open spec fn upsert_copy(list: Seq<CopyProgress>, p: CopyProgress) -> Seq<CopyProgress> {
    if has_copy_for(list, p.filename@) {
        let i = choose|i: int| is_first_copy_for(list, p.filename@, i);
        list.update(i, p)
    } else {
        list.push(p)
    }
}

/// No two entries of `list` are for the same file.
pub open spec fn progress_names_unique(list: Seq<DownloadProgress>) -> bool {
    forall|i: int, j: int|
        0 <= i < list.len() && 0 <= j < list.len() && i != j ==> (#[trigger] list[i]).filename@
            != (#[trigger] list[j]).filename@
}

/// The entry for a file is the report most recently received for it, and
/// receiving a report never makes two entries share a file.
pub proof fn lemma_upsert_keeps_latest_and_unique(list: Seq<DownloadProgress>, p: DownloadProgress)
    requires
        progress_names_unique(list),
    ensures
        progress_names_unique(upsert_progress(list, p)),
        exists|i: int|
            is_first_progress_for(upsert_progress(list, p), p.filename@, i) && upsert_progress(
                list,
                p,
            )[i] == p,
        upsert_progress(list, p).len() == list.len() + if has_progress_for(list, p.filename@) {
            0int
        } else {
            1int
        },
{
    let r = upsert_progress(list, p);
    if has_progress_for(list, p.filename@) {
        let w = choose|w: int| 0 <= w < list.len() && (#[trigger] list[w]).filename@ == p.filename@;
        assert(is_first_progress_for(list, p.filename@, w)) by {
            assert forall|j: int| 0 <= j < w implies (#[trigger] list[j]).filename@ != p.filename@ by {
                if list[j].filename@ == p.filename@ {
                    assert(list[j].filename@ == list[w].filename@);
                }
            }
        }
        let i = choose|i: int| is_first_progress_for(list, p.filename@, i);
        assert(is_first_progress_for(r, p.filename@, i));
    } else {
        assert(is_first_progress_for(r, p.filename@, list.len() as int));
    }
}

/// `list` after the reports `ps`, received in order.
pub open spec fn upsert_all(list: Seq<DownloadProgress>, ps: Seq<DownloadProgress>) -> Seq<
    DownloadProgress,
>
    decreases ps.len(),
{
    if ps.len() == 0 {
        list
    } else {
        upsert_progress(upsert_all(list, ps.drop_last()), ps.last())
    }
}

/// The file names of `list`, in order.
pub open spec fn progress_names(list: Seq<DownloadProgress>) -> Seq<Seq<char>> {
    list.map_values(|p: DownloadProgress| p.filename@)
}

/// The names of the reports `ps` that are not in `known`, each once, in the
/// order in which they first arrive.
pub open spec fn arrivals(known: Seq<Seq<char>>, ps: Seq<DownloadProgress>) -> Seq<Seq<char>>
    decreases ps.len(),
{
    if ps.len() == 0 {
        seq![]
    } else {
        let a = arrivals(known, ps.drop_last());
        if (known + a).contains(ps.last().filename@) {
            a
        } else {
            a.push(ps.last().filename@)
        }
    }
}

/// The last report of `ps` for file `name`, if any.
pub open spec fn last_report(ps: Seq<DownloadProgress>, name: Seq<char>) -> Option<
    DownloadProgress,
>
    decreases ps.len(),
{
    if ps.len() == 0 {
        None
    } else if ps.last().filename@ == name {
        Some(ps.last())
    } else {
        last_report(ps.drop_last(), name)
    }
}

/// Over any run of reports, starting from a list without two entries for
/// one file: the list still has no two entries for one file; the entries
/// already there keep their places, and each is the last report received
/// for its file, or is unchanged when none was; the files new to the list
/// are added at the end in the order in which their first report arrived,
/// each with its last report.
pub proof fn lemma_reports_keep_latest_in_place(list: Seq<DownloadProgress>, ps: Seq<DownloadProgress>)
    requires
        progress_names_unique(list),
    ensures
        progress_names_unique(upsert_all(list, ps)),
        progress_names(upsert_all(list, ps)) == progress_names(list) + arrivals(
            progress_names(list),
            ps,
        ),
        forall|i: int|
            0 <= i < list.len() ==> #[trigger] upsert_all(list, ps)[i] == match last_report(
                ps,
                list[i].filename@,
            ) {
                Some(p) => p,
                None => list[i],
            },
        forall|i: int|
            list.len() <= i < upsert_all(list, ps).len() ==> last_report(
                ps,
                upsert_all(list, ps)[i].filename@,
            ) == Some(#[trigger] upsert_all(list, ps)[i]),
    decreases ps.len(),
{
    if ps.len() > 0 {
        let prev = ps.drop_last();
        let p = ps.last();
        lemma_reports_keep_latest_in_place(list, prev);
        let r = upsert_all(list, prev);
        let r2 = upsert_all(list, ps);
        assert(r2 == upsert_progress(r, p));
        lemma_upsert_keeps_latest_and_unique(r, p);
        let known = progress_names(list);
        let a = arrivals(known, prev);
        assert(progress_names(r) == known + a);
        if has_progress_for(r, p.filename@) {
            let w = choose|w: int| 0 <= w < r.len() && (#[trigger] r[w]).filename@ == p.filename@;
            assert(is_first_progress_for(r, p.filename@, w)) by {
                assert forall|j: int| 0 <= j < w implies (#[trigger] r[j]).filename@ != p.filename@ by {
                    if r[j].filename@ == p.filename@ {
                        assert(r[j].filename@ == r[w].filename@);
                    }
                }
            }
            let k = choose|k: int| is_first_progress_for(r, p.filename@, k);
            assert(r2 == r.update(k, p));
            assert(progress_names(r)[w] == p.filename@);
            assert((known + a).contains(p.filename@));
            assert(arrivals(known, ps) == a);
            assert(progress_names(r2) =~= progress_names(r));
            assert forall|i: int| 0 <= i < list.len() implies #[trigger] r2[i] == match last_report(
                ps,
                list[i].filename@,
            ) {
                Some(q) => q,
                None => list[i],
            } by {
                assert(progress_names(r)[i] == known[i]);
                if i != k {
                    assert(r[i].filename@ != r[k].filename@);
                }
            }
            assert forall|i: int| list.len() <= i < r2.len() implies last_report(
                ps,
                r2[i].filename@,
            ) == Some(#[trigger] r2[i]) by {
                if i != k {
                    assert(r[i].filename@ != r[k].filename@);
                }
            }
        } else {
            assert(r2 == r.push(p));
            assert(!(known + a).contains(p.filename@)) by {
                if (known + a).contains(p.filename@) {
                    let j = choose|j: int| 0 <= j < (known + a).len() && (known + a)[j] == p.filename@;
                    assert(progress_names(r)[j] == r[j].filename@);
                }
            }
            assert(arrivals(known, ps) == a.push(p.filename@));
            assert(progress_names(r2) =~= progress_names(r).push(p.filename@));
            assert forall|i: int| 0 <= i < list.len() implies #[trigger] r2[i] == match last_report(
                ps,
                list[i].filename@,
            ) {
                Some(q) => q,
                None => list[i],
            } by {
                assert(progress_names(r)[i] == known[i]);
                assert(r[i].filename@ != p.filename@);
            }
            assert forall|i: int| list.len() <= i < r2.len() implies last_report(
                ps,
                r2[i].filename@,
            ) == Some(#[trigger] r2[i]) by {
                if i < r.len() {
                    assert(r[i].filename@ != p.filename@);
                }
            }
        }
    }
}

/// No two copy entries of `list` are for the same file.
pub open spec fn copy_names_unique(list: Seq<CopyProgress>) -> bool {
    forall|i: int, j: int|
        0 <= i < list.len() && 0 <= j < list.len() && i != j ==> (#[trigger] list[i]).filename@
            != (#[trigger] list[j]).filename@
}

/// The copy entry for a file is the report most recently received for it,
/// and receiving a report never makes two entries share a file.
pub proof fn lemma_upsert_copy_keeps_latest_and_unique(list: Seq<CopyProgress>, p: CopyProgress)
    requires
        copy_names_unique(list),
    ensures
        copy_names_unique(upsert_copy(list, p)),
        exists|i: int|
            is_first_copy_for(upsert_copy(list, p), p.filename@, i) && upsert_copy(
                list,
                p,
            )[i] == p,
        upsert_copy(list, p).len() == list.len() + if has_copy_for(list, p.filename@) {
            0int
        } else {
            1int
        },
{
    let r = upsert_copy(list, p);
    if has_copy_for(list, p.filename@) {
        let w = choose|w: int| 0 <= w < list.len() && (#[trigger] list[w]).filename@ == p.filename@;
        assert(is_first_copy_for(list, p.filename@, w)) by {
            assert forall|j: int| 0 <= j < w implies (#[trigger] list[j]).filename@ != p.filename@ by {
                if list[j].filename@ == p.filename@ {
                    assert(list[j].filename@ == list[w].filename@);
                }
            }
        }
        let i = choose|i: int| is_first_copy_for(list, p.filename@, i);
        assert(is_first_copy_for(r, p.filename@, i));
    } else {
        assert(is_first_copy_for(r, p.filename@, list.len() as int));
    }
}

/// `list` after the copy reports `ps`, received in order.
pub open spec fn upsert_copy_all(list: Seq<CopyProgress>, ps: Seq<CopyProgress>) -> Seq<
    CopyProgress,
>
    decreases ps.len(),
{
    if ps.len() == 0 {
        list
    } else {
        upsert_copy(upsert_copy_all(list, ps.drop_last()), ps.last())
    }
}

/// The file names of the copy entries `list`, in order.
pub open spec fn copy_names(list: Seq<CopyProgress>) -> Seq<Seq<char>> {
    list.map_values(|p: CopyProgress| p.filename@)
}

/// The names of the copy reports `ps` that are not in `known`, each once, in the
/// order in which they first arrive.
pub open spec fn copy_arrivals(known: Seq<Seq<char>>, ps: Seq<CopyProgress>) -> Seq<Seq<char>>
    decreases ps.len(),
{
    if ps.len() == 0 {
        seq![]
    } else {
        let a = copy_arrivals(known, ps.drop_last());
        if (known + a).contains(ps.last().filename@) {
            a
        } else {
            a.push(ps.last().filename@)
        }
    }
}

/// The last copy report of `ps` for file `name`, if any.
pub open spec fn last_copy_report(ps: Seq<CopyProgress>, name: Seq<char>) -> Option<
    CopyProgress,
>
    decreases ps.len(),
{
    if ps.len() == 0 {
        None
    } else if ps.last().filename@ == name {
        Some(ps.last())
    } else {
        last_copy_report(ps.drop_last(), name)
    }
}

/// The same for copy reports: over any run of them, starting from a list without two entries for
/// one file: the list still has no two entries for one file; the entries
/// already there keep their places, and each is the last report received
/// for its file, or is unchanged when none was; the files new to the list
/// are added at the end in the order in which their first report arrived,
/// each with its last report.
pub proof fn lemma_copy_reports_keep_latest_in_place(list: Seq<CopyProgress>, ps: Seq<CopyProgress>)
    requires
        copy_names_unique(list),
    ensures
        copy_names_unique(upsert_copy_all(list, ps)),
        copy_names(upsert_copy_all(list, ps)) == copy_names(list) + copy_arrivals(
            copy_names(list),
            ps,
        ),
        forall|i: int|
            0 <= i < list.len() ==> #[trigger] upsert_copy_all(list, ps)[i] == match last_copy_report(
                ps,
                list[i].filename@,
            ) {
                Some(p) => p,
                None => list[i],
            },
        forall|i: int|
            list.len() <= i < upsert_copy_all(list, ps).len() ==> last_copy_report(
                ps,
                upsert_copy_all(list, ps)[i].filename@,
            ) == Some(#[trigger] upsert_copy_all(list, ps)[i]),
    decreases ps.len(),
{
    if ps.len() > 0 {
        let prev = ps.drop_last();
        let p = ps.last();
        lemma_copy_reports_keep_latest_in_place(list, prev);
        let r = upsert_copy_all(list, prev);
        let r2 = upsert_copy_all(list, ps);
        assert(r2 == upsert_copy(r, p));
        lemma_upsert_copy_keeps_latest_and_unique(r, p);
        let known = copy_names(list);
        let a = copy_arrivals(known, prev);
        assert(copy_names(r) == known + a);
        if has_copy_for(r, p.filename@) {
            let w = choose|w: int| 0 <= w < r.len() && (#[trigger] r[w]).filename@ == p.filename@;
            assert(is_first_copy_for(r, p.filename@, w)) by {
                assert forall|j: int| 0 <= j < w implies (#[trigger] r[j]).filename@ != p.filename@ by {
                    if r[j].filename@ == p.filename@ {
                        assert(r[j].filename@ == r[w].filename@);
                    }
                }
            }
            let k = choose|k: int| is_first_copy_for(r, p.filename@, k);
            assert(r2 == r.update(k, p));
            assert(copy_names(r)[w] == p.filename@);
            assert((known + a).contains(p.filename@));
            assert(copy_arrivals(known, ps) == a);
            assert(copy_names(r2) =~= copy_names(r));
            assert forall|i: int| 0 <= i < list.len() implies #[trigger] r2[i] == match last_copy_report(
                ps,
                list[i].filename@,
            ) {
                Some(q) => q,
                None => list[i],
            } by {
                assert(copy_names(r)[i] == known[i]);
                if i != k {
                    assert(r[i].filename@ != r[k].filename@);
                }
            }
            assert forall|i: int| list.len() <= i < r2.len() implies last_copy_report(
                ps,
                r2[i].filename@,
            ) == Some(#[trigger] r2[i]) by {
                if i != k {
                    assert(r[i].filename@ != r[k].filename@);
                }
            }
        } else {
            assert(r2 == r.push(p));
            assert(!(known + a).contains(p.filename@)) by {
                if (known + a).contains(p.filename@) {
                    let j = choose|j: int| 0 <= j < (known + a).len() && (known + a)[j] == p.filename@;
                    assert(copy_names(r)[j] == r[j].filename@);
                }
            }
            assert(copy_arrivals(known, ps) == a.push(p.filename@));
            assert(copy_names(r2) =~= copy_names(r).push(p.filename@));
            assert forall|i: int| 0 <= i < list.len() implies #[trigger] r2[i] == match last_copy_report(
                ps,
                list[i].filename@,
            ) {
                Some(q) => q,
                None => list[i],
            } by {
                assert(copy_names(r)[i] == known[i]);
                assert(r[i].filename@ != p.filename@);
            }
            assert forall|i: int| list.len() <= i < r2.len() implies last_copy_report(
                ps,
                r2[i].filename@,
            ) == Some(#[trigger] r2[i]) by {
                if i < r.len() {
                    assert(r[i].filename@ != p.filename@);
                }
            }
        }
    }
}

/// Finds the first entry for file `name`.
fn progress_position(list: &Vec<DownloadProgress>, name: &str) -> (r: Option<usize>)
    ensures
        match r {
            Some(i) => is_first_progress_for(list@, name@, i as int),
            None => !has_progress_for(list@, name@),
        },
{
    let mut i: usize = 0;
    while i < list.len()
        invariant
            i <= list@.len(),
            forall|j: int| 0 <= j < i ==> (#[trigger] list@[j]).filename@ != name@,
        decreases list.len() - i,
    {
        if str_eq(list[i].filename.as_str(), name) {
            return Some(i);
        }
        i += 1;
    }
    None
}

/// Finds the first copy entry for file `name`.
fn copy_position(list: &Vec<CopyProgress>, name: &str) -> (r: Option<usize>)
    ensures
        match r {
            Some(i) => is_first_copy_for(list@, name@, i as int),
            None => !has_copy_for(list@, name@),
        },
{
    let mut i: usize = 0;
    while i < list.len()
        invariant
            i <= list@.len(),
            forall|j: int| 0 <= j < i ==> (#[trigger] list@[j]).filename@ != name@,
        decreases list.len() - i,
    {
        if str_eq(list[i].filename.as_str(), name) {
            return Some(i);
        }
        i += 1;
    }
    None
}

/// Records report `p` in `list`.
pub fn record_progress(list: &mut Vec<DownloadProgress>, p: DownloadProgress)
    ensures
        final(list)@ == upsert_progress(old(list)@, p),
{
    match progress_position(list, p.filename.as_str()) {
        Some(i) => {
            proof {
                let c = choose|c: int| is_first_progress_for(old(list)@, p.filename@, c);
                if c < i {
                    assert(old(list)@[c].filename@ != p.filename@);
                }
                if i < c {
                    assert(old(list)@[i as int].filename@ != p.filename@);
                }
            }
            list.set(i, p);
        },
        None => {
            list.push(p);
        },
    }
}

/// Records copy report `p` in `list`.
pub fn record_copy_progress(list: &mut Vec<CopyProgress>, p: CopyProgress)
    ensures
        final(list)@ == upsert_copy(old(list)@, p),
{
    match copy_position(list, p.filename.as_str()) {
        Some(i) => {
            proof {
                let c = choose|c: int| is_first_copy_for(old(list)@, p.filename@, c);
                if c < i {
                    assert(old(list)@[c].filename@ != p.filename@);
                }
                if i < c {
                    assert(old(list)@[i as int].filename@ != p.filename@);
                }
            }
            list.set(i, p);
        },
        None => {
            list.push(p);
        },
    }
}

// ---------------------------------------------------------------------------
// Download outcome
// ---------------------------------------------------------------------------

/// The file is done: fetched and checked, or its check was skipped.
pub open spec fn is_done(s: DownloadStatus) -> bool {
    s is Completed || s is Skipped
}

/// Every file of `list` is done.
pub open spec fn all_done(list: Seq<DownloadProgress>) -> bool {
    forall|i: int| 0 <= i < list.len() ==> is_done(#[trigger] list[i].status)
}

/// Some file of `list` failed.
pub open spec fn any_failed(list: Seq<DownloadProgress>) -> bool {
    exists|i: int| 0 <= i < list.len() && (#[trigger] list[i].status) is Failed
}

/// Some file of `list` failed with an error that mentions `403`.
pub open spec fn any_forbidden(list: Seq<DownloadProgress>) -> bool {
    exists|i: int|
        0 <= i < list.len() && ((#[trigger] list[i].status) matches DownloadStatus::Failed(e)
            && contains(e@, "403"@))
}

/// Whether every file is done.
pub fn all_downloads_done(list: &Vec<DownloadProgress>) -> (r: bool)
    ensures
        r == all_done(list@),
{
    let mut i: usize = 0;
    while i < list.len()
        invariant
            i <= list@.len(),
            forall|j: int| 0 <= j < i ==> is_done(#[trigger] list@[j].status),
        decreases list.len() - i,
    {
        match &list[i].status {
            DownloadStatus::Completed | DownloadStatus::Skipped => {},
            _ => {
                return false;
            },
        }
        i += 1;
    }
    true
}

/// Whether some file failed.
pub fn any_download_failed(list: &Vec<DownloadProgress>) -> (r: bool)
    ensures
        r == any_failed(list@),
{
    let mut i: usize = 0;
    while i < list.len()
        invariant
            i <= list@.len(),
            forall|j: int| 0 <= j < i ==> !((#[trigger] list@[j].status) is Failed),
        decreases list.len() - i,
    {
        if let DownloadStatus::Failed(_) = &list[i].status {
            return true;
        }
        i += 1;
    }
    false
}

/// Whether some file failed with an error mentioning `403`.
pub fn any_download_forbidden(list: &Vec<DownloadProgress>) -> (r: bool)
    ensures
        r == any_forbidden(list@),
{
    let pat = chars_of("403");
    let mut i: usize = 0;
    while i < list.len()
        invariant
            i <= list@.len(),
            pat@ == "403"@,
            forall|j: int|
                0 <= j < i ==> !((#[trigger] list@[j].status) matches DownloadStatus::Failed(e)
                    && contains(e@, "403"@)),
        decreases list.len() - i,
    {
        if let DownloadStatus::Failed(e) = &list[i].status {
            let ec = chars_of(e.as_str());
            if find(ec.as_slice(), pat.as_slice()).is_some() {
                return true;
            }
        }
        i += 1;
    }
    false
}

/// The paths of the completed files of `list`, in `temp_dir`, in list
/// order.
pub open spec fn completed_paths(list: Seq<DownloadProgress>, temp_dir: Seq<char>) -> Seq<Seq<char>>
    decreases list.len(),
{
    if list.len() == 0 {
        seq![]
    } else {
        let rest = completed_paths(list.drop_last(), temp_dir);
        if list.last().status is Completed {
            rest.push(temp_dir + "/"@ + list.last().filename@)
        } else {
            rest
        }
    }
}

/// Every file is done exactly when each of them, the last one included, is
/// completed or had its check skipped: one that is pending, downloading,
/// being checked or failed means not every file is done. One more file
/// leaves every file done exactly when all were before and it is done too.
pub proof fn lemma_all_done_means_every_file(list: Seq<DownloadProgress>, p: DownloadProgress)
    ensures
        all_done(list) <==> forall|i: int|
            0 <= i < list.len() ==> (#[trigger] list[i].status is Completed || list[i].status is Skipped),
        forall|i: int|
            0 <= i < list.len() && (#[trigger] list[i].status is Pending || list[i].status is Downloading
                || list[i].status is Verifying || list[i].status is Failed) ==> !all_done(list),
        all_done(list.push(p)) <==> all_done(list) && (p.status is Completed || p.status is Skipped),
{
    if all_done(list.push(p)) {
        assert(list.push(p)[list.len() as int] == p);
        assert forall|i: int| 0 <= i < list.len() implies is_done(#[trigger] list[i].status) by {
            assert(list.push(p)[i] == list[i]);
        }
    }
    if all_done(list) && is_done(p.status) {
        assert forall|i: int| 0 <= i < list.push(p).len() implies is_done(
            #[trigger] list.push(p)[i].status,
        ) by {
            if i < list.len() {
                assert(list.push(p)[i] == list[i]);
            }
        }
    }
}

/// The files handed to the copy are exactly the completed ones, in list
/// order, each as `temp_dir/filename`: one path per completed entry and
/// none for any other.
pub proof fn lemma_completed_paths_are_the_completed_files(
    list: Seq<DownloadProgress>,
    temp_dir: Seq<char>,
)
    ensures
        completed_paths(list, temp_dir) == list.filter(|p: DownloadProgress| p.status is Completed).map_values(
            |p: DownloadProgress| temp_dir + "/"@ + p.filename@,
        ),
        completed_paths(list, temp_dir).len() == list.filter(
            |p: DownloadProgress| p.status is Completed,
        ).len(),
    decreases list.len(),
{
    reveal_with_fuel(Seq::<DownloadProgress>::filter, 1);
    if list.len() > 0 {
        lemma_completed_paths_are_the_completed_files(list.drop_last(), temp_dir);
    }
    assert(completed_paths(list, temp_dir) =~= list.filter(
        |p: DownloadProgress| p.status is Completed,
    ).map_values(|p: DownloadProgress| temp_dir + "/"@ + p.filename@));
}

/// What the copy to the drive is given for progress list `list` and
/// temporary directory `temp_dir`: the paths of the completed files, in list
/// order, or, when no file completed, the error that there is nothing to
/// copy.
pub open spec fn copy_files_for(
    list: Seq<DownloadProgress>,
    temp_dir: Seq<char>,
    files: Result<Vec<String>, String>,
) -> bool {
    match files {
        Ok(fs) => {
            &&& completed_paths(list, temp_dir).len() > 0
            &&& fs@.len() == completed_paths(list, temp_dir).len()
            &&& forall|i: int|
                0 <= i < fs@.len() ==> #[trigger] fs@[i]@ == completed_paths(list, temp_dir)[i]
        },
        Err(e) => completed_paths(list, temp_dir).len() == 0 && e@ == "没有可复制的文件"@,
    }
}

/// The paths of the completed files.
pub fn completed_file_paths(list: &Vec<DownloadProgress>, temp_dir: &str) -> (r: Vec<String>)
    ensures
        r@.len() == completed_paths(list@, temp_dir@).len(),
        forall|i: int|
            0 <= i < r@.len() ==> #[trigger] r@[i]@ == completed_paths(list@, temp_dir@)[i],
{
    let mut r: Vec<String> = Vec::new();
    let mut i: usize = 0;
    while i < list.len()
        invariant
            i <= list@.len(),
            r@.len() == completed_paths(list@.take(i as int), temp_dir@).len(),
            forall|k: int|
                0 <= k < r@.len() ==> #[trigger] r@[k]@ == completed_paths(
                    list@.take(i as int),
                    temp_dir@,
                )[k],
        decreases list.len() - i,
    {
        assert(list@.take(i + 1).drop_last() == list@.take(i as int));
        if let DownloadStatus::Completed = &list[i].status {
            let mut p = String::from_str(temp_dir);
            p.append("/");
            p.append(list[i].filename.as_str());
            r.push(p);
        }
        i += 1;
    }
    assert(list@.take(list@.len() as int) == list@);
    r
}

// ---------------------------------------------------------------------------
// Copies of configuration values
// ---------------------------------------------------------------------------

/// `a` and `b` describe the same file.
pub open spec fn same_file(a: InstallFile, b: InstallFile) -> bool {
    a.filename == b.filename && a.size == b.size && a.sha256 == b.sha256 && a.url_list@
        == b.url_list@
}

/// `a` and `b` describe the same version.
pub open spec fn same_version(a: VersionInfo, b: VersionInfo) -> bool {
    &&& a.name == b.name
    &&& a.summary == b.summary
    &&& a.install_list@.len() == b.install_list@.len()
    &&& forall|i: int|
        0 <= i < a.install_list@.len() ==> same_file(#[trigger] a.install_list@[i], b.install_list@[i])
}

fn copy_strings(v: &Vec<String>) -> (r: Vec<String>)
    ensures
        r@ == v@,
{
    let mut r: Vec<String> = Vec::new();
    let mut i: usize = 0;
    while i < v.len()
        invariant
            i <= v@.len(),
            r@ == v@.take(i as int),
        decreases v.len() - i,
    {
        r.push(v[i].clone());
        assert(v@.take(i + 1) == v@.take(i as int).push(v@[i as int]));
        i += 1;
    }
    assert(v@.take(v@.len() as int) == v@);
    r
}

/// A copy of a file description.
pub fn copy_install_file(f: &InstallFile) -> (r: InstallFile)
    ensures
        same_file(r, *f),
{
    InstallFile {
        filename: f.filename.clone(),
        size: f.size,
        sha256: f.sha256.clone(),
        url_list: copy_strings(&f.url_list),
    }
}

/// A copy of a list of file descriptions.
pub fn copy_install_list(v: &Vec<InstallFile>) -> (r: Vec<InstallFile>)
    ensures
        r@.len() == v@.len(),
        forall|i: int| 0 <= i < v@.len() ==> same_file(#[trigger] r@[i], v@[i]),
{
    let mut r: Vec<InstallFile> = Vec::new();
    let mut i: usize = 0;
    while i < v.len()
        invariant
            i <= v@.len(),
            r@.len() == i,
            forall|k: int| 0 <= k < i ==> same_file(#[trigger] r@[k], v@[k]),
        decreases v.len() - i,
    {
        r.push(copy_install_file(&v[i]));
        i += 1;
    }
    r
}

/// A copy of a version description.
pub fn copy_version(v: &VersionInfo) -> (r: VersionInfo)
    ensures
        same_version(r, *v),
{
    VersionInfo {
        name: v.name.clone(),
        summary: v.summary.clone(),
        install_list: copy_install_list(&v.install_list),
    }
}

// ---------------------------------------------------------------------------
// The flow
// ---------------------------------------------------------------------------

/// The manual drive `m` as a raw device path: `\\.\` then `m` without
/// trailing colons in ASCII upper case, then `:`.
pub open spec fn manual_raw_path(m: Seq<char>) -> Seq<char> {
    "\\\\.\\"@ + ascii_upper_all(trim_end_char(m, ':')) + ":"@
}

/// What the download state is after it is cleared (for a new attempt).
pub open spec fn download_state_cleared(old: InstallerFlow, new: InstallerFlow) -> bool {
    &&& new == (InstallerFlow {
        download_started: false,
        download_progress: new.download_progress,
        receiving_progress: false,
        awaiting_format_copy: false,
        receiving_copy_progress: false,
        format_copy_status: new.format_copy_status,
        copy_progress: new.copy_progress,
        current_copy_file: new.current_copy_file,
        format_confirmed: false,
        show_format_warning: false,
        ..old
    })
    &&& new.download_progress@.len() == 0
    &&& new.format_copy_status@.len() == 0
    &&& new.copy_progress@.len() == 0
    &&& new.current_copy_file@.len() == 0
}

/// What the whole state is after "return to the start": no version, no
/// drive, no download or copy state and no error message; the screen, the
/// configuration and the temporary directory stay.
pub open spec fn all_state_cleared(old: InstallerFlow, new: InstallerFlow) -> bool {
    &&& new == (InstallerFlow {
        selected_version: None,
        selected_usb: None,
        manual_drive_letter: new.manual_drive_letter,
        usb_devices: new.usb_devices,
        awaiting_usb: false,
        error_message: None,
        download_started: false,
        download_progress: new.download_progress,
        receiving_progress: false,
        awaiting_format_copy: false,
        receiving_copy_progress: false,
        format_copy_status: new.format_copy_status,
        copy_progress: new.copy_progress,
        current_copy_file: new.current_copy_file,
        format_confirmed: false,
        show_format_warning: false,
        ..old
    })
    &&& new.manual_drive_letter@.len() == 0
    &&& new.usb_devices@.len() == 0
    &&& new.download_progress@.len() == 0
    &&& new.format_copy_status@.len() == 0
    &&& new.copy_progress@.len() == 0
    &&& new.current_copy_file@.len() == 0
}

/// What starting the download does, from state `old`: nothing when a
/// download was already started; otherwise the progress list is reset and
/// new report channels are set up, and when a version with files is
/// selected, one pending entry per file is listed and the download of those
/// files into the temporary directory is started.
pub open spec fn download_started_from(
    old: InstallerFlow,
    new: InstallerFlow,
    action: Option<FlowAction>,
) -> bool {
    if old.download_started {
        new == old && action is None
    } else {
        &&& new == (InstallerFlow {
            download_started: true,
            download_progress: new.download_progress,
            receiving_progress: true,
            can_skip_verification: true,
            ..old
        })
        &&& match old.selected_version {
            Some(v) if v.install_list@.len() > 0 => {
                &&& new.download_progress@.len() == v.install_list@.len()
                &&& forall|i: int|
                    0 <= i < v.install_list@.len() ==> {
                        let p = #[trigger] new.download_progress@[i];
                        &&& p.filename == v.install_list@[i].filename
                        &&& p.downloaded == 0
                        &&& p.total == v.install_list@[i].size
                        &&& p.status is Pending
                        &&& p.verified_bytes == 0
                    }
                &&& action matches Some(FlowAction::StartDownload { files, temp_dir })
                    && files@.len() == v.install_list@.len() && (forall|i: int|
                    0 <= i < files@.len() ==> same_file(#[trigger] files@[i], v.install_list@[i]))
                    && temp_dir == old.temp_dir
            },
            _ => new.download_progress@.len() == 0 && action is None,
        }
    }
}

/// Starting the download a second time, before its state is cleared,
/// changes nothing and starts no download.
pub proof fn lemma_second_start_does_nothing(
    s0: InstallerFlow,
    s1: InstallerFlow,
    s2: InstallerFlow,
    a1: Option<FlowAction>,
    a2: Option<FlowAction>,
)
    requires
        download_started_from(s0, s1, a1),
        download_started_from(s1, s2, a2),
    ensures
        s1.download_started,
        s2 == s1,
        a2 is None,
{
}

impl InstallerFlow {
    /// The start: the loading screen, nothing chosen, files kept in
    /// `./temp`, and the configuration being fetched.
    pub fn new() -> (r: (Self, FlowAction))
        ensures
            r.0.state is Loading,
            r.0.config is None,
            r.0.selected_version is None,
            r.0.usb_devices@.len() == 0,
            r.0.selected_usb is None,
            r.0.manual_drive_letter@.len() == 0,
            r.0.download_progress@.len() == 0,
            r.0.error_message is None,
            !r.0.show_format_warning,
            !r.0.format_confirmed,
            !r.0.download_started,
            r.0.format_copy_status@.len() == 0,
            r.0.copy_progress@.len() == 0,
            r.0.current_copy_file@.len() == 0,
            r.0.temp_dir@ == "./temp"@,
            !r.0.show_disk_space_warning,
            r.0.required_space == 0,
            r.0.available_space == 0,
            !r.0.show_skip_verify_dialog,
            r.0.verifying_filename is None,
            r.0.awaiting_config,
            !r.0.awaiting_usb,
            !r.0.awaiting_format_copy,
            r.0.receiving_progress,
            !r.0.receiving_copy_progress,
            !r.0.can_skip_verification,
            r.1 is LoadConfig,
    {
        (
            InstallerFlow {
                state: AppState::Loading,
                config: None,
                selected_version: None,
                usb_devices: Vec::new(),
                selected_usb: None,
                manual_drive_letter: String::new(),
                download_progress: Vec::new(),
                error_message: None,
                show_format_warning: false,
                format_confirmed: false,
                download_started: false,
                format_copy_status: String::new(),
                copy_progress: Vec::new(),
                current_copy_file: String::new(),
                temp_dir: String::from_str("./temp"),
                show_disk_space_warning: false,
                required_space: 0,
                available_space: 0,
                show_skip_verify_dialog: false,
                verifying_filename: None,
                awaiting_config: true,
                awaiting_usb: false,
                awaiting_format_copy: false,
                receiving_progress: true,
                receiving_copy_progress: false,
                can_skip_verification: false,
            },
            FlowAction::LoadConfig,
        )
    }

    // ----- reports from background work -----

    /// The configuration fetch finished: on success the versions are shown;
    /// on failure the error screen shows the error.
    pub fn config_loaded(&mut self, result: Result<InstallerConfig, String>)
        ensures
            match result {
                Ok(c) => *final(self) == (InstallerFlow {
                    config: Some(c),
                    state: AppState::VersionSelection,
                    awaiting_config: false,
                    ..*old(self)
                }),
                Err(e) => {
                    &&& *final(self) == (InstallerFlow {
                        error_message: final(self).error_message,
                        state: AppState::Error(e),
                        awaiting_config: false,
                        ..*old(self)
                    })
                    &&& final(self).error_message matches Some(m) && m@ == "加载配置失败: "@ + e@
                },
            },
    {
        match result {
            Ok(c) => {
                self.config = Some(c);
                self.state = AppState::VersionSelection;
            },
            Err(e) => {
                self.error_message = Some(concat("加载配置失败: ", e.as_str()));
                self.state = AppState::Error(e);
            },
        }
        self.awaiting_config = false;
    }

    /// A download progress report arrived.
    pub fn progress_received(&mut self, p: DownloadProgress)
        ensures
            *final(self) == (InstallerFlow {
                download_progress: final(self).download_progress,
                ..*old(self)
            }),
            final(self).download_progress@ == upsert_progress(old(self).download_progress@, p),
    {
        record_progress(&mut self.download_progress, p);
    }

    /// The USB drive search finished.
    pub fn usb_detection_finished(&mut self, result: Result<Vec<UsbDevice>, String>)
        ensures
            match result {
                Ok(d) => *final(self) == (InstallerFlow {
                    usb_devices: d,
                    awaiting_usb: false,
                    ..*old(self)
                }),
                Err(e) => {
                    &&& *final(self) == (InstallerFlow {
                        error_message: final(self).error_message,
                        awaiting_usb: false,
                        ..*old(self)
                    })
                    &&& final(self).error_message matches Some(m) && m@ == "检测U盘失败: "@ + e@
                },
            },
    {
        match result {
            Ok(devices) => {
                self.usb_devices = devices;
            },
            Err(e) => {
                self.error_message = Some(concat("检测U盘失败: ", e.as_str()));
            },
        }
        self.awaiting_usb = false;
    }

    /// The USB drive search ended without a report.
    pub fn usb_detection_lost(&mut self)
        ensures
            *final(self) == (InstallerFlow { awaiting_usb: false, ..*old(self) }),
    {
        self.awaiting_usb = false;
    }

    /// What the copy to the drive is given: the paths of the completed
    /// downloads, or the error that there is nothing to copy.
    fn copy_action(&self) -> (r: FlowAction)
        ensures
            r matches FlowAction::StartCopy { files } && copy_files_for(
                self.download_progress@,
                self.temp_dir@,
                files,
            ),
    {
        let files = completed_file_paths(&self.download_progress, self.temp_dir.as_str());
        if files.len() == 0 {
            FlowAction::StartCopy { files: Err(String::from_str("没有可复制的文件")) }
        } else {
            FlowAction::StartCopy { files: Ok(files) }
        }
    }

    /// A format or copy finished. A finished format starts the copy of the
    /// completed downloads; a finished copy completes the installation;
    /// a failure shows the error screen.
    pub fn format_copy_finished(&mut self, result: Result<String, String>) -> (r: Option<FlowAction>)
        ensures
            match result {
                Ok(msg) => match old(self).state {
                    AppState::Formatting => {
                        &&& *final(self) == (InstallerFlow {
                            format_copy_status: msg,
                            state: AppState::Copying,
                            awaiting_format_copy: true,
                            receiving_copy_progress: true,
                            ..*old(self)
                        })
                        &&& r matches Some(FlowAction::StartCopy { files }) && copy_files_for(
                            old(self).download_progress@,
                            old(self).temp_dir@,
                            files,
                        )
                    },
                    AppState::Copying => {
                        &&& *final(self) == (InstallerFlow {
                            format_copy_status: msg,
                            state: AppState::Completed,
                            awaiting_format_copy: false,
                            ..*old(self)
                        })
                        &&& r is None
                    },
                    _ => *final(self) == *old(self) && r is None,
                },
                Err(e) => {
                    &&& *final(self) == (InstallerFlow {
                        error_message: final(self).error_message,
                        state: AppState::Error(e),
                        awaiting_format_copy: false,
                        ..*old(self)
                    })
                    &&& final(self).error_message matches Some(m) && m@ == "操作失败: "@ + e@
                    &&& r is None
                },
            },
    {
        match result {
            Ok(msg) => {
                match self.state {
                    AppState::Formatting => {
                        self.format_copy_status = msg;
                        self.state = AppState::Copying;
                        self.awaiting_format_copy = true;
                        self.receiving_copy_progress = true;
                        Some(self.copy_action())
                    },
                    AppState::Copying => {
                        self.format_copy_status = msg;
                        self.state = AppState::Completed;
                        self.awaiting_format_copy = false;
                        None
                    },
                    _ => None,
                }
            },
            Err(e) => {
                self.error_message = Some(concat("操作失败: ", e.as_str()));
                self.state = AppState::Error(e);
                self.awaiting_format_copy = false;
                None
            },
        }
    }

    /// A copy progress report arrived: its file becomes the current one.
    pub fn copy_progress_received(&mut self, p: CopyProgress)
        ensures
            *final(self) == (InstallerFlow {
                copy_progress: final(self).copy_progress,
                current_copy_file: p.filename,
                ..*old(self)
            }),
            final(self).copy_progress@ == upsert_copy(old(self).copy_progress@, p),
    {
        self.current_copy_file = p.filename.clone();
        record_copy_progress(&mut self.copy_progress, p);
    }

    // ----- the version screen -----

    /// "Refresh": back to loading, the configuration fetched again.
    pub fn refresh_versions(&mut self) -> (r: FlowAction)
        ensures
            *final(self) == (InstallerFlow {
                state: AppState::Loading,
                config: None,
                selected_version: None,
                awaiting_config: true,
                ..*old(self)
            }),
            r is LoadConfig,
    {
        self.state = AppState::Loading;
        self.config = None;
        self.selected_version = None;
        self.awaiting_config = true;
        FlowAction::LoadConfig
    }

    /// The version at `index` of the list was clicked: it becomes the
    /// chosen one, or, when it already was (same name), nothing is chosen.
    pub fn toggle_version(&mut self, index: usize)
        requires
            old(self).config matches Some(c) && index < c.version_list@.len(),
        ensures
            ({
                let v = old(self).config->0.version_list@[index as int];
                if old(self).selected_version matches Some(s) && s.name@ == v.name@ {
                    *final(self) == (InstallerFlow { selected_version: None, ..*old(self) })
                } else {
                    &&& *final(self) == (InstallerFlow {
                        selected_version: final(self).selected_version,
                        ..*old(self)
                    })
                    &&& final(self).selected_version matches Some(s) && same_version(s, v)
                }
            }),
    {
        let is_selected = match (&self.selected_version, &self.config) {
            (Some(s), Some(c)) => str_eq(s.name.as_str(), c.version_list[index].name.as_str()),
            _ => false,
        };
        if is_selected {
            self.selected_version = None;
        } else {
            let copy = match &self.config {
                Some(c) => copy_version(&c.version_list[index]),
                None => {
                    assert(false);
                    return;
                },
            };
            self.selected_version = Some(copy);
        }
    }

    /// The temporary directory was edited or picked.
    pub fn set_temp_dir(&mut self, dir: String)
        ensures
            *final(self) == (InstallerFlow { temp_dir: dir, ..*old(self) }),
    {
        self.temp_dir = dir;
    }

    /// Whether the chosen version's size fits in a `u64` (the size sum of
    /// "Next" would overflow otherwise).
    pub fn required_space_fits(&self) -> (r: bool)
        ensures
            r == (self.selected_version matches Some(v) ==> total_size(v.install_list@)
                <= u64::MAX),
    {
        match &self.selected_version {
            Some(v) => v.total_install_size().is_some(),
            None => true,
        }
    }

    /// Moves to the drive screen and starts the drive search.
    fn go_to_usb_selection(&mut self) -> (r: FlowAction)
        ensures
            *final(self) == (InstallerFlow {
                state: AppState::UsbSelection,
                awaiting_usb: true,
                ..*old(self)
            }),
            r is DetectUsb,
    {
        self.state = AppState::UsbSelection;
        self.awaiting_usb = true;
        FlowAction::DetectUsb
    }

    /// "Next" on the version screen, with the free space of the temporary
    /// directory's disk (`None` when unknown): the space the chosen
    /// version needs is recorded; when the free space is known and too
    /// small, a warning is shown; otherwise the drive screen follows and
    /// the drive search starts.
    pub fn next_from_versions(&mut self, free_space: Option<u64>) -> (r: Option<FlowAction>)
        requires
            old(self).selected_version matches Some(v) ==> total_size(v.install_list@)
                <= u64::MAX,
        ensures
            match old(self).selected_version {
                None => *final(self) == *old(self) && r is None,
                Some(v) => {
                    let need = total_size(v.install_list@) as u64;
                    match free_space {
                        Some(avail) => if need > avail {
                            *final(self) == (InstallerFlow {
                                required_space: need,
                                available_space: avail,
                                show_disk_space_warning: true,
                                ..*old(self)
                            }) && r is None
                        } else {
                            *final(self) == (InstallerFlow {
                                required_space: need,
                                available_space: avail,
                                state: AppState::UsbSelection,
                                awaiting_usb: true,
                                ..*old(self)
                            }) && r matches Some(FlowAction::DetectUsb)
                        },
                        None => *final(self) == (InstallerFlow {
                            required_space: need,
                            state: AppState::UsbSelection,
                            awaiting_usb: true,
                            ..*old(self)
                        }) && r matches Some(FlowAction::DetectUsb),
                    }
                },
            },
    {
        let need = match &self.selected_version {
            None => {
                return None;
            },
            Some(v) => match v.total_install_size() {
                Some(n) => n,
                None => {
                    return None;
                },
            },
        };
        self.required_space = need;
        match free_space {
            Some(avail) => {
                self.available_space = avail;
                if need > avail {
                    self.show_disk_space_warning = true;
                    None
                } else {
                    Some(self.go_to_usb_selection())
                }
            },
            None => Some(self.go_to_usb_selection()),
        }
    }

    /// Another directory was picked from the space warning, with the free
    /// space of its disk (`None` when unknown): when the space is known
    /// and enough, the warning closes and the drive screen follows.
    pub fn other_dir_picked(&mut self, dir: String, free_space: Option<u64>) -> (r: Option<
        FlowAction,
    >)
        ensures
            match free_space {
                Some(avail) => if old(self).required_space <= avail {
                    *final(self) == (InstallerFlow {
                        temp_dir: dir,
                        available_space: avail,
                        show_disk_space_warning: false,
                        state: AppState::UsbSelection,
                        awaiting_usb: true,
                        ..*old(self)
                    }) && r matches Some(FlowAction::DetectUsb)
                } else {
                    *final(self) == (InstallerFlow {
                        temp_dir: dir,
                        available_space: avail,
                        ..*old(self)
                    }) && r is None
                },
                None => *final(self) == (InstallerFlow { temp_dir: dir, ..*old(self) }) && r is None,
            },
    {
        self.temp_dir = dir;
        match free_space {
            Some(avail) => {
                self.available_space = avail;
                if self.required_space <= avail {
                    self.show_disk_space_warning = false;
                    Some(self.go_to_usb_selection())
                } else {
                    None
                }
            },
            None => None,
        }
    }

    /// "Cancel" on the space warning.
    pub fn cancel_disk_space_warning(&mut self)
        ensures
            *final(self) == (InstallerFlow { show_disk_space_warning: false, ..*old(self) }),
    {
        self.show_disk_space_warning = false;
    }

    // ----- the drive screen -----

    /// "Back" on the drive screen.
    pub fn back_to_versions(&mut self)
        ensures
            *final(self) == (InstallerFlow { state: AppState::VersionSelection, ..*old(self) }),
    {
        self.state = AppState::VersionSelection;
    }

    /// The detected drive at `index` was clicked: it becomes the chosen
    /// one, or, when it already was (same device path), nothing is chosen.
    pub fn toggle_usb(&mut self, index: usize)
        requires
            index < old(self).usb_devices@.len(),
        ensures
            ({
                let d = old(self).usb_devices@[index as int];
                if old(self).selected_usb matches Some(s) && s.device_path@ == d.device_path@ {
                    *final(self) == (InstallerFlow { selected_usb: None, ..*old(self) })
                } else {
                    *final(self) == (InstallerFlow { selected_usb: Some(d), ..*old(self) })
                }
            }),
    {
        let is_selected = match &self.selected_usb {
            Some(s) => str_eq(s.device_path.as_str(), self.usb_devices[index].device_path.as_str()),
            None => false,
        };
        if is_selected {
            self.selected_usb = None;
        } else {
            self.selected_usb = Some(copy_device(&self.usb_devices[index]));
        }
    }

    /// The typed-in drive was edited.
    pub fn set_manual_drive(&mut self, drive: String)
        ensures
            *final(self) == (InstallerFlow { manual_drive_letter: drive, ..*old(self) }),
    {
        self.manual_drive_letter = drive;
    }

    /// "Next" is offered on the drive screen: a drive is chosen or typed in.
    pub fn can_proceed_from_usb(&self) -> (r: bool)
        ensures
            r == (self.selected_usb is Some || self.manual_drive_letter@.len() > 0),
    {
        self.selected_usb.is_some() || !self.manual_drive_letter.as_str().is_empty()
    }

    /// "Next" on the drive screen opens the format warning.
    pub fn next_from_usb(&mut self)
        ensures
            if old(self).selected_usb is Some || old(self).manual_drive_letter@.len() > 0 {
                *final(self) == (InstallerFlow { show_format_warning: true, ..*old(self) })
            } else {
                *final(self) == *old(self)
            },
    {
        if self.can_proceed_from_usb() {
            self.show_format_warning = true;
        }
    }

    /// The "I understand the risks" box was ticked or cleared.
    pub fn set_format_confirmed(&mut self, confirmed: bool)
        ensures
            *final(self) == (InstallerFlow { format_confirmed: confirmed, ..*old(self) }),
    {
        self.format_confirmed = confirmed;
    }

    /// "Cancel" on the format warning: it closes and the box is cleared.
    pub fn cancel_format_warning(&mut self)
        ensures
            *final(self) == (InstallerFlow {
                show_format_warning: false,
                format_confirmed: false,
                ..*old(self)
            }),
    {
        self.show_format_warning = false;
        self.format_confirmed = false;
    }

    /// Starts the download of the chosen version (see
    /// `download_started_from`).
    fn start_download(&mut self) -> (r: Option<FlowAction>)
        ensures
            download_started_from(*old(self), *final(self), r),
    {
        if self.download_started {
            return None;
        }
        self.download_started = true;
        self.download_progress = Vec::new();
        self.receiving_progress = true;
        self.can_skip_verification = true;
        match &self.selected_version {
            Some(v) => {
                if v.install_list.len() == 0 {
                    return None;
                }
                let mut list: Vec<DownloadProgress> = Vec::new();
                let mut i: usize = 0;
                while i < v.install_list.len()
                    invariant
                        i <= v.install_list@.len(),
                        list@.len() == i,
                        forall|k: int|
                            0 <= k < i ==> {
                                let p = #[trigger] list@[k];
                                &&& p.filename == v.install_list@[k].filename
                                &&& p.downloaded == 0
                                &&& p.total == v.install_list@[k].size
                                &&& p.status is Pending
                                &&& p.verified_bytes == 0
                            },
                    decreases v.install_list.len() - i,
                {
                    let f = &v.install_list[i];
                    list.push(
                        DownloadProgress {
                            filename: f.filename.clone(),
                            downloaded: 0,
                            total: f.size,
                            status: DownloadStatus::Pending,
                            verified_bytes: 0,
                        },
                    );
                    i += 1;
                }
                let files = copy_install_list(&v.install_list);
                let dir = self.temp_dir.clone();
                self.download_progress = list;
                Some(FlowAction::StartDownload { files, temp_dir: dir })
            },
            None => None,
        }
    }

    /// "Confirm" on the format warning (offered once the box is ticked):
    /// the warning closes and the download starts.
    pub fn confirm_format_warning(&mut self) -> (r: Option<FlowAction>)
        ensures
            if old(self).format_confirmed {
                exists|mid: InstallerFlow|
                    mid == (InstallerFlow {
                        show_format_warning: false,
                        state: AppState::Downloading,
                        ..*old(self)
                    }) && download_started_from(mid, *final(self), r)
            } else {
                *final(self) == *old(self) && r is None
            },
    {
        if !self.format_confirmed {
            return None;
        }
        self.show_format_warning = false;
        self.state = AppState::Downloading;
        let ghost mid = *self;
        let r = self.start_download();
        assert(download_started_from(mid, *self, r));
        r
    }

    // ----- the download screen -----

    /// "Skip current file verification" for `filename`: the confirmation
    /// opens.
    pub fn request_skip_verification(&mut self, filename: String)
        ensures
            *final(self) == (InstallerFlow {
                verifying_filename: Some(filename),
                show_skip_verify_dialog: true,
                ..*old(self)
            }),
    {
        self.verifying_filename = Some(filename);
        self.show_skip_verify_dialog = true;
    }

    /// "Cancel" on the skip confirmation.
    pub fn cancel_skip_verification(&mut self)
        ensures
            *final(self) == (InstallerFlow {
                verifying_filename: None,
                show_skip_verify_dialog: false,
                ..*old(self)
            }),
    {
        self.show_skip_verify_dialog = false;
        self.verifying_filename = None;
    }

    /// "Skip" on the skip confirmation: the running download is told to
    /// skip its check, when it can be.
    pub fn confirm_skip_verification(&mut self) -> (r: Option<FlowAction>)
        ensures
            *final(self) == (InstallerFlow {
                verifying_filename: None,
                show_skip_verify_dialog: false,
                ..*old(self)
            }),
            old(self).can_skip_verification ==> r matches Some(FlowAction::SkipVerification),
            !old(self).can_skip_verification ==> r is None,
    {
        self.show_skip_verify_dialog = false;
        self.verifying_filename = None;
        if self.can_skip_verification {
            Some(FlowAction::SkipVerification)
        } else {
            None
        }
    }

    /// "Next: format" once there are files and every one is done.
    pub fn next_to_format_confirmation(&mut self)
        ensures
            if old(self).download_progress@.len() > 0 && all_done(old(self).download_progress@) {
                *final(self) == (InstallerFlow { state: AppState::FormatConfirmation, ..*old(self) })
            } else {
                *final(self) == *old(self)
            },
    {
        if self.download_progress.len() > 0 && all_downloads_done(&self.download_progress) {
            self.state = AppState::FormatConfirmation;
        }
    }

    /// Clears the download and copy state for a new attempt.
    fn reset_download_state(&mut self)
        ensures
            download_state_cleared(*old(self), *final(self)),
    {
        self.download_started = false;
        self.download_progress = Vec::new();
        self.receiving_progress = false;
        self.awaiting_format_copy = false;
        self.receiving_copy_progress = false;
        self.format_copy_status = String::new();
        self.copy_progress = Vec::new();
        self.current_copy_file = String::new();
        self.format_confirmed = false;
        self.show_format_warning = false;
    }

    /// Clears everything chosen and done, keeping the screen, the
    /// configuration and the temporary directory.
    fn reset_all_state(&mut self)
        ensures
            all_state_cleared(*old(self), *final(self)),
    {
        self.selected_version = None;
        self.selected_usb = None;
        self.manual_drive_letter = String::new();
        self.usb_devices = Vec::new();
        self.awaiting_usb = false;
        self.reset_download_state();
        self.error_message = None;
    }

    /// "Retry" after a failed download: the download state is cleared and
    /// the download starts again.
    pub fn retry_download(&mut self) -> (r: Option<FlowAction>)
        ensures
            exists|mid: InstallerFlow|
                download_state_cleared(*old(self), mid) && download_started_from(
                    mid,
                    *final(self),
                    r,
                ),
    {
        self.reset_download_state();
        let ghost mid = *self;
        let r = self.start_download();
        assert(download_state_cleared(*old(self), mid));
        r
    }

    /// "Back to version selection" after a failed download, and "Return
    /// home" on the finished and error screens: everything is cleared and
    /// the versions are shown.
    pub fn return_to_versions(&mut self)
        ensures
            exists|mid: InstallerFlow|
                all_state_cleared(*old(self), mid) && *final(self) == (InstallerFlow {
                    state: AppState::VersionSelection,
                    ..mid
                }),
    {
        self.reset_all_state();
        let ghost mid = *self;
        self.state = AppState::VersionSelection;
        assert(*self == (InstallerFlow { state: AppState::VersionSelection, ..mid }));
    }

    // ----- the final confirmation -----

    /// "Back" on the final confirmation.
    pub fn back_to_usb(&mut self)
        ensures
            *final(self) == (InstallerFlow { state: AppState::UsbSelection, ..*old(self) }),
    {
        self.state = AppState::UsbSelection;
    }

    /// "Start format and install": the formatting screen shows and the
    /// chosen drive, or else the typed-in drive as a raw device path, is
    /// formatted; with neither, the format reports that no drive was
    /// chosen.
    pub fn start_format(&mut self) -> (r: FlowAction)
        ensures
            *final(self) == (InstallerFlow {
                state: AppState::Formatting,
                awaiting_format_copy: true,
                ..*old(self)
            }),
            r matches FlowAction::StartFormat { device_path } && match old(self).selected_usb {
                Some(d) => device_path matches Ok(p) && p == d.device_path,
                None => if old(self).manual_drive_letter@.len() > 0 {
                    device_path matches Ok(p) && p@ == manual_raw_path(
                        old(self).manual_drive_letter@,
                    )
                } else {
                    device_path matches Err(e) && e@ == "未选择U盘设备"@
                },
            },
    {
        self.state = AppState::Formatting;
        self.awaiting_format_copy = true;
        let device_path = match &self.selected_usb {
            Some(d) => Ok(d.device_path.clone()),
            None => {
                if !self.manual_drive_letter.as_str().is_empty() {
                    let cs = chars_of(self.manual_drive_letter.as_str());
                    let end = trim_end_len(cs.as_slice(), ':');
                    let mut p = String::from_str("\\\\.\\");
                    let mut i: usize = 0;
                    while i < end
                        invariant
                            i <= end <= cs@.len(),
                            p@ == "\\\\.\\"@ + ascii_upper_all(cs@.subrange(0, i as int)),
                        decreases end - i,
                    {
                        push_char(&mut p, char_to_ascii_uppercase(cs[i]));
                        assert(cs@.subrange(0, i + 1) == cs@.subrange(0, i as int).push(
                            cs@[i as int],
                        ));
                        i += 1;
                    }
                    p.append(":");
                    Ok(p)
                } else {
                    Err(String::from_str("未选择U盘设备"))
                }
            },
        };
        FlowAction::StartFormat { device_path }
    }
}

} // verus!
