//! The installer configuration: the versions on offer and the files that
//! each version installs.
use vstd::prelude::*;

use crate::text::str_eq;

verus! {

/// The configuration that the installer service publishes.
#[derive(Debug, Clone)]
pub struct InstallerConfig {
    pub latest_version: String,
    pub version_list: Vec<VersionInfo>,
}

/// One installable version.
#[derive(Debug, Clone)]
pub struct VersionInfo {
    pub name: String,
    pub summary: String,
    pub install_list: Vec<InstallFile>,
}

/// One file of a version, with the mirrors it can be fetched from.
#[derive(Debug, Clone)]
pub struct InstallFile {
    pub filename: String,
    pub size: u64,
    pub sha256: String,
    pub url_list: Vec<String>,
}

/// `i` is the first position in `list` of a version called `name`.
pub open spec fn is_first_named(list: Seq<VersionInfo>, name: Seq<char>, i: int) -> bool {
    &&& 0 <= i < list.len()
    &&& list[i].name@ == name
    &&& forall|j: int| 0 <= j < i ==> (#[trigger] list[j]).name@ != name
}

/// Some version in `list` is called `name`.
pub open spec fn has_named(list: Seq<VersionInfo>, name: Seq<char>) -> bool {
    exists|i: int| 0 <= i < list.len() && (#[trigger] list[i]).name@ == name
}

/// The total number of bytes of `files`.
pub open spec fn total_size(files: Seq<InstallFile>) -> nat
    decreases files.len(),
{
    if files.len() == 0 {
        0
    } else {
        total_size(files.drop_last()) + files.last().size as nat
    }
}

/// The position of the first version of `list` called `name`, if any.
fn position_of(list: &Vec<VersionInfo>, name: &str) -> (r: Option<usize>)
    ensures
        match r {
            Some(i) => is_first_named(list@, name@, i as int),
            None => !has_named(list@, name@),
        },
{
    let mut i: usize = 0;
    while i < list.len()
        invariant
            i <= list@.len(),
            forall|j: int| 0 <= j < i ==> (#[trigger] list@[j]).name@ != name@,
        decreases list.len() - i,
    {
        if str_eq(list[i].name.as_str(), name) {
            return Some(i);
        }
        i += 1;
    }
    None
}

impl InstallerConfig {
    /// The first version called `name`, or `None` when there is none.
    pub fn get_version_by_name(&self, name: &str) -> (r: Option<&VersionInfo>)
        ensures
            match r {
                Some(v) => exists|i: int|
                    is_first_named(self.version_list@, name@, i) && *v == self.version_list@[i],
                None => !has_named(self.version_list@, name@),
            },
    {
        match position_of(&self.version_list, name) {
            Some(i) => Some(&self.version_list[i]),
            None => None,
        }
    }

    /// The first version called as `latest_version` says; when there is
    /// none, the first version of the list; `None` for an empty list.
    pub fn get_latest_version(&self) -> (r: Option<&VersionInfo>)
        ensures
            has_named(self.version_list@, self.latest_version@) ==> (r matches Some(v)
                && exists|i: int|
                is_first_named(self.version_list@, self.latest_version@, i) && *v
                    == self.version_list@[i]),
            !has_named(self.version_list@, self.latest_version@) ==> match r {
                Some(v) => self.version_list@.len() > 0 && *v == self.version_list@[0],
                None => self.version_list@.len() == 0,
            },
    {
        match position_of(&self.version_list, self.latest_version.as_str()) {
            Some(i) => Some(&self.version_list[i]),
            None => {
                if self.version_list.len() > 0 {
                    Some(&self.version_list[0])
                } else {
                    None
                }
            },
        }
    }
}

impl VersionInfo {
    /// The number of bytes that the version's files take together, or
    /// `None` when that does not fit in a `u64`.
    pub fn total_install_size(&self) -> (r: Option<u64>)
        ensures
            match r {
                Some(n) => n == total_size(self.install_list@),
                None => total_size(self.install_list@) > u64::MAX,
            },
    {
        let mut acc: u64 = 0;
        let mut i: usize = 0;
        while i < self.install_list.len()
            invariant
                i <= self.install_list@.len(),
                acc == total_size(self.install_list@.take(i as int)),
            decreases self.install_list.len() - i,
        {
            assert(self.install_list@.take(i + 1).drop_last() == self.install_list@.take(i as int));
            let s = self.install_list[i].size;
            if acc > u64::MAX - s {
                proof {
                    lemma_total_size_prefix(self.install_list@, (i + 1) as nat);
                }
                return None;
            }
            acc = acc + s;
            i += 1;
        }
        assert(self.install_list@.take(i as int) == self.install_list@);
        Some(acc)
    }
}

/// The files of a prefix never weigh more than the whole list.
pub proof fn lemma_total_size_prefix(files: Seq<InstallFile>, k: nat)
    requires
        k <= files.len(),
    ensures
        total_size(files.take(k as int)) <= total_size(files),
    decreases files.len() - k,
{
    if k < files.len() {
        lemma_total_size_prefix(files, k + 1);
        assert(files.take(k + 1 as int).drop_last() == files.take(k as int));
    }
    assert(files.take(files.len() as int) == files);
}

} // verus!
