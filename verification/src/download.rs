//! Downloading the install files: where files and their parts are kept,
//! the split of a file into ranges fetched in parallel, resuming a partly
//! fetched range, the order in which mirrors are tried, and the SHA-256
//! check of a finished file.
use vstd::prelude::*;

use sha2::Digest;

use crate::text::{
    ascii_lower, ascii_lower_all, ascii_upper, ascii_upper_all, char_to_ascii_lowercase, chars_of,
    concat, decimal, push_decimal,
};

verus! {

broadcast use vstd::string::group_string_axioms;

/// How many ranges one file is split into, each fetched by its own task.
pub const DOWNLOAD_THREADS_PER_FILE: usize = 16;

/// How many files are fetched at the same time.
pub const MAX_CONCURRENT_FILES: usize = 5;

// ---------------------------------------------------------------------------
// Progress
// ---------------------------------------------------------------------------

/// Where the fetch of one file stands.
#[derive(Debug, Clone, PartialEq)]
pub enum DownloadStatus {
    Pending,
    Downloading,
    Verifying,
    Completed,
    Failed(String),
    Skipped,
}

/// A progress report for one file: bytes fetched of the total, and during
/// the check, bytes hashed so far.
#[derive(Debug, Clone)]
pub struct DownloadProgress {
    pub filename: String,
    pub downloaded: u64,
    pub total: u64,
    pub status: DownloadStatus,
    pub verified_bytes: u64,
}

/// A progress report with nothing hashed.
pub fn progress_report(filename: &str, downloaded: u64, total: u64, status: DownloadStatus) -> (r:
    DownloadProgress)
    ensures
        r.filename@ == filename@,
        r.downloaded == downloaded,
        r.total == total,
        r.status == status,
        r.verified_bytes == 0,
{
    DownloadProgress {
        filename: String::from_str(filename),
        downloaded,
        total,
        status,
        verified_bytes: 0,
    }
}

// ---------------------------------------------------------------------------
// Paths
// ---------------------------------------------------------------------------

/// Where file `name` is kept in `dir`: `dir/name`.
pub fn file_path_for(dir: &str, name: &str) -> (r: String)
    ensures
        r@ == dir@ + "/"@ + name@,
{
    let mut r = String::from_str(dir);
    r.append("/");
    r.append(name);
    r
}

/// Where a file is written while it is fetched: `path.tmp`.
pub fn temp_path_for(path: &str) -> (r: String)
    ensures
        r@ == path@ + ".tmp"@,
{
    concat(path, ".tmp")
}

/// The directory of the ranges of a file being fetched: `temp.chunks`.
pub fn chunk_dir_for(temp_path: &str) -> (r: String)
    ensures
        r@ == temp_path@ + ".chunks"@,
{
    concat(temp_path, ".chunks")
}

/// The file of range `id`: `dir/chunk_id`.
pub fn chunk_path_for(dir: &str, id: usize) -> (r: String)
    ensures
        r@ == dir@ + "/chunk_"@ + decimal(id as nat),
{
    let mut r = String::from_str(dir);
    r.append("/chunk_");
    push_decimal(&mut r, id as u64);
    r
}

// ---------------------------------------------------------------------------
// Ranges
// ---------------------------------------------------------------------------

/// The first byte of range `i` of a file of `total` bytes.
pub open spec fn chunk_start(total: nat, i: nat) -> nat {
    i * (total / 16)
}

/// The last byte of range `i`: the last range runs to the end of the file.
pub open spec fn chunk_end(total: nat, i: nat) -> int {
    if i == 15 {
        total - 1
    } else {
        (i + 1) * (total / 16) - 1
    }
}

/// The bytes `[start, end]` that task `thread_id` fetches of a file of
/// `total` bytes (the split needs at least one byte per task).
pub fn chunk_range(total: u64, thread_id: usize) -> (r: (u64, u64))
    requires
        total >= 16,
        thread_id < 16,
    ensures
        r.0 == chunk_start(total as nat, thread_id as nat),
        r.1 == chunk_end(total as nat, thread_id as nat),
{
    let chunk_size = total / 16;
    let id = thread_id as u64;
    proof {
        assert(id * chunk_size <= 15 * chunk_size) by (nonlinear_arith)
            requires
                id <= 15,
        ;
        assert((id + 1) * chunk_size <= 16 * chunk_size) by (nonlinear_arith)
            requires
                id <= 15,
        ;
        assert((id + 1) * chunk_size >= chunk_size) by (nonlinear_arith)
            requires
                id >= 0,
        ;
    }
    let start = id * chunk_size;
    let end = if thread_id == 15 {
        total - 1
    } else {
        (id + 1) * chunk_size - 1
    };
    (start, end)
}

/// The ranges of a file of at least 16 bytes run from its first byte to
/// its last without gap or overlap: range 0 starts at byte 0, each range
/// starts right after the one before it ends, no range is empty, and the
/// last one ends at the last byte.
pub proof fn lemma_chunks_partition_file(total: nat)
    requires
        total >= 16,
    ensures
        chunk_start(total, 0) == 0,
        chunk_end(total, 15) == total - 1,
        forall|i: nat| i < 15 ==> #[trigger] chunk_start(total, i + 1) == chunk_end(total, i) + 1,
        forall|i: nat| i < 16 ==> #[trigger] chunk_start(total, i) <= chunk_end(total, i),
{
    let c = total / 16;
    assert(c >= 1);
    assert(16 * c <= total);
    assert forall|i: nat| i < 15 implies #[trigger] chunk_start(total, i + 1) == chunk_end(total, i)
        + 1 by {
        assert((i + 1) * c == (i + 1) * c);
    }
    assert forall|i: nat| i < 16 implies #[trigger] chunk_start(total, i) <= chunk_end(total, i) by {
        if i == 15 {
            assert(15 * c <= total - 1) by (nonlinear_arith)
                requires
                    16 * c <= total,
                    c >= 1,
            ;
        } else {
            assert(i * c + c == (i + 1) * c) by (nonlinear_arith);
        }
    }
}

/// What a range task does, given what of its range is already on disk.
#[derive(Debug, Clone, Copy, PartialEq, Eq, Structural)]
pub enum ChunkPlan {
    /// The range file already holds the whole range (of this many bytes).
    AlreadyComplete(u64),
    /// Fetch bytes `from..=to`, appending to the range file when `append`,
    /// otherwise writing it anew (after deleting it first when
    /// `discard_existing`).
    Fetch { from: u64, to: u64, append: bool, discard_existing: bool },
}

/// The plan for range `[start, end]` when the range file holds `existing`
/// bytes (`None`: there is no range file).
pub open spec fn chunk_plan_for(start: u64, end: u64, existing: Option<u64>) -> ChunkPlan {
    let expected = end - start + 1;
    match existing {
        Some(len) if len == expected => ChunkPlan::AlreadyComplete(len),
        _ => {
            let have: u64 = match existing {
                Some(len) => len,
                None => 0,
            };
            let resume = start + have;
            let resuming = have > 0 && resume <= end;
            ChunkPlan::Fetch {
                from: if resuming {
                    resume as u64
                } else {
                    start
                },
                to: end,
                append: resuming,
                discard_existing: resume > end,
            }
        },
    }
}

/// The plan for range `[start, end]` when the range file holds `existing`
/// bytes.
pub fn plan_chunk(start: u64, end: u64, existing: Option<u64>) -> (r: ChunkPlan)
    requires
        start <= end < u64::MAX,
        existing matches Some(len) ==> start + len <= u64::MAX,
    ensures
        r == chunk_plan_for(start, end, existing),
{
    let expected = end - start + 1;
    if let Some(len) = existing {
        if len == expected {
            return ChunkPlan::AlreadyComplete(len);
        }
    }
    let have = match existing {
        Some(len) => len,
        None => 0,
    };
    let resume = start + have;
    let resuming = have > 0 && resume <= end;
    ChunkPlan::Fetch {
        from: if resuming {
            resume
        } else {
            start
        },
        to: end,
        append: resuming,
        discard_existing: resume > end,
    }
}

/// A resumed fetch asks for exactly the bytes that are missing from the
/// range: it starts where the range file ends and stops at the range's
/// last byte; a fresh fetch asks for the whole range.
pub proof fn lemma_resume_fetches_the_rest(start: u64, end: u64, existing: Option<u64>)
    requires
        start <= end < u64::MAX,
        existing matches Some(len) ==> start + len <= u64::MAX,
    ensures
        chunk_plan_for(start, end, existing) matches ChunkPlan::Fetch { from, to, append, .. }
            ==> to == end && (append ==> (existing matches Some(len) && from == start + len
            && from <= end)) && (!append ==> from == start),
{
}

/// What a range task does, by what its range file holds: the range counts as
/// complete exactly when the file holds the whole range; a file holding
/// part of the range is resumed right after its last byte and appended to;
/// with no file, or an empty one, the whole range is fetched; a file longer
/// than the range is deleted and the whole range fetched again.
pub proof fn lemma_plan_by_range_file(start: u64, end: u64, existing: Option<u64>)
    requires
        start <= end < u64::MAX,
        existing matches Some(len) ==> start + len <= u64::MAX,
    ensures
        (chunk_plan_for(start, end, existing) is AlreadyComplete) <==> existing == Some(
            (end - start + 1) as u64,
        ),
        chunk_plan_for(start, end, existing) matches ChunkPlan::AlreadyComplete(n) ==> n == end
            - start + 1,
        forall|len: u64|
            existing == Some(len) && 0 < len < end - start + 1 ==> #[trigger] chunk_plan_for(
                start,
                end,
                Some(len),
            ) == (ChunkPlan::Fetch {
            from: (start + len) as u64,
            to: end,
            append: true,
            discard_existing: false,
        }),
        existing is None || existing == Some(0u64) ==> chunk_plan_for(start, end, existing) == (
        ChunkPlan::Fetch { from: start, to: end, append: false, discard_existing: false }),
        forall|len: u64|
            existing == Some(len) && len > end - start + 1 ==> #[trigger] chunk_plan_for(
                start,
                end,
                Some(len),
            ) == (ChunkPlan::Fetch { from: start, to: end, append: false, discard_existing: true }),
{
}

/// The `Range` header that asks for bytes `from..=to`.
pub fn range_header(from: u64, to: u64) -> (r: String)
    ensures
        r@ == "bytes="@ + decimal(from as nat) + "-"@ + decimal(to as nat),
{
    let mut r = String::from_str("bytes=");
    push_decimal(&mut r, from);
    r.append("-");
    push_decimal(&mut r, to);
    r
}

/// Whether a range request answered with HTTP status `code` is accepted:
/// any success, and 206 Partial Content.
pub fn chunk_status_accepted(code: u16) -> (r: bool)
    ensures
        r == ((200 <= code && code < 300) || code == 206),
{
    (200 <= code && code < 300) || code == 206
}

/// Whether an id is `k`.
pub open spec fn id_is(k: usize) -> spec_fn(usize) -> bool {
    |x: usize| x == k
}

/// Count of `k` in `ids`.
pub open spec fn count_of(ids: Seq<usize>, k: usize) -> nat {
    ids.filter(id_is(k)).len()
}

/// The ids of `ids` grouped by value, smallest first: every id below `n`
/// as often as it occurs.
pub open spec fn ids_in_order(ids: Seq<usize>, n: nat) -> Seq<usize>
    decreases n,
{
    if n == 0 {
        seq![]
    } else {
        ids_in_order(ids, (n - 1) as nat) + ids.filter(id_is((n - 1) as usize))
    }
}

/// The order in which range files are joined: the ids of the finished
/// tasks, smallest first.
pub fn merge_order(ids: &[usize]) -> (r: Vec<usize>)
    ensures
        r@ == ids_in_order(ids@, 16),
{
    let mut r: Vec<usize> = Vec::new();
    let mut k: usize = 0;
    while k < 16
        invariant
            k <= 16,
            r@ == ids_in_order(ids@, k as nat),
        decreases 16 - k,
    {
        let ghost before = r@;
        let mut j: usize = 0;
        while j < ids.len()
            invariant
                j <= ids@.len(),
                r@ == before + ids@.take(j as int).filter(id_is(k)),
            decreases ids.len() - j,
        {
            proof {
                assert(ids@.take(j + 1).drop_last() == ids@.take(j as int));
                reveal_with_fuel(Seq::<usize>::filter, 1);
            }
            if ids[j] == k {
                r.push(k);
            }
            j += 1;
        }
        assert(ids@.take(ids@.len() as int) == ids@);
        k += 1;
    }
    r
}

/// Files are joined by task number, not in the order in which the tasks
/// finished: when each of the task ids occurs once among the finished ids,
/// in whatever order, the join order is 0, 1, 2, and so on.
pub proof fn lemma_merge_order_follows_task_ids(ids: Seq<usize>)
    requires
        forall|k: usize| k < 16 ==> #[trigger] count_of(ids, k) == 1,
    ensures
        ids_in_order(ids, 16) == Seq::new(16, |i: int| i as usize),
{
    lemma_ids_in_order_when_each_once(ids, 16);
}

proof fn lemma_ids_in_order_when_each_once(ids: Seq<usize>, n: nat)
    requires
        n <= 16,
        forall|k: usize| k < 16 ==> #[trigger] count_of(ids, k) == 1,
    ensures
        ids_in_order(ids, n) == Seq::new(n, |i: int| i as usize),
    decreases n,
{
    if n > 0 {
        lemma_ids_in_order_when_each_once(ids, (n - 1) as nat);
        let k = (n - 1) as usize;
        assert(count_of(ids, k) == 1);
        ids.filter_lemma(id_is(k));
        assert(ids.filter(id_is(k)) =~= seq![k]);
        assert(ids_in_order(ids, n) =~= Seq::new(n, |i: int| i as usize));
    }
}

// ---------------------------------------------------------------------------
// Trying the mirrors
// ---------------------------------------------------------------------------

/// The first thing to do for a file of `expected_size` bytes when the
/// target path holds a file of `existing_len` bytes (`None`: no file).
#[derive(Debug, Clone, Copy, PartialEq, Eq, Structural)]
pub enum FirstStep {
    /// An empty file is simply created.
    CreateEmpty,
    /// A file of the right size is already there: check it.
    CheckExisting,
    /// Fetch the file from the mirrors.
    Fetch,
}

/// The first thing to do for a file of `expected_size` bytes.
pub fn first_step(expected_size: u64, existing_len: Option<u64>) -> (r: FirstStep)
    ensures
        r == if expected_size == 0 {
            FirstStep::CreateEmpty
        } else if existing_len == Some(expected_size) {
            FirstStep::CheckExisting
        } else {
            FirstStep::Fetch
        },
{
    if expected_size == 0 {
        FirstStep::CreateEmpty
    } else {
        match existing_len {
            Some(len) if len == expected_size => FirstStep::CheckExisting,
            _ => FirstStep::Fetch,
        }
    }
}

/// The message recorded when a fetched file fails its check.
pub fn verification_failed_message() -> (r: String)
    ensures
        r@ == "SHA256 verification failed"@,
{
    String::from_str("SHA256 verification failed")
}

/// The mirrors of one file, tried one after another in the order listed.
pub struct MirrorAttempts {
    url_count: usize,
    tried: usize,
    last_error: Option<String>,
}

impl MirrorAttempts {
    /// How many mirrors there are.
    pub closed spec fn count(self) -> nat {
        self.url_count as nat
    }

    /// How many mirrors have failed so far.
    pub closed spec fn failed(self) -> nat {
        self.tried as nat
    }

    /// The error of the latest failed mirror.
    pub closed spec fn last_failure(self) -> Option<Seq<char>> {
        match self.last_error {
            Some(e) => Some(e@),
            None => None,
        }
    }

    pub closed spec fn wf(self) -> bool {
        self.tried <= self.url_count
    }

    /// No mirror tried yet.
    pub fn new(url_count: usize) -> (r: Self)
        ensures
            r.wf(),
            r.count() == url_count,
            r.failed() == 0,
            r.last_failure() is None,
    {
        MirrorAttempts { url_count, tried: 0, last_error: None }
    }

    /// The position of the next mirror to try, or `None` once all failed.
    pub fn next_url(&self) -> (r: Option<usize>)
        requires
            self.wf(),
        ensures
            match r {
                Some(i) => i == self.failed() && i < self.count(),
                None => self.failed() == self.count(),
            },
    {
        if self.tried < self.url_count {
            Some(self.tried)
        } else {
            None
        }
    }

    /// Records that the mirror just tried failed with `error`.
    pub fn record_failure(&mut self, error: String)
        requires
            old(self).wf(),
            old(self).failed() < old(self).count(),
        ensures
            final(self).wf(),
            final(self).count() == old(self).count(),
            final(self).failed() == old(self).failed() + 1,
            final(self).last_failure() == Some(error@),
    {
        self.tried = self.tried + 1;
        self.last_error = Some(error);
    }

    /// The failure reported once every mirror failed: the text shown in the
    /// progress (the last error, or nothing) and the error returned (the
    /// last error, or "All download URLs failed" when there was no mirror).
    pub fn failure(&self) -> (r: (String, String))
        ensures
            r.0@ == match self.last_failure() {
                Some(e) => e,
                None => Seq::<char>::empty(),
            },
            r.1@ == match self.last_failure() {
                Some(e) => e,
                None => "All download URLs failed"@,
            },
    {
        match &self.last_error {
            Some(e) => (e.clone(), e.clone()),
            None => (String::new(), String::from_str("All download URLs failed")),
        }
    }
}

// ---------------------------------------------------------------------------
// SHA-256
// ---------------------------------------------------------------------------

/// A running SHA-256 computation (`sha2::Sha256`).
#[verifier::external_body]
pub struct Sha256State {
    inner: sha2::Sha256,
}

/// The bytes a running SHA-256 computation has taken in so far.
pub uninterp spec fn sha256_input(h: Sha256State) -> Seq<u8>;

/// The SHA-256 digest of `data`.
pub uninterp spec fn sha256_of(data: Seq<u8>) -> Seq<u8>;

/// `Sha256::new`: a computation that has taken in nothing.
#[verifier::external_body]
fn sha256_new() -> (h: Sha256State)
    ensures
        sha256_input(h) == Seq::<u8>::empty(),
{
    Sha256State { inner: sha2::Sha256::new() }
}

/// `Digest::update`: takes in `data` after what came before.
#[verifier::external_body]
fn sha256_update(h: &mut Sha256State, data: &[u8])
    ensures
        sha256_input(*final(h)) == sha256_input(*old(h)) + data@,
{
    h.inner.update(data)
}

/// `Digest::finalize`: the 32-byte digest of everything taken in.
#[verifier::external_body]
fn sha256_finalize(h: Sha256State) -> (d: Vec<u8>)
    ensures
        d@ == sha256_of(sha256_input(h)),
        d@.len() == 32,
{
    h.inner.finalize().to_vec()
}

/// The lower-case hexadecimal digit for `n < 16`.
pub open spec fn hex_digit(n: u8) -> char {
    if n < 10 {
        (n + 48) as char
    } else {
        (n + 87) as char
    }
}

/// The lower-case hexadecimal text of `data`, two digits per byte.
pub open spec fn hex_lower(data: Seq<u8>) -> Seq<char>
    decreases data.len(),
{
    if data.len() == 0 {
        seq![]
    } else {
        hex_lower(data.drop_last()) + seq![hex_digit(data.last() / 16), hex_digit(data.last() % 16)]
    }
}

/// `hex::encode`: the lower-case hexadecimal text of `data`.
#[verifier::external_body]
fn hex_encode(data: &[u8]) -> (r: String)
    ensures
        r@ == hex_lower(data@),
{
    hex::encode(data)
}

/// The SHA-256 check of one file, fed with its contents piece by piece.
pub struct FileDigest {
    state: Sha256State,
    hashed: u64,
}

impl FileDigest {
    /// The contents taken in so far.
    pub closed spec fn input(self) -> Seq<u8> {
        sha256_input(self.state)
    }

    /// How many bytes have been taken in.
    pub closed spec fn hashed_bytes(self) -> nat {
        self.hashed as nat
    }

    pub closed spec fn wf(self) -> bool {
        self.hashed == sha256_input(self.state).len()
    }

    pub fn new() -> (r: Self)
        ensures
            r.wf(),
            r.input() == Seq::<u8>::empty(),
            r.hashed_bytes() == 0,
    {
        FileDigest { state: sha256_new(), hashed: 0 }
    }

    /// Takes in the next piece of the file.
    pub fn absorb(&mut self, piece: &[u8])
        requires
            old(self).wf(),
            old(self).hashed_bytes() + piece@.len() <= u64::MAX,
        ensures
            final(self).wf(),
            final(self).input() == old(self).input() + piece@,
            final(self).hashed_bytes() == old(self).hashed_bytes() + piece@.len(),
    {
        sha256_update(&mut self.state, piece);
        self.hashed = self.hashed + piece.len() as u64;
    }

    /// How many bytes have been taken in.
    pub fn hashed(&self) -> (r: u64)
        ensures
            r == self.hashed_bytes(),
    {
        self.hashed
    }

    /// Whether the digest of everything taken in is `expected`, written in
    /// hexadecimal with letters of either case.
    pub fn matches(self, expected: &str) -> (r: bool)
        ensures
            r == digest_matches(sha256_of(self.input()), expected@),
    {
        let digest = sha256_finalize(self.state);
        let hex = hex_encode(digest.as_slice());
        proof {
            lemma_hex_is_lower(digest@);
        }
        same_lower_case(hex.as_str(), expected)
    }
}

/// The hexadecimal digest of a file matches `expected` when `expected`,
/// with ASCII letters lowered, is that text. (`str::to_lowercase` of a
/// text holding anything outside ASCII never yields only ASCII hex
/// digits, so lowering ASCII letters decides the same equality.)
pub open spec fn digest_matches(digest: Seq<u8>, expected: Seq<char>) -> bool {
    hex_lower(digest) == ascii_lower_all(expected)
}

/// `computed` (already lower case) equals `expected` with its ASCII letters
/// lowered.
fn same_lower_case(computed: &str, expected: &str) -> (r: bool)
    requires
        ascii_lower_all(computed@) == computed@,
    ensures
        r == (computed@ == ascii_lower_all(expected@)),
{
    let a = chars_of(computed);
    let b = chars_of(expected);
    if a.len() != b.len() {
        return false;
    }
    let mut i: usize = 0;
    while i < a.len()
        invariant
            i <= a@.len() == b@.len(),
            a@ == computed@,
            b@ == expected@,
            forall|j: int| 0 <= j < i ==> a@[j] == ascii_lower(#[trigger] b@[j]),
        decreases a.len() - i,
    {
        if a[i] != char_to_ascii_lowercase(b[i]) {
            assert(ascii_lower_all(expected@)[i as int] != computed@[i as int]);
            return false;
        }
        i += 1;
    }
    assert(computed@ =~= ascii_lower_all(expected@));
    true
}

/// The letter case of an expected digest does not matter: a digest matches
/// a text exactly when it matches that text with its ASCII letters raised.
pub proof fn lemma_digest_match_ignores_case(digest: Seq<u8>, expected: Seq<char>)
    ensures
        digest_matches(digest, expected) == digest_matches(digest, ascii_upper_all(expected)),
{
    assert forall|i: int| 0 <= i < expected.len() implies #[trigger] ascii_lower(
        ascii_upper(expected[i]),
    ) == ascii_lower(expected[i]) by {
        let c = expected[i];
        if 'a' <= c && c <= 'z' {
            assert(ascii_upper(c) as u32 == c as u32 - 32);
        }
    }
    assert(ascii_lower_all(ascii_upper_all(expected)) =~= ascii_lower_all(expected));
}

/// Lower-case hexadecimal text is its own ASCII lower case.
proof fn lemma_hex_is_lower(data: Seq<u8>)
    ensures
        ascii_lower_all(hex_lower(data)) == hex_lower(data),
    decreases data.len(),
{
    if data.len() > 0 {
        lemma_hex_is_lower(data.drop_last());
    }
    assert(ascii_lower_all(hex_lower(data)) =~= hex_lower(data));
}

} // verus!
