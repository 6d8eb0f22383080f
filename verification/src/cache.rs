//! The taxonomy cache: a versioned, time-bounded snapshot of the license
//! taxonomy. Reading and writing the file is the caller's business; this
//! module decides what a snapshot is worth and how its state is reported.
use crate::licenses::Taxonomy;
use crate::text::{decimal, digit_char, push_decimal, push_str, string_from_chars};
use vstd::prelude::*;

verus! {

/// The directory, below the user's cache directory, in which the snapshot is kept.
pub const CACHE_SUBDIR: &'static str = "feluda";

/// The name of the file that holds the snapshot.
pub const GITHUB_LICENSES_CACHE_FILE: &'static str = "github_licenses.json";

/// Number of seconds a stored snapshot stays usable: thirty days.
pub const CACHE_TTL_SECS: u64 = 30 * 24 * 60 * 60;

/// Schema tag written into every snapshot; a snapshot with another tag is never used.
pub const CACHE_VERSION: u32 = 1;

/// A snapshot of the taxonomy as it is stored.
pub struct CacheEntry {
    /// Schema tag of the snapshot.
    pub version: u32,
    /// The taxonomy that was captured.
    pub data: Taxonomy,
    /// When it was captured, in seconds since the epoch.
    pub timestamp: u64,
}

/// What was found where the snapshot is kept.
pub enum CacheFile {
    /// There is no file.
    Missing,
    /// There is a file, but it could not be read.
    Unreadable,
    /// The file was read, but it does not hold a snapshot.
    Corrupt,
    /// The file holds this snapshot.
    Parsed(CacheEntry),
}

/// Age of a snapshot taken at `timestamp` when the clock reads `now`.
/// A clock that moved backwards yields age zero.
pub open spec fn age_at(now: u64, timestamp: u64) -> u64 {
    if now >= timestamp {
        (now - timestamp) as u64
    } else {
        0
    }
}

/// A snapshot is fresh while its age is strictly below the time to live.
pub open spec fn fresh_at(now: u64, timestamp: u64) -> bool {
    age_at(now, timestamp) < CACHE_TTL_SECS
}

/// A stored snapshot is usable when it could be parsed, carries the current
/// schema tag, and is fresh. Everything else counts as no snapshot at all.
pub open spec fn usable_at(file: CacheFile, now: u64) -> bool {
    match file {
        CacheFile::Parsed(entry) => entry.version == CACHE_VERSION && fresh_at(
            now,
            entry.timestamp,
        ),
        _ => false,
    }
}

/// The clock: `SystemTime::now` as whole seconds since the epoch, zero where the
/// clock reads a time before the epoch. Nothing is claimed of the value.
#[verifier::external_body]
fn unix_time_secs() -> u64 {
    std::time::SystemTime::now().duration_since(std::time::SystemTime::UNIX_EPOCH).map(
        |d| d.as_secs(),
    ).unwrap_or(0)
}

/// Age in seconds of a snapshot taken at `timestamp`, seen at `now`.
pub fn age_secs_at(now: u64, timestamp: u64) -> (age: u64)
    ensures
        age == age_at(now, timestamp),
{
    if now >= timestamp {
        now - timestamp
    } else {
        0
    }
}

/// Whether a snapshot taken at `timestamp` is fresh at `now`.
pub fn is_fresh_at(now: u64, timestamp: u64) -> (fresh: bool)
    ensures
        fresh == fresh_at(now, timestamp),
        fresh <==> now - timestamp < CACHE_TTL_SECS,
{
    age_secs_at(now, timestamp) < CACHE_TTL_SECS
}

/// Whether a snapshot taken at `timestamp` is fresh by the clock.
pub fn is_entry_fresh(timestamp: u64) -> (fresh: bool)
    ensures
        exists|now: u64| fresh == fresh_at(now, timestamp),
{
    let now = unix_time_secs();
    is_fresh_at(now, timestamp)
}

/// Age in seconds, by the clock, of a snapshot taken at `timestamp`.
pub fn entry_age_secs(timestamp: u64) -> (age: u64)
    ensures
        exists|now: u64| age == age_at(now, timestamp),
{
    let now = unix_time_secs();
    age_secs_at(now, timestamp)
}

/// The taxonomy of a stored snapshot, if it is usable at `now`.
pub fn load_from_file_at(file: CacheFile, now: u64) -> (data: Option<Taxonomy>)
    ensures
        data is Some <==> usable_at(file, now),
        data matches Some(taxonomy) ==> file matches CacheFile::Parsed(entry) && taxonomy
            == entry.data,
{
    match file {
        CacheFile::Parsed(entry) => {
            if entry.version != CACHE_VERSION {
                None
            } else if !is_fresh_at(now, entry.timestamp) {
                None
            } else {
                Some(entry.data)
            }
        },
        _ => None,
    }
}

/// The taxonomy of a stored snapshot, if it is usable by the clock. A missing,
/// unreadable or corrupt file, a snapshot with another schema tag and a stale
/// snapshot all yield nothing.
pub fn load_github_licenses_from_cache(file: CacheFile) -> (data: Option<Taxonomy>)
    ensures
        exists|now: u64|
            {
                &&& data is Some <==> usable_at(file, now)
                &&& data matches Some(taxonomy) ==> file matches CacheFile::Parsed(entry)
                    && taxonomy == entry.data
            },
{
    let now = unix_time_secs();
    load_from_file_at(file, now)
}

/// The snapshot that stores `licenses` as captured at `now`.
pub fn entry_at(licenses: Taxonomy, now: u64) -> (entry: CacheEntry)
    ensures
        entry.version == CACHE_VERSION,
        entry.data == licenses,
        entry.timestamp == now,
{
    CacheEntry { version: CACHE_VERSION, data: licenses, timestamp: now }
}

/// The snapshot that stores `licenses` as captured now, by the clock.
pub fn save_github_licenses_to_cache(licenses: Taxonomy) -> (entry: CacheEntry)
    ensures
        entry.version == CACHE_VERSION,
        entry.data == licenses,
{
    let now = unix_time_secs();
    entry_at(licenses, now)
}

/// A snapshot is usable at the very moment it was captured, and stays so until
/// the time to live has run out; a snapshot with another schema tag never is.
pub proof fn lemma_snapshot_lifetime(entry: CacheEntry, now: u64)
    ensures
        entry.version == CACHE_VERSION ==> usable_at(
            CacheFile::Parsed(entry),
            entry.timestamp,
        ),
        entry.version == CACHE_VERSION && entry.timestamp <= now && now - entry.timestamp
            < CACHE_TTL_SECS ==> usable_at(CacheFile::Parsed(entry), now),
        now - entry.timestamp >= CACHE_TTL_SECS ==> !usable_at(CacheFile::Parsed(entry), now),
        entry.version != CACHE_VERSION ==> !usable_at(CacheFile::Parsed(entry), now),
{
}

/// A snapshot is fresh exactly while the clock has not run the time to live
/// past its capture; a clock that reads a time before the capture finds it fresh.
pub proof fn lemma_fresh_iff_young(now: u64, timestamp: u64)
    ensures
        fresh_at(now, timestamp) <==> now - timestamp < CACHE_TTL_SECS,
        fresh_at(timestamp, timestamp),
        now <= timestamp ==> fresh_at(now, timestamp),
{
}

/// Freshness only ever ends: a snapshot that is stale at some moment is stale
/// at every later one.
pub proof fn lemma_staleness_is_final(timestamp: u64, earlier: u64, later: u64)
    requires
        earlier <= later,
        !fresh_at(earlier, timestamp),
    ensures
        !fresh_at(later, timestamp),
{
}

/// What is reported of the stored snapshot.
#[derive(Debug)]
pub struct CacheStatus {
    /// Whether there is a file.
    pub exists: bool,
    /// Where the snapshot is kept.
    pub path: String,
    /// Size of the file in bytes.
    pub size_bytes: u64,
    /// Whether the snapshot is fresh.
    pub is_fresh: bool,
    /// Age of the snapshot in seconds.
    pub age_secs: u64,
    /// Number of licenses in the snapshot.
    pub license_count: usize,
}

/// The quotient `n / d` rounded to the nearest integer, a tie going to the even one.
pub open spec fn round_half_even(n: int, d: int) -> int
    recommends
        0 <= n,
        0 < d,
{
    let q = n / d;
    let r = n % d;
    if 2 * r > d || (2 * r == d && q % 2 == 1) {
        q + 1
    } else {
        q
    }
}

/// Distance between neighbouring double-precision numbers at the magnitude of
/// `n`: one up to 2^53, and twice as much each time `n` doubles beyond it.
pub open spec fn double_spacing(n: nat) -> nat
    decreases n,
{
    if n < 0x20_0000_0000_0000 {
        1
    } else {
        2 * double_spacing(n / 2)
    }
}

/// The double-precision number nearest to `n`, a tie going to the even mantissa.
pub open spec fn nearest_double(n: nat) -> int {
    round_half_even(n as int, double_spacing(n) as int) * double_spacing(n)
}

/// A byte count in hundredths of `unit`, as a double-precision quotient
/// rounded to two decimals comes out.
pub open spec fn hundredths(bytes: nat, unit: int) -> int {
    round_half_even(nearest_double(bytes) * 100, unit)
}

/// A count of hundredths written with two decimals.
pub open spec fn two_decimals(h: nat) -> Seq<char> {
    decimal(h / 100) + seq!['.', digit_char((h / 10 % 10) as int), digit_char((h % 10) as int)]
}

/// A size for display: plain bytes below a kibibyte, else kibibytes or
/// mebibytes with two decimals.
pub open spec fn size_text(bytes: u64) -> Seq<char> {
    if bytes < 1024 {
        decimal(bytes as nat) + " B"@
    } else if bytes < 1024 * 1024 {
        two_decimals(hundredths(bytes as nat, 1024) as nat) + " KB"@
    } else {
        two_decimals(hundredths(bytes as nat, 1048576) as nat) + " MB"@
    }
}

/// An age for display, in the largest unit that it fills, rounded down.
pub open spec fn age_text(secs: u64) -> Seq<char> {
    if secs < 60 {
        "just now"@
    } else if secs < 3600 {
        decimal((secs / 60) as nat) + " minutes ago"@
    } else if secs < 86400 {
        decimal((secs / 3600) as nat) + " hours ago"@
    } else {
        decimal((secs / 86400) as nat) + " days ago"@
    }
}

/// `n / d` rounded to the nearest integer, ties to even.
fn div_round_half_even(n: u128, d: u128) -> (q: u128)
    requires
        0 < d <= 0x10_0000,
        n <= 0x1000_0000_0000_0000_0000,
    ensures
        q == round_half_even(n as int, d as int),
        q <= n / d + 1,
{
    let q = n / d;
    let r = n % d;
    if 2 * r > d || (2 * r == d && q % 2 == 1) {
        q + 1
    } else {
        q
    }
}

/// The double-precision number nearest to `n`.
fn to_nearest_double(n: u64) -> (rounded: u128)
    ensures
        rounded == nearest_double(n as nat),
        rounded <= n + 4096,
{
    let mut unit: u64 = 1;
    let mut m: u64 = n;
    while m >= 0x20_0000_0000_0000
        invariant
            1 <= unit <= 4096,
            m * unit <= n,
            unit == 1 || m >= 0x10_0000_0000_0000,
            double_spacing(n as nat) == unit * double_spacing(m as nat),
        decreases m,
    {
        assert(unit < 2048) by (nonlinear_arith)
            requires
                m >= 0x20_0000_0000_0000,
                m * unit <= n,
                n <= 0xffff_ffff_ffff_ffff,
        ;
        assert((m / 2) * (unit * 2) <= m * unit) by (nonlinear_arith)
            requires
                m >= 0,
                unit >= 0,
        ;
        assert(unit * double_spacing(m as nat) == (unit * 2) * double_spacing((m / 2) as nat))
            by (nonlinear_arith)
            requires
                double_spacing(m as nat) == 2 * double_spacing((m / 2) as nat),
        ;
        m = m / 2;
        unit = unit * 2;
    }
    assert(double_spacing(n as nat) == unit) by (nonlinear_arith)
        requires
            double_spacing(n as nat) == unit * double_spacing(m as nat),
            double_spacing(m as nat) == 1,
    ;
    let wide: u128 = n as u128;
    let q = div_round_half_even(wide, unit as u128);
    assert(q * unit <= n + unit) by (nonlinear_arith)
        requires
            q <= (n as int) / (unit as int) + 1,
            unit >= 1,
            n >= 0,
    ;
    q * (unit as u128)
}

/// Appends a count of hundredths, written with two decimals, to `text`.
fn push_two_decimals(text: &mut Vec<char>, h: u64)
    ensures
        final(text)@ == old(text)@ + two_decimals(h as nat),
{
    push_decimal(text, (h / 100) as u128);
    text.push('.');
    let tenths: u8 = (h / 10 % 10) as u8;
    let units: u8 = (h % 10) as u8;
    text.push((tenths + 48) as char);
    text.push((units + 48) as char);
    assert(text@ =~= old(text)@ + two_decimals(h as nat));
}

impl CacheStatus {
    /// A byte count as shown to the user.
    pub fn format_size(bytes: u64) -> (text: String)
        ensures
            text@ == size_text(bytes),
    {
        let mut out: Vec<char> = Vec::new();
        if bytes < 1024 {
            push_decimal(&mut out, bytes as u128);
            push_str(&mut out, " B");
        } else if bytes < 1024 * 1024 {
            let scaled = to_nearest_double(bytes) * 100;
            let h = div_round_half_even(scaled, 1024);
            push_two_decimals(&mut out, h as u64);
            push_str(&mut out, " KB");
        } else {
            let scaled = to_nearest_double(bytes) * 100;
            let h = div_round_half_even(scaled, 1024 * 1024);
            push_two_decimals(&mut out, h as u64);
            push_str(&mut out, " MB");
        }
        assert(out@ =~= size_text(bytes));
        string_from_chars(&out)
    }

    /// An age in seconds as shown to the user.
    pub fn format_age(secs: u64) -> (text: String)
        ensures
            text@ == age_text(secs),
    {
        let mut out: Vec<char> = Vec::new();
        if secs < 60 {
            push_str(&mut out, "just now");
        } else if secs < 3600 {
            push_decimal(&mut out, (secs / 60) as u128);
            push_str(&mut out, " minutes ago");
        } else if secs < 86400 {
            push_decimal(&mut out, (secs / 3600) as u128);
            push_str(&mut out, " hours ago");
        } else {
            push_decimal(&mut out, (secs / 86400) as u128);
            push_str(&mut out, " days ago");
        }
        assert(out@ =~= age_text(secs));
        string_from_chars(&out)
    }
}

/// What is reported of a stored snapshot at `now`: nothing but the path where
/// there is no file; the size alone where the file cannot be read or parsed;
/// freshness, age and the number of licenses where it holds a snapshot. The
/// schema tag plays no part in the report.
pub open spec fn status_matches(
    status: CacheStatus,
    path: Seq<char>,
    size_bytes: u64,
    file: CacheFile,
    now: u64,
) -> bool {
    &&& status.path@ == path
    &&& match file {
        CacheFile::Missing => {
            &&& !status.exists
            &&& status.size_bytes == 0
            &&& !status.is_fresh
            &&& status.age_secs == 0
            &&& status.license_count == 0
        },
        CacheFile::Parsed(entry) => {
            &&& status.exists
            &&& status.size_bytes == size_bytes
            &&& status.is_fresh == fresh_at(now, entry.timestamp)
            &&& status.age_secs == age_at(now, entry.timestamp)
            &&& status.license_count == entry.data@.dom().len()
        },
        _ => {
            &&& status.exists
            &&& status.size_bytes == size_bytes
            &&& !status.is_fresh
            &&& status.age_secs == 0
            &&& status.license_count == 0
        },
    }
}

/// The report on the snapshot kept at `path`, as seen at `now`.
pub fn status_at(path: String, size_bytes: u64, file: &CacheFile, now: u64) -> (status:
    CacheStatus)
    ensures
        status_matches(status, path@, size_bytes, *file, now),
{
    match file {
        CacheFile::Missing => CacheStatus {
            exists: false,
            path,
            size_bytes: 0,
            is_fresh: false,
            age_secs: 0,
            license_count: 0,
        },
        CacheFile::Parsed(entry) => CacheStatus {
            exists: true,
            path,
            size_bytes,
            is_fresh: is_fresh_at(now, entry.timestamp),
            age_secs: age_secs_at(now, entry.timestamp),
            license_count: entry.data.len(),
        },
        _ => CacheStatus {
            exists: true,
            path,
            size_bytes,
            is_fresh: false,
            age_secs: 0,
            license_count: 0,
        },
    }
}

/// The report on the snapshot kept at `path`, by the clock.
pub fn get_cache_status(path: String, size_bytes: u64, file: &CacheFile) -> (status: CacheStatus)
    ensures
        exists|now: u64| status_matches(status, path@, size_bytes, *file, now),
{
    let now = unix_time_secs();
    status_at(path, size_bytes, file, now)
}

impl CacheStatus {
    /// The report as the user reads it.
    pub open spec fn report(&self) -> Seq<char> {
        if !self.exists {
            "\n📦 Cache Status: EMPTY\n   No cache found at: "@ + self.path@
                + "\n   Cache will be created on next license analysis.\n\n"@
        } else {
            "\n📦 Cache Status: "@ + (if self.is_fresh {
                "✓ FRESH"@
            } else {
                "✗ STALE"@
            }) + "\n   Location: "@ + self.path@ + "\n   Size: "@ + size_text(self.size_bytes)
                + "\n   Age: "@ + age_text(self.age_secs) + "\n   Licenses cached: "@ + decimal(
                self.license_count as nat,
            ) + "\n\n"@
        }
    }

    /// The text of the report, ready to be printed.
    pub fn status_text(&self) -> (text: String)
        ensures
            text@ == self.report(),
    {
        let mut out: Vec<char> = Vec::new();
        if !self.exists {
            push_str(&mut out, "\n📦 Cache Status: EMPTY\n   No cache found at: ");
            push_str(&mut out, self.path.as_str());
            push_str(&mut out, "\n   Cache will be created on next license analysis.\n\n");
        } else {
            push_str(&mut out, "\n📦 Cache Status: ");
            if self.is_fresh {
                push_str(&mut out, "✓ FRESH");
            } else {
                push_str(&mut out, "✗ STALE");
            }
            push_str(&mut out, "\n   Location: ");
            push_str(&mut out, self.path.as_str());
            push_str(&mut out, "\n   Size: ");
            push_str(&mut out, CacheStatus::format_size(self.size_bytes).as_str());
            push_str(&mut out, "\n   Age: ");
            push_str(&mut out, CacheStatus::format_age(self.age_secs).as_str());
            push_str(&mut out, "\n   Licenses cached: ");
            push_decimal(&mut out, self.license_count as u128);
            push_str(&mut out, "\n\n");
        }
        assert(out@ =~= self.report());
        string_from_chars(&out)
    }
}

} // verus!
