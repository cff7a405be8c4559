//! Garbage collection of the mirror's date-partitioned artifact tree: parsing
//! the date directory names, the per-file deletion verdict, and the plan for
//! one directory. Deletion never touches a referenced path; nightly-class
//! artifacts are pruned by age, stable-class ones as soon as they are
//! unreferenced.

use vstd::prelude::*;
use crate::strset::StrSet;
use crate::strutil::{contains_substr, ends_with_str, has_substr, is_suffix_of};

verus! {

/// A calendar date, as a date-partitioned directory names one.
#[derive(Clone, Copy, PartialEq, Eq, Structural, Debug)]
pub struct Date {
    pub year: u32,
    pub month: u32,
    pub day: u32,
}

pub open spec fn is_leap_year(y: int) -> bool {
    y % 4 == 0 && (y % 100 != 0 || y % 400 == 0)
}

pub open spec fn spec_days_in_month(y: int, m: int) -> int {
    if m == 2 {
        if is_leap_year(y) {
            29
        } else {
            28
        }
    } else if m == 4 || m == 6 || m == 9 || m == 11 {
        30
    } else {
        31
    }
}

pub open spec fn valid_date(y: int, m: int, d: int) -> bool {
    0 <= y <= 9999 && 1 <= m <= 12 && 1 <= d <= spec_days_in_month(y, m)
}

pub open spec fn is_digit(c: char) -> bool {
    48 <= c as int <= 57
}

pub open spec fn digit_val(c: char) -> int {
    c as int - 48
}

/// The directory name has the shape of a calendar date: four digits, dash,
/// two digits, dash, two digits.
pub open spec fn date_str_wf(s: Seq<char>) -> bool {
    &&& s.len() == 10
    &&& is_digit(s[0])
    &&& is_digit(s[1])
    &&& is_digit(s[2])
    &&& is_digit(s[3])
    &&& s[4] == '-'
    &&& is_digit(s[5])
    &&& is_digit(s[6])
    &&& s[7] == '-'
    &&& is_digit(s[8])
    &&& is_digit(s[9])
}

pub open spec fn spec_parse_date(s: Seq<char>) -> Date {
    Date {
        year: (digit_val(s[0]) * 1000 + digit_val(s[1]) * 100 + digit_val(s[2]) * 10 + digit_val(
            s[3],
        )) as u32,
        month: (digit_val(s[5]) * 10 + digit_val(s[6])) as u32,
        day: (digit_val(s[8]) * 10 + digit_val(s[9])) as u32,
    }
}

/// The directory name is a well-shaped, calendar-valid date.
pub open spec fn date_str_valid(s: Seq<char>) -> bool {
    date_str_wf(s) && valid_date(
        spec_parse_date(s).year as int,
        spec_parse_date(s).month as int,
        spec_parse_date(s).day as int,
    )
}

pub open spec fn spec_date_lt(a: Date, b: Date) -> bool {
    ||| a.year < b.year
    ||| (a.year == b.year && a.month < b.month)
    ||| (a.year == b.year && a.month == b.month && a.day < b.day)
}

fn digit_of(c: char) -> (r: Option<u32>)
    ensures
        r is Some <==> is_digit(c),
        r is Some ==> r.unwrap() == digit_val(c),
{
    let v = c as u32;
    if 48 <= v && v <= 57 {
        Some(v - 48)
    } else {
        None
    }
}

fn days_in_month(y: u32, m: u32) -> (r: u32)
    ensures
        r == spec_days_in_month(y as int, m as int),
{
    if m == 2 {
        if y % 4 == 0 && (y % 100 != 0 || y % 400 == 0) {
            29
        } else {
            28
        }
    } else if m == 4 || m == 6 || m == 9 || m == 11 {
        30
    } else {
        31
    }
}

/// Parses a date-partitioned directory name; yields a date exactly when the
/// name is a well-shaped, calendar-valid date.
pub fn parse_date(s: &str) -> (r: Option<Date>)
    ensures
        r is Some <==> date_str_valid(s@),
        r is Some ==> r.unwrap() == spec_parse_date(s@),
{
    if s.unicode_len() != 10 {
        return None;
    }
    let d0 = match digit_of(s.get_char(0)) {
        Some(v) => v,
        None => {
            return None;
        },
    };
    let d1 = match digit_of(s.get_char(1)) {
        Some(v) => v,
        None => {
            return None;
        },
    };
    let d2 = match digit_of(s.get_char(2)) {
        Some(v) => v,
        None => {
            return None;
        },
    };
    let d3 = match digit_of(s.get_char(3)) {
        Some(v) => v,
        None => {
            return None;
        },
    };
    if s.get_char(4) != '-' {
        return None;
    }
    let m0 = match digit_of(s.get_char(5)) {
        Some(v) => v,
        None => {
            return None;
        },
    };
    let m1 = match digit_of(s.get_char(6)) {
        Some(v) => v,
        None => {
            return None;
        },
    };
    if s.get_char(7) != '-' {
        return None;
    }
    let e0 = match digit_of(s.get_char(8)) {
        Some(v) => v,
        None => {
            return None;
        },
    };
    let e1 = match digit_of(s.get_char(9)) {
        Some(v) => v,
        None => {
            return None;
        },
    };
    let year = d0 * 1000 + d1 * 100 + d2 * 10 + d3;
    let month = m0 * 10 + m1;
    let day = e0 * 10 + e1;
    if month < 1 || month > 12 {
        return None;
    }
    if day < 1 || day > days_in_month(year, month) {
        return None;
    }
    Some(Date { year, month, day })
}

pub fn date_lt(a: &Date, b: &Date) -> (r: bool)
    ensures
        r == spec_date_lt(*a, *b),
{
    if a.year != b.year {
        a.year < b.year
    } else if a.month != b.month {
        a.month < b.month
    } else {
        a.day < b.day
    }
}

/// Whether a directory's nightly-class content is eligible for expiry: a
/// cutoff is configured and the directory's date lies strictly before it.
pub open spec fn spec_clear_expired(dir_name: Seq<char>, cutoff: Option<Date>) -> bool {
    match cutoff {
        Some(c) => spec_date_lt(spec_parse_date(dir_name), c),
        None => false,
    }
}

/// What happens to one file of a date directory.
#[derive(Clone, Copy, PartialEq, Eq, Structural, Debug)]
pub enum FileVerdict {
    /// A digest sidecar: never judged on its own, it follows its artifact.
    Sidecar,
    /// Kept; its presence also keeps the directory.
    Keep,
    /// Deleted, along with its sidecar.
    Delete,
}

/// The deletion verdict for one file: sidecars are passed over; a referenced
/// path is kept; an unreferenced nightly-class file is deleted only once
/// expiry applies; an unreferenced stable-class file is always deleted.
pub open spec fn spec_file_verdict(
    fname: Seq<char>,
    normalized: Seq<char>,
    referenced: Set<Seq<char>>,
    clear_expired: bool,
) -> FileVerdict {
    if is_suffix_of(fname, ".sha256"@) {
        FileVerdict::Sidecar
    } else if referenced.contains(normalized) {
        FileVerdict::Keep
    } else if has_substr(fname, "nightly"@) {
        if clear_expired {
            FileVerdict::Delete
        } else {
            FileVerdict::Keep
        }
    } else {
        FileVerdict::Delete
    }
}

pub fn gc_file_verdict(
    fname: &str,
    normalized: &str,
    referenced: &StrSet,
    clear_expired: bool,
) -> (r: FileVerdict)
    ensures
        r == spec_file_verdict(fname@, normalized@, referenced@, clear_expired),
{
    if ends_with_str(fname, ".sha256") {
        FileVerdict::Sidecar
    } else if referenced.contains(normalized) {
        FileVerdict::Keep
    } else if contains_substr(fname, "nightly") {
        if clear_expired {
            FileVerdict::Delete
        } else {
            FileVerdict::Keep
        }
    } else {
        FileVerdict::Delete
    }
}

/// One file of a date directory, as the driver lists it: its bare name and
/// its normalized mirror-local path.
pub struct GcEntry {
    pub name: String,
    pub normalized: String,
}

/// The plan for one date directory: which files go, and whether the whole
/// directory goes afterwards.
pub struct GcDirPlan {
    /// Aligned with the listed files: true exactly for the files to delete.
    pub delete: Vec<bool>,
    /// True exactly when no file is kept: the directory is then removed whole.
    pub remove_dir: bool,
}

#[derive(Clone, Copy, PartialEq, Eq, Structural, Debug)]
pub enum GcError {
    /// A directory at the date-partitioned level does not name a date.
    BadDateDir,
}

/// Plans garbage collection for one date directory. Fails exactly when the
/// directory name is not a valid date; otherwise decides every file by the
/// deletion verdict and removes the directory when nothing is kept.
pub fn gc_dir_plan(
    dir_name: &str,
    cutoff: &Option<Date>,
    files: &Vec<GcEntry>,
    referenced: &StrSet,
) -> (r: Result<GcDirPlan, GcError>)
    ensures
        r is Ok <==> date_str_valid(dir_name@),
        r matches Err(e) ==> e == GcError::BadDateDir,
        r matches Ok(p) ==> {
            let clear = spec_clear_expired(dir_name@, *cutoff);
            &&& p.delete@.len() == files@.len()
            &&& forall|x: int|
                0 <= x < files@.len() ==> p.delete@[x] == (spec_file_verdict(
                    (#[trigger] files@[x]).name@,
                    files@[x].normalized@,
                    referenced@,
                    clear,
                ) == FileVerdict::Delete)
            &&& p.remove_dir == (forall|x: int|
                0 <= x < files@.len() ==> spec_file_verdict(
                    (#[trigger] files@[x]).name@,
                    files@[x].normalized@,
                    referenced@,
                    clear,
                ) != FileVerdict::Keep)
        },
{
    let dir_date = match parse_date(dir_name) {
        Some(d) => d,
        None => {
            return Err(GcError::BadDateDir);
        },
    };
    let clear_expired = match cutoff {
        Some(c) => date_lt(&dir_date, c),
        None => false,
    };
    let mut delete: Vec<bool> = Vec::new();
    let mut any_kept = false;
    let mut x: usize = 0;
    while x < files.len()
        invariant
            x <= files@.len(),
            delete@.len() == x,
            forall|y: int|
                0 <= y < x ==> delete@[y] == (spec_file_verdict(
                    (#[trigger] files@[y]).name@,
                    files@[y].normalized@,
                    referenced@,
                    spec_clear_expired(dir_name@, *cutoff),
                ) == FileVerdict::Delete),
            any_kept == !(forall|y: int|
                0 <= y < x ==> spec_file_verdict(
                    (#[trigger] files@[y]).name@,
                    files@[y].normalized@,
                    referenced@,
                    spec_clear_expired(dir_name@, *cutoff),
                ) != FileVerdict::Keep),
            clear_expired == spec_clear_expired(dir_name@, *cutoff),
        decreases files@.len() - x,
    {
        let f = &files[x];
        let v = gc_file_verdict(f.name.as_str(), f.normalized.as_str(), referenced, clear_expired);
        delete.push(match v {
            FileVerdict::Delete => true,
            _ => false,
        });
        if match v {
            FileVerdict::Keep => true,
            _ => false,
        } {
            any_kept = true;
        }
        x += 1;
    }
    Ok(GcDirPlan { delete, remove_dir: !any_kept })
}

/// Safety law: the collector never deletes a path present in the reference
/// set, whatever the retention cutoff.
pub proof fn lemma_gc_never_deletes_referenced(
    fname: Seq<char>,
    normalized: Seq<char>,
    referenced: Set<Seq<char>>,
    clear_expired: bool,
)
    ensures
        referenced.contains(normalized) ==> spec_file_verdict(
            fname,
            normalized,
            referenced,
            clear_expired,
        ) != FileVerdict::Delete,
{
}

/// Retention law for nightly-class files: an unreferenced nightly artifact is
/// deleted exactly when its directory's date lies strictly before the cutoff,
/// and kept otherwise.
pub proof fn lemma_nightly_retention(
    dir_name: Seq<char>,
    cutoff: Date,
    fname: Seq<char>,
    normalized: Seq<char>,
    referenced: Set<Seq<char>>,
)
    requires
        has_substr(fname, "nightly"@),
        !is_suffix_of(fname, ".sha256"@),
        !referenced.contains(normalized),
    ensures
        spec_date_lt(spec_parse_date(dir_name), cutoff) ==> spec_file_verdict(
            fname,
            normalized,
            referenced,
            spec_clear_expired(dir_name, Some(cutoff)),
        ) == FileVerdict::Delete,
        !spec_date_lt(spec_parse_date(dir_name), cutoff) ==> spec_file_verdict(
            fname,
            normalized,
            referenced,
            spec_clear_expired(dir_name, Some(cutoff)),
        ) == FileVerdict::Keep,
{
}

/// A directory strictly before the cutoff holding only unreferenced
/// nightly-class artifacts keeps nothing, so its plan removes it whole; on or
/// after the cutoff none of its files is deleted.
pub proof fn lemma_expired_nightly_dir(
    dir_name: Seq<char>,
    cutoff: Date,
    files: Seq<GcEntry>,
    referenced: Set<Seq<char>>,
)
    requires
        forall|x: int|
            0 <= x < files.len() ==> has_substr((#[trigger] files[x]).name@, "nightly"@)
                && !is_suffix_of(files[x].name@, ".sha256"@) && !referenced.contains(
                files[x].normalized@,
            ),
    ensures
        spec_date_lt(spec_parse_date(dir_name), cutoff) ==> forall|x: int|
            0 <= x < files.len() ==> spec_file_verdict(
                (#[trigger] files[x]).name@,
                files[x].normalized@,
                referenced,
                spec_clear_expired(dir_name, Some(cutoff)),
            ) != FileVerdict::Keep,
        !spec_date_lt(spec_parse_date(dir_name), cutoff) ==> forall|x: int|
            0 <= x < files.len() ==> spec_file_verdict(
                (#[trigger] files[x]).name@,
                files[x].normalized@,
                referenced,
                spec_clear_expired(dir_name, Some(cutoff)),
            ) != FileVerdict::Delete,
{
}

/// Stale-stable law: an unreferenced artifact that is not nightly-class is
/// deleted whatever the directory's date and whether or not any retention
/// cutoff is configured.
pub proof fn lemma_unreferenced_stable_deleted(
    fname: Seq<char>,
    normalized: Seq<char>,
    referenced: Set<Seq<char>>,
    clear_expired: bool,
)
    requires
        !has_substr(fname, "nightly"@),
        !is_suffix_of(fname, ".sha256"@),
        !referenced.contains(normalized),
    ensures
        spec_file_verdict(fname, normalized, referenced, clear_expired) == FileVerdict::Delete,
{
}

} // verus!
