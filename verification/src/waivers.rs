//! Waivers: findings whose fingerprint is waived, until an optional expiry date.
use vstd::prelude::*;
use crate::model::WaiverEntry;
use crate::receipt::{Finding, FindingView, WaiverInfo, WaiverView, findings_view, os};
use crate::text::chars_of;

verus! {

/// `s` split at every `sep`, as `str::split` with a character: one more part than
/// separators.
pub open spec fn split_on(s: Seq<char>, sep: char) -> Seq<Seq<char>>
    decreases s.len(),
{
    if s.len() == 0 {
        seq![seq![]]
    } else {
        let prev = split_on(s.drop_last(), sep);
        if s.last() == sep {
            prev.push(seq![])
        } else {
            prev.update(prev.len() - 1, prev.last().push(s.last()))
        }
    }
}

pub proof fn lemma_split_nonempty(s: Seq<char>, sep: char)
    ensures
        split_on(s, sep).len() >= 1,
    decreases s.len(),
{
    if s.len() > 0 {
        lemma_split_nonempty(s.drop_last(), sep);
    }
}

/// `s` split at every `sep`.
pub fn split_chars(s: &Vec<char>, sep: char) -> (r: Vec<Vec<char>>)
    ensures
        r@.map_values(|p: Vec<char>| p@) == split_on(s@, sep),
{
    let mut parts: Vec<Vec<char>> = Vec::new();
    parts.push(Vec::new());
    let mut cur: Vec<char> = Vec::new();
    let mut i: usize = 0;
    assert(s@.take(0) =~= seq![]);
    assert(parts@.map_values(|p: Vec<char>| p@) =~= seq![seq![]]);
    while i < s.len()
        invariant
            i <= s.len(),
            parts.len() >= 1,
            parts@.map_values(|p: Vec<char>| p@) == split_on(s@.take(i as int), sep),
            cur@ == parts@[parts.len() - 1]@,
        decreases s.len() - i,
    {
        let ghost prev = split_on(s@.take(i as int), sep);
        assert(s@.take(i + 1).drop_last() =~= s@.take(i as int));
        assert(s@.take(i + 1).last() == s@[i as int]);
        let c = s[i];
        if c == sep {
            parts.push(Vec::new());
            cur = Vec::new();
            assert(parts@.map_values(|p: Vec<char>| p@) =~= prev.push(seq![]));
        } else {
            cur.push(c);
            let last = parts.len() - 1;
            parts.set(last, cur.clone());
            assert(parts@.map_values(|p: Vec<char>| p@) =~= prev.update(prev.len() - 1, prev.last().push(c)));
        }
        i += 1;
    }
    assert(s@.take(s.len() as int) =~= s@);
    parts
}

/// Whether every character is an ASCII digit.
pub open spec fn all_digits(s: Seq<char>) -> bool {
    forall|i: int| 0 <= i < s.len() ==> '0' <= #[trigger] s[i] <= '9'
}

/// The value of a string of decimal digits.
pub open spec fn digits_value(s: Seq<char>) -> nat
    decreases s.len(),
{
    if s.len() == 0 {
        0
    } else {
        digits_value(s.drop_last()) * 10 + ((s.last() as u32) - 48) as nat
    }
}

/// The number an unsigned decimal text stands for, as std's integer parsing reads
/// it: an optional `+`, then one or more ASCII digits (leading zeros allowed).
pub open spec fn spec_parse_decimal(s: Seq<char>) -> Option<nat> {
    let t = if s.len() > 0 && s[0] == '+' {
        s.drop_first()
    } else {
        s
    };
    if t.len() > 0 && all_digits(t) {
        Some(digits_value(t))
    } else {
        None
    }
}

proof fn lemma_digits_prefix(s: Seq<char>, i: int)
    requires
        0 <= i <= s.len(),
        all_digits(s),
    ensures
        digits_value(s.take(i)) <= digits_value(s),
    decreases s.len() - i,
{
    if i < s.len() {
        lemma_digits_prefix(s, i + 1);
        assert(s.take(i + 1).drop_last() =~= s.take(i));
        assert(s.take(i + 1).last() == s[i]);
    } else {
        assert(s.take(i) =~= s);
    }
}

/// The number a decimal text stands for, when it is at most `limit`.
pub fn parse_decimal(s: &Vec<char>, limit: u32) -> (r: Option<u32>)
    ensures
        r matches Some(v) ==> spec_parse_decimal(s@) == Some(v as nat) && v <= limit,
        r is None ==> match spec_parse_decimal(s@) {
            Some(v) => v > limit,
            None => true,
        },
{
    let start: usize = if s.len() > 0 && s[0] == '+' {
        1
    } else {
        0
    };
    let ghost t = if s@.len() > 0 && s@[0] == '+' {
        s@.drop_first()
    } else {
        s@
    };
    assert(t =~= s@.skip(start as int));
    if start >= s.len() {
        return None;
    }
    let mut acc: u32 = 0;
    let mut i: usize = start;
    while i < s.len()
        invariant
            start <= i <= s.len(),
            start < s.len(),
            t =~= s@.skip(start as int),
            t == (if s@.len() > 0 && s@[0] == '+' { s@.drop_first() } else { s@ }),
            acc as nat == digits_value(t.take(i - start)),
            acc <= limit,
            all_digits(t.take(i - start)),
        decreases s.len() - i,
    {
        let c = s[i];
        assert(t[i - start] == c);
        if c < '0' || c > '9' {
            assert(!all_digits(t));
            assert(spec_parse_decimal(s@) is None);
            return None;
        }
        assert(t.take(i + 1 - start).drop_last() =~= t.take(i - start));
        assert(t.take(i + 1 - start).last() == c);
        let d: u32 = (c as u32) - 48;
        let next: u64 = (acc as u64) * 10 + (d as u64);
        assert(all_digits(t.take(i + 1 - start)));
        assert(next == digits_value(t.take(i + 1 - start)));
        if next > limit as u64 {
            proof {
                if all_digits(t) {
                    lemma_digits_prefix(t, i + 1 - start);
                    assert(spec_parse_decimal(s@) == Some(digits_value(t)));
                }
            }
            return None;
        }
        acc = next as u32;
        i += 1;
    }
    assert(t.take(s.len() - start) =~= t);
    Some(acc)
}

/// Whether `year` is a leap year in the Gregorian calendar.
pub open spec fn is_leap(year: int) -> bool {
    (year % 4 == 0 && year % 100 != 0) || year % 400 == 0
}

/// Days in a month of a year.
pub open spec fn days_in_month(year: int, month: int) -> int {
    if month == 2 {
        if is_leap(year) {
            29
        } else {
            28
        }
    } else if month == 4 || month == 6 || month == 9 || month == 11 {
        30
    } else {
        31
    }
}

/// Whether a calendar date exists in `time`'s range (years -9999 to 9999).
pub open spec fn valid_calendar_date(year: int, month: int, day: int) -> bool {
    -9999 <= year <= 9999 && 1 <= month <= 12 && 1 <= day <= days_in_month(year, month)
}

/// `time::Date::from_calendar_date`, after `time::Month::try_from` on the month
/// number: whether the date exists. `time` (without its `large-dates` feature)
/// accepts years -9999 to 9999, months 1 to 12 and the days of the month.
#[verifier::external_body]
fn calendar_date_exists(year: i32, month: u8, day: u8) -> (r: bool)
    ensures
        r == valid_calendar_date(year as int, month as int, day as int),
{
    match time::Month::try_from(month) {
        Ok(m) => time::Date::from_calendar_date(year, m, day).is_ok(),
        Err(_) => false,
    }
}

/// Today's date in UTC as year, month and day, from `time::OffsetDateTime::now_utc`.
/// Nothing is promised of the value: it is the clock's.
#[verifier::external_body]
pub(crate) fn today_utc() -> (r: (i32, u8, u8)) {
    let (y, m, d) = time::OffsetDateTime::now_utc().date().to_calendar_date();
    (y, u8::from(m), d)
}

/// The date a waiver expiry text stands for: `year-month-day`, each part a decimal
/// number that fits its type (`i32`, `u8`, `u8`).
pub open spec fn spec_expiry_date(s: Seq<char>) -> Option<(int, int, int)> {
    let parts = split_on(s, '-');
    if parts.len() == 3 {
        match (spec_parse_decimal(parts[0]), spec_parse_decimal(parts[1]), spec_parse_decimal(parts[2])) {
            (Some(y), Some(m), Some(d)) => if y <= i32::MAX && m <= 255 && d <= 255 {
                Some((y as int, m as int, d as int))
            } else {
                None
            },
            _ => None,
        }
    } else {
        None
    }
}

/// Whether date `a` is before date `b`.
pub open spec fn date_before(a: (int, int, int), b: (int, int, int)) -> bool {
    a.0 < b.0 || (a.0 == b.0 && (a.1 < b.1 || (a.1 == b.1 && a.2 < b.2)))
}

/// Whether a waiver has expired on `today`: its expiry is a real date before
/// today. A missing or unreadable expiry never expires.
pub open spec fn spec_is_waiver_expired(expires: Option<Seq<char>>, today: (i32, u8, u8)) -> bool {
    match expires {
        None => false,
        Some(s) => match spec_expiry_date(s) {
            Some(d) => valid_calendar_date(d.0, d.1, d.2) && date_before(
                d,
                (today.0 as int, today.1 as int, today.2 as int),
            ),
            None => false,
        },
    }
}

/// Whether a waiver has expired on `today` (year, month, day): its expiry is a real
/// date before today. A missing or unreadable expiry never expires.
pub fn is_waiver_expired(waiver: &WaiverEntry, today: (i32, u8, u8)) -> (r: bool)
    ensures
        r == spec_is_waiver_expired(os(waiver.expires), today),
{
    match &waiver.expires {
        None => false,
        Some(date_str) => {
            let cs = chars_of(date_str.as_str());
            let parts = split_chars(&cs, '-');
            let ghost pv = parts@.map_values(|p: Vec<char>| p@);
            if parts.len() != 3 {
                return false;
            }
            assert(pv[0] == parts@[0]@ && pv[1] == parts@[1]@ && pv[2] == parts@[2]@);
            let y = parse_decimal(&parts[0], 2147483647);
            let m = parse_decimal(&parts[1], 255);
            let d = parse_decimal(&parts[2], 255);
            match (y, m, d) {
                (Some(y), Some(m), Some(d)) => {
                    let (ty, tm, td) = today;
                    let yy: i32 = y as i32;
                    let mm: u8 = m as u8;
                    let dd: u8 = d as u8;
                    if !calendar_date_exists(yy, mm, dd) {
                        return false;
                    }
                    ty > yy || (ty == yy && (tm > mm || (tm == mm && td > dd)))
                },
                _ => false,
            }
        },
    }
}

/// The waiver that applies to a fingerprint: the first unexpired one with it.
pub open spec fn waiver_for(waivers: Seq<WaiverEntry>, fp: Seq<char>, today: (i32, u8, u8)) -> Option<WaiverView>
    decreases waivers.len(),
{
    if waivers.len() == 0 {
        None
    } else {
        let w = waivers[0];
        if w.fingerprint@ == fp && !spec_is_waiver_expired(os(w.expires), today) {
            Some(WaiverView { reason: w.reason@, ticket: os(w.ticket), expires: os(w.expires) })
        } else {
            waiver_for(waivers.drop_first(), fp, today)
        }
    }
}

/// A finding after waivers: a fingerprinted finding with an applicable waiver is
/// marked waived; any other is unchanged.
pub open spec fn spec_waive(f: FindingView, waivers: Seq<WaiverEntry>, today: (i32, u8, u8)) -> FindingView {
    match f.fingerprint {
        Some(fp) => match waiver_for(waivers, fp, today) {
            Some(w) => FindingView { waived: Some(w), ..f },
            None => f,
        },
        None => f,
    }
}

fn find_waiver(waivers: &Vec<WaiverEntry>, fp: &String, today: (i32, u8, u8)) -> (r: Option<WaiverInfo>)
    ensures
        match r {
            Some(w) => waiver_for(waivers@, fp@, today) == Some(w@),
            None => waiver_for(waivers@, fp@, today) is None,
        },
{
    let mut i: usize = 0;
    assert(waivers@.skip(0) =~= waivers@);
    while i < waivers.len()
        invariant
            i <= waivers.len(),
            waiver_for(waivers@, fp@, today) == waiver_for(waivers@.skip(i as int), fp@, today),
        decreases waivers.len() - i,
    {
        let w = &waivers[i];
        assert(waivers@.skip(i as int)[0] == *w);
        assert(waivers@.skip(i as int).drop_first() =~= waivers@.skip(i + 1));
        if crate::text::str_eq(w.fingerprint.as_str(), fp.as_str()) && !is_waiver_expired(w, today) {
            let info = WaiverInfo {
                reason: w.reason.clone(),
                ticket: match &w.ticket {
                    Some(t) => Some(t.clone()),
                    None => None,
                },
                expires: match &w.expires {
                    Some(t) => Some(t.clone()),
                    None => None,
                },
            };
            return Some(info);
        }
        i += 1;
    }
    None
}

/// Mark findings waived by the first unexpired waiver with the same fingerprint.
pub fn apply_waivers(findings: &mut Vec<Finding>, waivers: &Vec<WaiverEntry>, today: (i32, u8, u8))
    ensures
        findings_view(final(findings)@) == findings_view(old(findings)@).map_values(
            |f: FindingView| spec_waive(f, waivers@, today),
        ),
{
    let ghost orig = findings_view(findings@);
    if waivers.len() == 0 {
        assert forall|k: int| 0 <= k < orig.len() implies spec_waive(orig[k], waivers@, today) == orig[k] by {
            match orig[k].fingerprint {
                Some(fp) => assert(waiver_for(waivers@, fp, today) is None),
                None => {},
            }
        }
        assert(findings_view(findings@) =~= orig.map_values(|f: FindingView| spec_waive(f, waivers@, today)));
        return;
    }
    let n = findings.len();
    let mut i: usize = 0;
    while i < n
        invariant
            n == findings.len(),
            n == orig.len(),
            i <= n,
            forall|k: int| 0 <= k < i ==> (#[trigger] findings@[k])@ == spec_waive(orig[k], waivers@, today),
            forall|k: int| i <= k < n ==> (#[trigger] findings@[k])@ == orig[k],
        decreases n - i,
    {
        let w = match &findings[i].fingerprint {
            Some(fp) => find_waiver(waivers, fp, today),
            None => None,
        };
        match w {
            Some(info) => {
                let mut f = findings.remove(i);
                f.waived = Some(info);
                findings.insert(i, f);
            },
            None => {},
        }
        i += 1;
    }
    assert(findings_view(findings@) =~= orig.map_values(|f: FindingView| spec_waive(f, waivers@, today)));
}

} // verus!
