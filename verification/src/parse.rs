//! Parsing of the small values staff type into commands: booleans, integers
//! and time periods such as `3 days`.
use crate::text::{chars_eq, decimal_spec, digit_char, chars_of, char_free, find_char, find_char_exec, sub_chars};
use vstd::prelude::*;

verus! {

/// Why a boolean could not be read.
#[derive(Debug, Clone, Copy, PartialEq, Eq, Structural)]
pub enum BoolError {
    /// Neither `true`, `t`, `false` nor `f` (in any ASCII case).
    InvalidBoolean,
}

/// Why a time period could not be read.
#[derive(Debug, Clone, Copy, PartialEq, Eq, Structural)]
pub enum HoursError {
    /// The text is not a number and a unit separated by exactly one space.
    MissingSpace,
    /// The number part is not a valid `i32`.
    InvalidNumber(IntError),
    /// The unit is not one of the known units.
    UnknownUnit,
}

impl BoolError {
    /// The message shown to the user.
    pub fn message(&self) -> (r: String)
        ensures
            r@ == bool_error_message(),
    {
        crate::text::owned("Invalid boolean")
    }
}

/// The message of a rejected boolean.
pub open spec fn bool_error_message() -> Seq<char> {
    "Invalid boolean"@
}

impl HoursError {
    /// The message shown to the user.
    pub fn message(&self) -> (r: String)
        ensures
            r@ == hours_error_message(*self),
    {
        match self {
            HoursError::MissingSpace => crate::text::owned(
                "Invalid time format. Format must be WITH A SPACE BETWEEN THE NUMBER AND THE UNIT",
            ),
            HoursError::InvalidNumber(e) => e.message(),
            HoursError::UnknownUnit => crate::text::owned(
                "Invalid time format. Unit must be years, months, weeks, days or hours",
            ),
        }
    }
}

/// The message of each way a time period can be rejected.
pub open spec fn hours_error_message(e: HoursError) -> Seq<char> {
    match e {
        HoursError::MissingSpace => "Invalid time format. Format must be WITH A SPACE BETWEEN THE NUMBER AND THE UNIT"@,
        HoursError::InvalidNumber(e) => int_error_message(e),
        HoursError::UnknownUnit => "Invalid time format. Unit must be years, months, weeks, days or hours"@,
    }
}

// ----- Case-insensitive words -----

/// `a` is the lowercase ASCII letter `lower`, in either case.
pub open spec fn same_letter_ignoring_case(a: char, lower: char) -> bool {
    a == lower || ('A' <= a <= 'Z' && a as u32 + 32 == lower as u32)
}

/// `s` spells the lowercase word `word`, ignoring ASCII case.
pub open spec fn eq_ignoring_case(s: Seq<char>, word: Seq<char>) -> bool {
    s.len() == word.len() && forall|i: int|
        0 <= i < s.len() ==> #[trigger] same_letter_ignoring_case(s[i], word[i])
}

/// What `parse_bool` returns for a text.
pub open spec fn parse_bool_spec(v: Seq<char>) -> Result<bool, BoolError> {
    if eq_ignoring_case(v, "true"@) || eq_ignoring_case(v, "t"@) {
        Ok(true)
    } else if eq_ignoring_case(v, "false"@) || eq_ignoring_case(v, "f"@) {
        Ok(false)
    } else {
        Err(BoolError::InvalidBoolean)
    }
}

fn eq_ignoring_case_exec(s: &Vec<char>, word: &str) -> (r: bool)
    ensures
        r == eq_ignoring_case(s@, word@),
{
    let w = chars_of(word);
    if s.len() != w.len() {
        return false;
    }
    let mut i: usize = 0;
    while i < s.len()
        invariant
            w@ == word@,
            s.len() == w.len(),
            i <= s.len(),
            forall|j: int| 0 <= j < i ==> #[trigger] same_letter_ignoring_case(s@[j], w@[j]),
        decreases s.len() - i,
    {
        let a = s[i];
        let b = w[i];
        let ok = a == b || ('A' <= a && a <= 'Z' && (a as u32) + 32 == (b as u32));
        if !ok {
            assert(!same_letter_ignoring_case(s@[i as int], w@[i as int]));
            return false;
        }
        i = i + 1;
    }
    true
}

/// Reads a boolean: `true`/`t` or `false`/`f`, in any ASCII case.
pub fn parse_bool(v: &str) -> (r: Result<bool, BoolError>)
    ensures
        r == parse_bool_spec(v@),
{
    let s = chars_of(v);
    if eq_ignoring_case_exec(&s, "true") || eq_ignoring_case_exec(&s, "t") {
        Ok(true)
    } else if eq_ignoring_case_exec(&s, "false") || eq_ignoring_case_exec(&s, "f") {
        Ok(false)
    } else {
        Err(BoolError::InvalidBoolean)
    }
}

// ----- Decimal integers -----

/// Why a text is not an `i32`.
#[derive(Debug, Clone, Copy, PartialEq, Eq, Structural)]
pub enum IntError {
    /// The text is empty.
    Empty,
    /// A character is not a digit (or a sign stands alone).
    InvalidDigit,
    /// The number is above `i32::MAX`.
    PosOverflow,
    /// The number is below `i32::MIN`.
    NegOverflow,
}

/// How a left-to-right scan of digits ends.
#[derive(Debug, Clone, Copy, PartialEq, Eq, Structural)]
pub enum ScanEnd {
    /// A character that is not a digit was met first.
    BadDigit,
    /// The value grew beyond the limit first.
    TooBig,
}

/// `c` is an ASCII digit.
pub open spec fn is_digit(c: char) -> bool {
    '0' <= c <= '9'
}

/// The value of an ASCII digit.
pub open spec fn digit_value(c: char) -> int {
    c as int - '0' as int
}

/// Scans `d[i..]` left to right, with `acc` the value of the digits before
/// `i`: each character must be a digit, and the value must stay within `limit`.
/// The first character that breaks either rule decides the failure.
pub open spec fn scan_digits(d: Seq<char>, i: int, acc: int, limit: int) -> Result<int, ScanEnd>
    decreases d.len() - i,
{
    if i >= d.len() || i < 0 {
        Ok(acc)
    } else if !is_digit(d[i]) {
        Err(ScanEnd::BadDigit)
    } else if acc * 10 + digit_value(d[i]) > limit {
        Err(ScanEnd::TooBig)
    } else {
        scan_digits(d, i + 1, acc * 10 + digit_value(d[i]), limit)
    }
}

/// The `i32` that a text denotes: digits, optionally preceded by `+` or `-`,
/// or the reason it denotes none.
pub open spec fn parse_i32_spec(s: Seq<char>) -> Result<i32, IntError> {
    if s.len() == 0 {
        Err(IntError::Empty)
    } else if s[0] == '+' || s[0] == '-' {
        let d = s.drop_first();
        if d.len() == 0 {
            Err(IntError::InvalidDigit)
        } else if s[0] == '-' {
            match scan_digits(d, 0, 0, 2147483648) {
                Ok(n) => Ok((-n) as i32),
                Err(ScanEnd::BadDigit) => Err(IntError::InvalidDigit),
                Err(ScanEnd::TooBig) => Err(IntError::NegOverflow),
            }
        } else {
            match scan_digits(d, 0, 0, 2147483647) {
                Ok(n) => Ok(n as i32),
                Err(ScanEnd::BadDigit) => Err(IntError::InvalidDigit),
                Err(ScanEnd::TooBig) => Err(IntError::PosOverflow),
            }
        }
    } else {
        match scan_digits(s, 0, 0, 2147483647) {
            Ok(n) => Ok(n as i32),
            Err(ScanEnd::BadDigit) => Err(IntError::InvalidDigit),
            Err(ScanEnd::TooBig) => Err(IntError::PosOverflow),
        }
    }
}

proof fn lemma_scan_bounds(d: Seq<char>, i: int, acc: int, limit: int)
    requires
        0 <= acc <= limit,
    ensures
        scan_digits(d, i, acc, limit) matches Ok(n) ==> 0 <= n <= limit,
    decreases d.len() - i,
{
    if 0 <= i < d.len() && is_digit(d[i]) && acc * 10 + digit_value(d[i]) <= limit {
        lemma_scan_bounds(d, i + 1, acc * 10 + digit_value(d[i]), limit);
    }
}

/// Scans the digits `s[from..]` with the value bounded by `limit`.
fn scan_digits_exec(s: &Vec<char>, from: usize, limit: i64) -> (r: Result<i64, ScanEnd>)
    requires
        from <= s.len(),
        0 <= limit <= 4_000_000_000,
    ensures
        r matches Ok(n) ==> scan_digits(s@.skip(from as int), 0, 0, limit as int) == Ok::<
            int,
            ScanEnd,
        >(n as int),
        r matches Err(e) ==> scan_digits(s@.skip(from as int), 0, 0, limit as int) == Err::<
            int,
            ScanEnd,
        >(e),
{
    let ghost t = s@.skip(from as int);
    let mut acc: i64 = 0;
    let mut i: usize = from;
    while i < s.len()
        invariant
            from <= i <= s.len(),
            t == s@.skip(from as int),
            0 <= limit <= 4_000_000_000,
            0 <= acc <= limit,
            scan_digits(t, 0, 0, limit as int) == scan_digits(t, i - from, acc as int, limit as int),
        decreases s.len() - i,
    {
        let c = s[i];
        assert(c == t[i - from]);
        if !('0' <= c && c <= '9') {
            return Err(ScanEnd::BadDigit);
        }
        let d = (c as u32 - '0' as u32) as i64;
        let next = acc * 10 + d;
        if next > limit {
            return Err(ScanEnd::TooBig);
        }
        acc = next;
        i = i + 1;
    }
    Ok(acc)
}

/// Reads a decimal `i32`, with an optional leading `+` or `-`.
pub fn parse_i32(v: &str) -> (r: Result<i32, IntError>)
    ensures
        r == parse_i32_spec(v@),
{
    let s = chars_of(v);
    if s.len() == 0 {
        return Err(IntError::Empty);
    }
    if s[0] == '+' || s[0] == '-' {
        assert(s@.skip(1) =~= s@.drop_first());
        if s.len() == 1 {
            return Err(IntError::InvalidDigit);
        }
        if s[0] == '-' {
            match scan_digits_exec(&s, 1, 2147483648) {
                Ok(n) => {
                    proof {
                        lemma_scan_bounds(s@.drop_first(), 0, 0, 2147483648);
                    }
                    Ok((-n) as i32)
                },
                Err(ScanEnd::BadDigit) => Err(IntError::InvalidDigit),
                Err(ScanEnd::TooBig) => Err(IntError::NegOverflow),
            }
        } else {
            match scan_digits_exec(&s, 1, 2147483647) {
                Ok(n) => {
                    proof {
                        lemma_scan_bounds(s@.drop_first(), 0, 0, 2147483647);
                    }
                    Ok(n as i32)
                },
                Err(ScanEnd::BadDigit) => Err(IntError::InvalidDigit),
                Err(ScanEnd::TooBig) => Err(IntError::PosOverflow),
            }
        }
    } else {
        assert(s@.skip(0) =~= s@);
        match scan_digits_exec(&s, 0, 2147483647) {
            Ok(n) => {
                proof {
                    lemma_scan_bounds(s@, 0, 0, 2147483647);
                }
                Ok(n as i32)
            },
            Err(ScanEnd::BadDigit) => Err(IntError::InvalidDigit),
            Err(ScanEnd::TooBig) => Err(IntError::PosOverflow),
        }
    }
}

/// The `u64` that a text denotes: digits, optionally preceded by `+`, or the
/// reason it denotes none (a `-` is not a digit).
pub open spec fn parse_u64_spec(s: Seq<char>) -> Result<u64, IntError> {
    if s.len() == 0 {
        Err(IntError::Empty)
    } else if (s[0] == '+' || s[0] == '-') && s.len() == 1 {
        Err(IntError::InvalidDigit)
    } else {
        let d = if s[0] == '+' { s.drop_first() } else { s };
        match scan_digits(d, 0, 0, 18446744073709551615) {
            Ok(n) => Ok(n as u64),
            Err(ScanEnd::BadDigit) => Err(IntError::InvalidDigit),
            Err(ScanEnd::TooBig) => Err(IntError::PosOverflow),
        }
    }
}

/// Scans the digits `s[from..]` with the value bounded by `u64::MAX`.
fn scan_digits_u64(s: &Vec<char>, from: usize) -> (r: Result<u64, ScanEnd>)
    requires
        from <= s.len(),
    ensures
        r matches Ok(n) ==> scan_digits(s@.skip(from as int), 0, 0, 18446744073709551615)
            == Ok::<int, ScanEnd>(n as int),
        r matches Err(e) ==> scan_digits(s@.skip(from as int), 0, 0, 18446744073709551615)
            == Err::<int, ScanEnd>(e),
{
    let ghost t = s@.skip(from as int);
    let limit: u128 = 18446744073709551615;
    let mut acc: u128 = 0;
    let mut i: usize = from;
    while i < s.len()
        invariant
            from <= i <= s.len(),
            t == s@.skip(from as int),
            limit == 18446744073709551615,
            0 <= acc <= limit,
            scan_digits(t, 0, 0, limit as int) == scan_digits(t, i - from, acc as int, limit as int),
        decreases s.len() - i,
    {
        let c = s[i];
        assert(c == t[i - from]);
        if !('0' <= c && c <= '9') {
            return Err(ScanEnd::BadDigit);
        }
        let d = (c as u32 - '0' as u32) as u128;
        let next = acc * 10 + d;
        if next > limit {
            return Err(ScanEnd::TooBig);
        }
        acc = next;
        i = i + 1;
    }
    proof {
        lemma_scan_bounds(t, 0, 0, limit as int);
    }
    Ok(acc as u64)
}

/// Reads a decimal `u64`, with an optional leading `+`, as `str::parse`
/// does.
pub fn parse_u64(v: &str) -> (r: Result<u64, IntError>)
    ensures
        r == parse_u64_spec(v@),
{
    let s = chars_of(v);
    if s.len() == 0 {
        return Err(IntError::Empty);
    }
    if (s[0] == '+' || s[0] == '-') && s.len() == 1 {
        return Err(IntError::InvalidDigit);
    }
    let from: usize = if s[0] == '+' { 1 } else { 0 };
    assert(s@.skip(1) =~= s@.drop_first());
    assert(s@.skip(0) =~= s@);
    match scan_digits_u64(&s, from) {
        Ok(n) => Ok(n),
        Err(ScanEnd::BadDigit) => Err(IntError::InvalidDigit),
        Err(ScanEnd::TooBig) => Err(IntError::PosOverflow),
    }
}

/// The numbers among the texts, in order; texts that are not a `u64` are
/// skipped.
pub open spec fn parsed_ids(v: Seq<Seq<char>>) -> Seq<u64>
    decreases v.len(),
{
    if v.len() == 0 {
        Seq::empty()
    } else {
        let rest = parsed_ids(v.drop_last());
        match parse_u64_spec(v.last()) {
            Ok(n) => rest.push(n),
            Err(_) => rest,
        }
    }
}

/// The ids among the texts, in order, skipping those that are not numbers.
pub fn parse_ids(v: &Vec<String>) -> (r: Vec<u64>)
    ensures
        r@ == parsed_ids(crate::text::str_views(v@)),
{
    let ghost views = crate::text::str_views(v@);
    let mut ids: Vec<u64> = Vec::new();
    let mut i: usize = 0;
    while i < v.len()
        invariant
            i <= v.len(),
            views == crate::text::str_views(v@),
            ids@ == parsed_ids(views.take(i as int)),
        decreases v.len() - i,
    {
        assert(views.take(i + 1).drop_last() =~= views.take(i as int));
        assert(views.take(i + 1).last() == v@[i as int]@);
        match parse_u64(v[i].as_str()) {
            Ok(n) => {
                ids.push(n);
            },
            Err(_) => {},
        }
        i = i + 1;
    }
    assert(views.take(v.len() as int) =~= views);
    ids
}

impl IntError {
    /// The message shown to the user.
    pub fn message(&self) -> (r: String)
        ensures
            r@ == int_error_message(*self),
    {
        match self {
            IntError::Empty => crate::text::owned("cannot parse integer from empty string"),
            IntError::InvalidDigit => crate::text::owned("invalid digit found in string"),
            IntError::PosOverflow => crate::text::owned("number too large to fit in target type"),
            IntError::NegOverflow => crate::text::owned("number too small to fit in target type"),
        }
    }
}

/// The message of each way a number can be rejected.
pub open spec fn int_error_message(e: IntError) -> Seq<char> {
    match e {
        IntError::Empty => "cannot parse integer from empty string"@,
        IntError::InvalidDigit => "invalid digit found in string"@,
        IntError::PosOverflow => "number too large to fit in target type"@,
        IntError::NegOverflow => "number too small to fit in target type"@,
    }
}

// ----- Time periods -----

/// The number of hours in one of a unit, for the units that are known.
pub open spec fn unit_hours(u: Seq<char>) -> Option<int> {
    if u == "years"@ || u == "year"@ || u == "y"@ {
        Some(8760int)
    } else if u == "months"@ || u == "month"@ || u == "mo"@ || u == "m"@ {
        Some(720int)
    } else if u == "weeks"@ || u == "week"@ || u == "w"@ {
        Some(168int)
    } else if u == "days"@ || u == "day"@ || u == "d"@ {
        Some(24int)
    } else if u == "hours"@ || u == "hour"@ || u == "hrs"@ || u == "hr"@ || u == "h"@ {
        Some(1int)
    } else {
        None
    }
}

/// `v` holds exactly one space.
pub open spec fn one_space(v: Seq<char>) -> bool {
    let k = find_char(v, ' ');
    k < v.len() && char_free(v.skip(k + 1 as int), ' ')
}

/// The number part of `<number> <unit>`.
pub open spec fn time_part(v: Seq<char>) -> Seq<char> {
    v.take(find_char(v, ' ') as int)
}

/// The unit part of `<number> <unit>`.
pub open spec fn unit_part(v: Seq<char>) -> Seq<char> {
    v.skip(find_char(v, ' ') + 1 as int)
}

/// The number of hours that `<number> <unit>` stands for.
pub open spec fn parse_hrs_spec(v: Seq<char>) -> Result<int, HoursError> {
    if !one_space(v) {
        Err(HoursError::MissingSpace)
    } else {
        match parse_i32_spec(time_part(v)) {
            Err(e) => Err(HoursError::InvalidNumber(e)),
            Ok(n) => match unit_hours(unit_part(v)) {
                Some(h) => Ok(n * h),
                None => Err(HoursError::UnknownUnit),
            },
        }
    }
}

fn unit_hours_exec(u: &Vec<char>) -> (r: Option<i32>)
    ensures
        r matches Some(h) ==> unit_hours(u@) == Some(h as int),
        r is None ==> unit_hours(u@) is None,
{
    if is_one_of(u, "years", "year", "y", "y") {
        Some(365 * 24)
    } else if is_one_of(u, "months", "month", "mo", "m") {
        Some(30 * 24)
    } else if is_one_of(u, "weeks", "week", "w", "w") {
        Some(7 * 24)
    } else if is_one_of(u, "days", "day", "d", "d") {
        Some(24)
    } else if is_one_of(u, "hours", "hour", "hrs", "hr") || is_one_of(u, "h", "h", "h", "h") {
        Some(1)
    } else {
        None
    }
}

fn is_one_of(u: &Vec<char>, a: &str, b: &str, c: &str, d: &str) -> (r: bool)
    ensures
        r == (u@ == a@ || u@ == b@ || u@ == c@ || u@ == d@),
{
    chars_eq(u, &chars_of(a)) || chars_eq(u, &chars_of(b)) || chars_eq(u, &chars_of(c))
        || chars_eq(u, &chars_of(d))
}

/// Reads a time period `<number> <unit>` (one space between them) as a
/// number of hours. Units: years, months (30 days), weeks, days, hours.
pub fn parse_hrs(v: &str) -> (r: Result<i32, HoursError>)
    requires
        parse_hrs_spec(v@) matches Ok(n) ==> i32::MIN <= n <= i32::MAX,
    ensures
        parse_hrs_spec(v@) matches Ok(n) ==> r == Ok::<i32, HoursError>(n as i32),
        parse_hrs_spec(v@) matches Err(e) ==> r == Err::<i32, HoursError>(e),
{
    let s = chars_of(v);
    let k = find_char_exec(&s, ' ');
    if k == s.len() {
        return Err(HoursError::MissingSpace);
    }
    let unit = sub_chars(&s, k + 1, s.len());
    assert(unit@ =~= s@.skip(k + 1 as int));
    let k2 = find_char_exec(&unit, ' ');
    if k2 < unit.len() {
        proof {
            crate::text::lemma_find_char(unit@, ' ');
        }
        return Err(HoursError::MissingSpace);
    }
    proof {
        crate::text::lemma_find_char(unit@, ' ');
    }
    let time = sub_chars(&s, 0, k);
    assert(time@ =~= s@.take(k as int));
    let time_str = crate::text::string_from_chars(&time);
    let n = match parse_i32(time_str.as_str()) {
        Ok(n) => n,
        Err(e) => {
            return Err(HoursError::InvalidNumber(e));
        },
    };
    match unit_hours_exec(&unit) {
        Some(h) => {
            assert(i32::MIN <= n * h <= i32::MAX);
            Ok(n * h)
        },
        None => Err(HoursError::UnknownUnit),
    }
}

/// Scanning a text with one more digit at its end scans the text, then that
/// digit.
proof fn lemma_scan_push(d: Seq<char>, c: char, i: int, acc: int, limit: int)
    requires
        is_digit(c),
        0 <= i <= d.len(),
    ensures
        scan_digits(d.push(c), i, acc, limit) == match scan_digits(d, i, acc, limit) {
            Ok(v) => if v * 10 + digit_value(c) > limit {
                Err::<int, ScanEnd>(ScanEnd::TooBig)
            } else {
                Ok(v * 10 + digit_value(c))
            },
            Err(e) => Err(e),
        },
    decreases d.len() - i,
{
    let s = d.push(c);
    if i < d.len() {
        assert(s[i] == d[i]);
        if is_digit(d[i]) && acc * 10 + digit_value(d[i]) <= limit {
            lemma_scan_push(d, c, i + 1, acc * 10 + digit_value(d[i]), limit);
        }
    } else {
        assert(s[i] == c);
        assert(scan_digits(s, i + 1, acc * 10 + digit_value(c), limit) == Ok::<int, ScanEnd>(
            acc * 10 + digit_value(c),
        ));
    }
}

/// The decimal text of a number is made of digits, and scanning it gives
/// the number back.
proof fn lemma_decimal_scans(n: nat, limit: int)
    requires
        n <= limit,
    ensures
        decimal_spec(n).len() > 0,
        forall|k: int| 0 <= k < decimal_spec(n).len() ==> is_digit(#[trigger] decimal_spec(n)[k]),
        scan_digits(decimal_spec(n), 0, 0, limit) == Ok::<int, ScanEnd>(n as int),
    decreases n,
{
    let d = n % 10;
    assert(is_digit(digit_char(d)) && digit_value(digit_char(d)) == d) by {
        assert(0 <= d < 10);
    }
    if n < 10 {
        assert(decimal_spec(n) =~= seq![digit_char(n)]);
        assert(scan_digits(seq![digit_char(n)], 1, n as int, limit) == Ok::<int, ScanEnd>(n as int));
    } else {
        let q = (n / 10) as nat;
        lemma_decimal_scans(q, limit);
        let head = decimal_spec(q);
        assert(decimal_spec(n) =~= head.push(digit_char(d)));
        lemma_scan_push(head, digit_char(d), 0, 0, limit);
        assert(q * 10 + d == n);
        assert forall|k: int| 0 <= k < decimal_spec(n).len() implies is_digit(
            #[trigger] decimal_spec(n)[k],
        ) by {
            if k < head.len() {
                assert(decimal_spec(n)[k] == head[k]);
            }
        }
    }
}

/// A number written in decimal reads back as the same number: the ids the
/// bot writes out are the ids it reads in.
pub proof fn law_decimal_reads_back(n: u64)
    ensures
        parse_u64_spec(decimal_spec(n as nat)) == Ok::<u64, IntError>(n),
{
    lemma_decimal_scans(n as nat, 18446744073709551615);
    let t = decimal_spec(n as nat);
    assert(is_digit(t[0]));
}

/// `<n> <unit>`, with `n` written in decimal, reads as `n` times the hours
/// of the unit, or fails on the unit.
proof fn lemma_hours_of_written(n: nat, u: Seq<char>)
    requires
        n <= 2147483647,
        char_free(u, ' '),
    ensures
        parse_hrs_spec(period_text(n, u)) == match unit_hours(u) {
            Some(h) => Ok::<int, HoursError>(n * h),
            None => Err::<int, HoursError>(HoursError::UnknownUnit),
        },
{
    lemma_decimal_scans(n, 2147483647);
    let d = decimal_spec(n);
    let v = d + seq![' '] + u;
    assert forall|j: int| 0 <= j < d.len() implies v[j] != ' ' by {
        assert(v[j] == d[j]);
        assert(is_digit(d[j]));
    }
    crate::text::lemma_find_char_at(v, ' ', d.len() as int);
    assert(v.take(d.len() as int) =~= d);
    assert(v.skip(d.len() + 1 as int) =~= u);
    assert(time_part(v) == d);
    assert(unit_part(v) == u);
    assert(one_space(v));
    assert(is_digit(d[0]));
    assert(parse_i32_spec(d) == Ok::<i32, IntError>(n as i32));
}

/// `<n> <unit>`: a number in decimal, one space, a unit.
pub open spec fn period_text(n: nat, u: Seq<char>) -> Seq<char> {
    decimal_spec(n) + seq![' '] + u
}

/// `<n> years`: a year is 365 days of 24 hours, written in full, in the singular or abbreviated.
pub proof fn law_time_unit_years(n: u32)
    requires
        n <= 2147483647,
    ensures
        parse_hrs_spec(period_text(n as nat, "years"@)) == Ok::<int, HoursError>(n * 8760),
        parse_hrs_spec(period_text(n as nat, "year"@)) == Ok::<int, HoursError>(n * 8760),
        parse_hrs_spec(period_text(n as nat, "y"@)) == Ok::<int, HoursError>(n * 8760),
{
    assert(parse_hrs_spec(period_text(n as nat, "years"@)) == Ok::<int, HoursError>(n * 8760)) by {
        reveal_strlit("years");
        reveal_strlit("months");
        reveal_strlit("month");
        reveal_strlit("mo");
        reveal_strlit("m");
        reveal_strlit("weeks");
        reveal_strlit("week");
        reveal_strlit("w");
        reveal_strlit("days");
        reveal_strlit("day");
        reveal_strlit("d");
        reveal_strlit("hours");
        reveal_strlit("hour");
        reveal_strlit("hrs");
        reveal_strlit("hr");
        reveal_strlit("h");
        assert("years"@.len() != "months"@.len());
        assert("years"@[0] != "month"@[0]);
        assert("years"@.len() != "mo"@.len());
        assert("years"@.len() != "m"@.len());
        assert("years"@[0] != "weeks"@[0]);
        assert("years"@.len() != "week"@.len());
        assert("years"@.len() != "w"@.len());
        assert("years"@.len() != "days"@.len());
        assert("years"@.len() != "day"@.len());
        assert("years"@.len() != "d"@.len());
        assert("years"@[0] != "hours"@[0]);
        assert("years"@.len() != "hour"@.len());
        assert("years"@.len() != "hrs"@.len());
        assert("years"@.len() != "hr"@.len());
        assert("years"@.len() != "h"@.len());
        assert(unit_hours("years"@) == Some(8760int));
        lemma_hours_of_written(n as nat, "years"@);
    }
    assert(parse_hrs_spec(period_text(n as nat, "year"@)) == Ok::<int, HoursError>(n * 8760)) by {
        reveal_strlit("year");
        reveal_strlit("months");
        reveal_strlit("month");
        reveal_strlit("mo");
        reveal_strlit("m");
        reveal_strlit("weeks");
        reveal_strlit("week");
        reveal_strlit("w");
        reveal_strlit("days");
        reveal_strlit("day");
        reveal_strlit("d");
        reveal_strlit("hours");
        reveal_strlit("hour");
        reveal_strlit("hrs");
        reveal_strlit("hr");
        reveal_strlit("h");
        assert("year"@.len() != "months"@.len());
        assert("year"@.len() != "month"@.len());
        assert("year"@.len() != "mo"@.len());
        assert("year"@.len() != "m"@.len());
        assert("year"@.len() != "weeks"@.len());
        assert("year"@[0] != "week"@[0]);
        assert("year"@.len() != "w"@.len());
        assert("year"@[0] != "days"@[0]);
        assert("year"@.len() != "day"@.len());
        assert("year"@.len() != "d"@.len());
        assert("year"@.len() != "hours"@.len());
        assert("year"@[0] != "hour"@[0]);
        assert("year"@.len() != "hrs"@.len());
        assert("year"@.len() != "hr"@.len());
        assert("year"@.len() != "h"@.len());
        assert(unit_hours("year"@) == Some(8760int));
        lemma_hours_of_written(n as nat, "year"@);
    }
    assert(parse_hrs_spec(period_text(n as nat, "y"@)) == Ok::<int, HoursError>(n * 8760)) by {
        reveal_strlit("y");
        reveal_strlit("months");
        reveal_strlit("month");
        reveal_strlit("mo");
        reveal_strlit("m");
        reveal_strlit("weeks");
        reveal_strlit("week");
        reveal_strlit("w");
        reveal_strlit("days");
        reveal_strlit("day");
        reveal_strlit("d");
        reveal_strlit("hours");
        reveal_strlit("hour");
        reveal_strlit("hrs");
        reveal_strlit("hr");
        reveal_strlit("h");
        assert("y"@.len() != "months"@.len());
        assert("y"@.len() != "month"@.len());
        assert("y"@.len() != "mo"@.len());
        assert("y"@[0] != "m"@[0]);
        assert("y"@.len() != "weeks"@.len());
        assert("y"@.len() != "week"@.len());
        assert("y"@[0] != "w"@[0]);
        assert("y"@.len() != "days"@.len());
        assert("y"@.len() != "day"@.len());
        assert("y"@[0] != "d"@[0]);
        assert("y"@.len() != "hours"@.len());
        assert("y"@.len() != "hour"@.len());
        assert("y"@.len() != "hrs"@.len());
        assert("y"@.len() != "hr"@.len());
        assert("y"@[0] != "h"@[0]);
        assert(unit_hours("y"@) == Some(8760int));
        lemma_hours_of_written(n as nat, "y"@);
    }
}

/// `<n> months`: a month is 30 days of 24 hours, written in full, in the singular or abbreviated.
pub proof fn law_time_unit_months(n: u32)
    requires
        n <= 2147483647,
    ensures
        parse_hrs_spec(period_text(n as nat, "months"@)) == Ok::<int, HoursError>(n * 720),
        parse_hrs_spec(period_text(n as nat, "month"@)) == Ok::<int, HoursError>(n * 720),
        parse_hrs_spec(period_text(n as nat, "mo"@)) == Ok::<int, HoursError>(n * 720),
        parse_hrs_spec(period_text(n as nat, "m"@)) == Ok::<int, HoursError>(n * 720),
{
    assert(parse_hrs_spec(period_text(n as nat, "months"@)) == Ok::<int, HoursError>(n * 720)) by {
        reveal_strlit("years");
        reveal_strlit("year");
        reveal_strlit("y");
        reveal_strlit("months");
        reveal_strlit("weeks");
        reveal_strlit("week");
        reveal_strlit("w");
        reveal_strlit("days");
        reveal_strlit("day");
        reveal_strlit("d");
        reveal_strlit("hours");
        reveal_strlit("hour");
        reveal_strlit("hrs");
        reveal_strlit("hr");
        reveal_strlit("h");
        assert("months"@.len() != "years"@.len());
        assert("months"@.len() != "year"@.len());
        assert("months"@.len() != "y"@.len());
        assert("months"@.len() != "weeks"@.len());
        assert("months"@.len() != "week"@.len());
        assert("months"@.len() != "w"@.len());
        assert("months"@.len() != "days"@.len());
        assert("months"@.len() != "day"@.len());
        assert("months"@.len() != "d"@.len());
        assert("months"@.len() != "hours"@.len());
        assert("months"@.len() != "hour"@.len());
        assert("months"@.len() != "hrs"@.len());
        assert("months"@.len() != "hr"@.len());
        assert("months"@.len() != "h"@.len());
        assert(unit_hours("months"@) == Some(720int));
        lemma_hours_of_written(n as nat, "months"@);
    }
    assert(parse_hrs_spec(period_text(n as nat, "month"@)) == Ok::<int, HoursError>(n * 720)) by {
        reveal_strlit("years");
        reveal_strlit("year");
        reveal_strlit("y");
        reveal_strlit("month");
        reveal_strlit("weeks");
        reveal_strlit("week");
        reveal_strlit("w");
        reveal_strlit("days");
        reveal_strlit("day");
        reveal_strlit("d");
        reveal_strlit("hours");
        reveal_strlit("hour");
        reveal_strlit("hrs");
        reveal_strlit("hr");
        reveal_strlit("h");
        assert("month"@[0] != "years"@[0]);
        assert("month"@.len() != "year"@.len());
        assert("month"@.len() != "y"@.len());
        assert("month"@[0] != "weeks"@[0]);
        assert("month"@.len() != "week"@.len());
        assert("month"@.len() != "w"@.len());
        assert("month"@.len() != "days"@.len());
        assert("month"@.len() != "day"@.len());
        assert("month"@.len() != "d"@.len());
        assert("month"@[0] != "hours"@[0]);
        assert("month"@.len() != "hour"@.len());
        assert("month"@.len() != "hrs"@.len());
        assert("month"@.len() != "hr"@.len());
        assert("month"@.len() != "h"@.len());
        assert(unit_hours("month"@) == Some(720int));
        lemma_hours_of_written(n as nat, "month"@);
    }
    assert(parse_hrs_spec(period_text(n as nat, "mo"@)) == Ok::<int, HoursError>(n * 720)) by {
        reveal_strlit("years");
        reveal_strlit("year");
        reveal_strlit("y");
        reveal_strlit("mo");
        reveal_strlit("weeks");
        reveal_strlit("week");
        reveal_strlit("w");
        reveal_strlit("days");
        reveal_strlit("day");
        reveal_strlit("d");
        reveal_strlit("hours");
        reveal_strlit("hour");
        reveal_strlit("hrs");
        reveal_strlit("hr");
        reveal_strlit("h");
        assert("mo"@.len() != "years"@.len());
        assert("mo"@.len() != "year"@.len());
        assert("mo"@.len() != "y"@.len());
        assert("mo"@.len() != "weeks"@.len());
        assert("mo"@.len() != "week"@.len());
        assert("mo"@.len() != "w"@.len());
        assert("mo"@.len() != "days"@.len());
        assert("mo"@.len() != "day"@.len());
        assert("mo"@.len() != "d"@.len());
        assert("mo"@.len() != "hours"@.len());
        assert("mo"@.len() != "hour"@.len());
        assert("mo"@.len() != "hrs"@.len());
        assert("mo"@[0] != "hr"@[0]);
        assert("mo"@.len() != "h"@.len());
        assert(unit_hours("mo"@) == Some(720int));
        lemma_hours_of_written(n as nat, "mo"@);
    }
    assert(parse_hrs_spec(period_text(n as nat, "m"@)) == Ok::<int, HoursError>(n * 720)) by {
        reveal_strlit("years");
        reveal_strlit("year");
        reveal_strlit("y");
        reveal_strlit("m");
        reveal_strlit("weeks");
        reveal_strlit("week");
        reveal_strlit("w");
        reveal_strlit("days");
        reveal_strlit("day");
        reveal_strlit("d");
        reveal_strlit("hours");
        reveal_strlit("hour");
        reveal_strlit("hrs");
        reveal_strlit("hr");
        reveal_strlit("h");
        assert("m"@.len() != "years"@.len());
        assert("m"@.len() != "year"@.len());
        assert("m"@[0] != "y"@[0]);
        assert("m"@.len() != "weeks"@.len());
        assert("m"@.len() != "week"@.len());
        assert("m"@[0] != "w"@[0]);
        assert("m"@.len() != "days"@.len());
        assert("m"@.len() != "day"@.len());
        assert("m"@[0] != "d"@[0]);
        assert("m"@.len() != "hours"@.len());
        assert("m"@.len() != "hour"@.len());
        assert("m"@.len() != "hrs"@.len());
        assert("m"@.len() != "hr"@.len());
        assert("m"@[0] != "h"@[0]);
        assert(unit_hours("m"@) == Some(720int));
        lemma_hours_of_written(n as nat, "m"@);
    }
}

/// `<n> weeks`: a week is 7 days of 24 hours, written in full, in the singular or abbreviated.
pub proof fn law_time_unit_weeks(n: u32)
    requires
        n <= 2147483647,
    ensures
        parse_hrs_spec(period_text(n as nat, "weeks"@)) == Ok::<int, HoursError>(n * 168),
        parse_hrs_spec(period_text(n as nat, "week"@)) == Ok::<int, HoursError>(n * 168),
        parse_hrs_spec(period_text(n as nat, "w"@)) == Ok::<int, HoursError>(n * 168),
{
    assert(parse_hrs_spec(period_text(n as nat, "weeks"@)) == Ok::<int, HoursError>(n * 168)) by {
        reveal_strlit("years");
        reveal_strlit("year");
        reveal_strlit("y");
        reveal_strlit("months");
        reveal_strlit("month");
        reveal_strlit("mo");
        reveal_strlit("m");
        reveal_strlit("weeks");
        reveal_strlit("days");
        reveal_strlit("day");
        reveal_strlit("d");
        reveal_strlit("hours");
        reveal_strlit("hour");
        reveal_strlit("hrs");
        reveal_strlit("hr");
        reveal_strlit("h");
        assert("weeks"@[0] != "years"@[0]);
        assert("weeks"@.len() != "year"@.len());
        assert("weeks"@.len() != "y"@.len());
        assert("weeks"@.len() != "months"@.len());
        assert("weeks"@[0] != "month"@[0]);
        assert("weeks"@.len() != "mo"@.len());
        assert("weeks"@.len() != "m"@.len());
        assert("weeks"@.len() != "days"@.len());
        assert("weeks"@.len() != "day"@.len());
        assert("weeks"@.len() != "d"@.len());
        assert("weeks"@[0] != "hours"@[0]);
        assert("weeks"@.len() != "hour"@.len());
        assert("weeks"@.len() != "hrs"@.len());
        assert("weeks"@.len() != "hr"@.len());
        assert("weeks"@.len() != "h"@.len());
        assert(unit_hours("weeks"@) == Some(168int));
        lemma_hours_of_written(n as nat, "weeks"@);
    }
    assert(parse_hrs_spec(period_text(n as nat, "week"@)) == Ok::<int, HoursError>(n * 168)) by {
        reveal_strlit("years");
        reveal_strlit("year");
        reveal_strlit("y");
        reveal_strlit("months");
        reveal_strlit("month");
        reveal_strlit("mo");
        reveal_strlit("m");
        reveal_strlit("week");
        reveal_strlit("days");
        reveal_strlit("day");
        reveal_strlit("d");
        reveal_strlit("hours");
        reveal_strlit("hour");
        reveal_strlit("hrs");
        reveal_strlit("hr");
        reveal_strlit("h");
        assert("week"@.len() != "years"@.len());
        assert("week"@[0] != "year"@[0]);
        assert("week"@.len() != "y"@.len());
        assert("week"@.len() != "months"@.len());
        assert("week"@.len() != "month"@.len());
        assert("week"@.len() != "mo"@.len());
        assert("week"@.len() != "m"@.len());
        assert("week"@[0] != "days"@[0]);
        assert("week"@.len() != "day"@.len());
        assert("week"@.len() != "d"@.len());
        assert("week"@.len() != "hours"@.len());
        assert("week"@[0] != "hour"@[0]);
        assert("week"@.len() != "hrs"@.len());
        assert("week"@.len() != "hr"@.len());
        assert("week"@.len() != "h"@.len());
        assert(unit_hours("week"@) == Some(168int));
        lemma_hours_of_written(n as nat, "week"@);
    }
    assert(parse_hrs_spec(period_text(n as nat, "w"@)) == Ok::<int, HoursError>(n * 168)) by {
        reveal_strlit("years");
        reveal_strlit("year");
        reveal_strlit("y");
        reveal_strlit("months");
        reveal_strlit("month");
        reveal_strlit("mo");
        reveal_strlit("m");
        reveal_strlit("w");
        reveal_strlit("days");
        reveal_strlit("day");
        reveal_strlit("d");
        reveal_strlit("hours");
        reveal_strlit("hour");
        reveal_strlit("hrs");
        reveal_strlit("hr");
        reveal_strlit("h");
        assert("w"@.len() != "years"@.len());
        assert("w"@.len() != "year"@.len());
        assert("w"@[0] != "y"@[0]);
        assert("w"@.len() != "months"@.len());
        assert("w"@.len() != "month"@.len());
        assert("w"@.len() != "mo"@.len());
        assert("w"@[0] != "m"@[0]);
        assert("w"@.len() != "days"@.len());
        assert("w"@.len() != "day"@.len());
        assert("w"@[0] != "d"@[0]);
        assert("w"@.len() != "hours"@.len());
        assert("w"@.len() != "hour"@.len());
        assert("w"@.len() != "hrs"@.len());
        assert("w"@.len() != "hr"@.len());
        assert("w"@[0] != "h"@[0]);
        assert(unit_hours("w"@) == Some(168int));
        lemma_hours_of_written(n as nat, "w"@);
    }
}

/// `<n> days`: a day is 24 hours, written in full, in the singular or abbreviated.
pub proof fn law_time_unit_days(n: u32)
    requires
        n <= 2147483647,
    ensures
        parse_hrs_spec(period_text(n as nat, "days"@)) == Ok::<int, HoursError>(n * 24),
        parse_hrs_spec(period_text(n as nat, "day"@)) == Ok::<int, HoursError>(n * 24),
        parse_hrs_spec(period_text(n as nat, "d"@)) == Ok::<int, HoursError>(n * 24),
{
    assert(parse_hrs_spec(period_text(n as nat, "days"@)) == Ok::<int, HoursError>(n * 24)) by {
        reveal_strlit("years");
        reveal_strlit("year");
        reveal_strlit("y");
        reveal_strlit("months");
        reveal_strlit("month");
        reveal_strlit("mo");
        reveal_strlit("m");
        reveal_strlit("weeks");
        reveal_strlit("week");
        reveal_strlit("w");
        reveal_strlit("days");
        reveal_strlit("hours");
        reveal_strlit("hour");
        reveal_strlit("hrs");
        reveal_strlit("hr");
        reveal_strlit("h");
        assert("days"@.len() != "years"@.len());
        assert("days"@[0] != "year"@[0]);
        assert("days"@.len() != "y"@.len());
        assert("days"@.len() != "months"@.len());
        assert("days"@.len() != "month"@.len());
        assert("days"@.len() != "mo"@.len());
        assert("days"@.len() != "m"@.len());
        assert("days"@.len() != "weeks"@.len());
        assert("days"@[0] != "week"@[0]);
        assert("days"@.len() != "w"@.len());
        assert("days"@.len() != "hours"@.len());
        assert("days"@[0] != "hour"@[0]);
        assert("days"@.len() != "hrs"@.len());
        assert("days"@.len() != "hr"@.len());
        assert("days"@.len() != "h"@.len());
        assert(unit_hours("days"@) == Some(24int));
        lemma_hours_of_written(n as nat, "days"@);
    }
    assert(parse_hrs_spec(period_text(n as nat, "day"@)) == Ok::<int, HoursError>(n * 24)) by {
        reveal_strlit("years");
        reveal_strlit("year");
        reveal_strlit("y");
        reveal_strlit("months");
        reveal_strlit("month");
        reveal_strlit("mo");
        reveal_strlit("m");
        reveal_strlit("weeks");
        reveal_strlit("week");
        reveal_strlit("w");
        reveal_strlit("day");
        reveal_strlit("hours");
        reveal_strlit("hour");
        reveal_strlit("hrs");
        reveal_strlit("hr");
        reveal_strlit("h");
        assert("day"@.len() != "years"@.len());
        assert("day"@.len() != "year"@.len());
        assert("day"@.len() != "y"@.len());
        assert("day"@.len() != "months"@.len());
        assert("day"@.len() != "month"@.len());
        assert("day"@.len() != "mo"@.len());
        assert("day"@.len() != "m"@.len());
        assert("day"@.len() != "weeks"@.len());
        assert("day"@.len() != "week"@.len());
        assert("day"@.len() != "w"@.len());
        assert("day"@.len() != "hours"@.len());
        assert("day"@.len() != "hour"@.len());
        assert("day"@[0] != "hrs"@[0]);
        assert("day"@.len() != "hr"@.len());
        assert("day"@.len() != "h"@.len());
        assert(unit_hours("day"@) == Some(24int));
        lemma_hours_of_written(n as nat, "day"@);
    }
    assert(parse_hrs_spec(period_text(n as nat, "d"@)) == Ok::<int, HoursError>(n * 24)) by {
        reveal_strlit("years");
        reveal_strlit("year");
        reveal_strlit("y");
        reveal_strlit("months");
        reveal_strlit("month");
        reveal_strlit("mo");
        reveal_strlit("m");
        reveal_strlit("weeks");
        reveal_strlit("week");
        reveal_strlit("w");
        reveal_strlit("d");
        reveal_strlit("hours");
        reveal_strlit("hour");
        reveal_strlit("hrs");
        reveal_strlit("hr");
        reveal_strlit("h");
        assert("d"@.len() != "years"@.len());
        assert("d"@.len() != "year"@.len());
        assert("d"@[0] != "y"@[0]);
        assert("d"@.len() != "months"@.len());
        assert("d"@.len() != "month"@.len());
        assert("d"@.len() != "mo"@.len());
        assert("d"@[0] != "m"@[0]);
        assert("d"@.len() != "weeks"@.len());
        assert("d"@.len() != "week"@.len());
        assert("d"@[0] != "w"@[0]);
        assert("d"@.len() != "hours"@.len());
        assert("d"@.len() != "hour"@.len());
        assert("d"@.len() != "hrs"@.len());
        assert("d"@.len() != "hr"@.len());
        assert("d"@[0] != "h"@[0]);
        assert(unit_hours("d"@) == Some(24int));
        lemma_hours_of_written(n as nat, "d"@);
    }
}

/// `<n> hours`: an hour is 1 hour, written in full, in the singular or abbreviated.
pub proof fn law_time_unit_hours(n: u32)
    requires
        n <= 2147483647,
    ensures
        parse_hrs_spec(period_text(n as nat, "hours"@)) == Ok::<int, HoursError>(n as int),
        parse_hrs_spec(period_text(n as nat, "hour"@)) == Ok::<int, HoursError>(n as int),
        parse_hrs_spec(period_text(n as nat, "hrs"@)) == Ok::<int, HoursError>(n as int),
        parse_hrs_spec(period_text(n as nat, "hr"@)) == Ok::<int, HoursError>(n as int),
        parse_hrs_spec(period_text(n as nat, "h"@)) == Ok::<int, HoursError>(n as int),
{
    assert(parse_hrs_spec(period_text(n as nat, "hours"@)) == Ok::<int, HoursError>(n as int)) by {
        reveal_strlit("years");
        reveal_strlit("year");
        reveal_strlit("y");
        reveal_strlit("months");
        reveal_strlit("month");
        reveal_strlit("mo");
        reveal_strlit("m");
        reveal_strlit("weeks");
        reveal_strlit("week");
        reveal_strlit("w");
        reveal_strlit("days");
        reveal_strlit("day");
        reveal_strlit("d");
        reveal_strlit("hours");
        assert("hours"@[0] != "years"@[0]);
        assert("hours"@.len() != "year"@.len());
        assert("hours"@.len() != "y"@.len());
        assert("hours"@.len() != "months"@.len());
        assert("hours"@[0] != "month"@[0]);
        assert("hours"@.len() != "mo"@.len());
        assert("hours"@.len() != "m"@.len());
        assert("hours"@[0] != "weeks"@[0]);
        assert("hours"@.len() != "week"@.len());
        assert("hours"@.len() != "w"@.len());
        assert("hours"@.len() != "days"@.len());
        assert("hours"@.len() != "day"@.len());
        assert("hours"@.len() != "d"@.len());
        assert(unit_hours("hours"@) == Some(1int));
        lemma_hours_of_written(n as nat, "hours"@);
        assert((n as nat) * 1int == n as int);
    }
    assert(parse_hrs_spec(period_text(n as nat, "hour"@)) == Ok::<int, HoursError>(n as int)) by {
        reveal_strlit("years");
        reveal_strlit("year");
        reveal_strlit("y");
        reveal_strlit("months");
        reveal_strlit("month");
        reveal_strlit("mo");
        reveal_strlit("m");
        reveal_strlit("weeks");
        reveal_strlit("week");
        reveal_strlit("w");
        reveal_strlit("days");
        reveal_strlit("day");
        reveal_strlit("d");
        reveal_strlit("hour");
        assert("hour"@.len() != "years"@.len());
        assert("hour"@[0] != "year"@[0]);
        assert("hour"@.len() != "y"@.len());
        assert("hour"@.len() != "months"@.len());
        assert("hour"@.len() != "month"@.len());
        assert("hour"@.len() != "mo"@.len());
        assert("hour"@.len() != "m"@.len());
        assert("hour"@.len() != "weeks"@.len());
        assert("hour"@[0] != "week"@[0]);
        assert("hour"@.len() != "w"@.len());
        assert("hour"@[0] != "days"@[0]);
        assert("hour"@.len() != "day"@.len());
        assert("hour"@.len() != "d"@.len());
        assert(unit_hours("hour"@) == Some(1int));
        lemma_hours_of_written(n as nat, "hour"@);
        assert((n as nat) * 1int == n as int);
    }
    assert(parse_hrs_spec(period_text(n as nat, "hrs"@)) == Ok::<int, HoursError>(n as int)) by {
        reveal_strlit("years");
        reveal_strlit("year");
        reveal_strlit("y");
        reveal_strlit("months");
        reveal_strlit("month");
        reveal_strlit("mo");
        reveal_strlit("m");
        reveal_strlit("weeks");
        reveal_strlit("week");
        reveal_strlit("w");
        reveal_strlit("days");
        reveal_strlit("day");
        reveal_strlit("d");
        reveal_strlit("hrs");
        assert("hrs"@.len() != "years"@.len());
        assert("hrs"@.len() != "year"@.len());
        assert("hrs"@.len() != "y"@.len());
        assert("hrs"@.len() != "months"@.len());
        assert("hrs"@.len() != "month"@.len());
        assert("hrs"@.len() != "mo"@.len());
        assert("hrs"@.len() != "m"@.len());
        assert("hrs"@.len() != "weeks"@.len());
        assert("hrs"@.len() != "week"@.len());
        assert("hrs"@.len() != "w"@.len());
        assert("hrs"@.len() != "days"@.len());
        assert("hrs"@[0] != "day"@[0]);
        assert("hrs"@.len() != "d"@.len());
        assert(unit_hours("hrs"@) == Some(1int));
        lemma_hours_of_written(n as nat, "hrs"@);
        assert((n as nat) * 1int == n as int);
    }
    assert(parse_hrs_spec(period_text(n as nat, "hr"@)) == Ok::<int, HoursError>(n as int)) by {
        reveal_strlit("years");
        reveal_strlit("year");
        reveal_strlit("y");
        reveal_strlit("months");
        reveal_strlit("month");
        reveal_strlit("mo");
        reveal_strlit("m");
        reveal_strlit("weeks");
        reveal_strlit("week");
        reveal_strlit("w");
        reveal_strlit("days");
        reveal_strlit("day");
        reveal_strlit("d");
        reveal_strlit("hr");
        assert("hr"@.len() != "years"@.len());
        assert("hr"@.len() != "year"@.len());
        assert("hr"@.len() != "y"@.len());
        assert("hr"@.len() != "months"@.len());
        assert("hr"@.len() != "month"@.len());
        assert("hr"@[0] != "mo"@[0]);
        assert("hr"@.len() != "m"@.len());
        assert("hr"@.len() != "weeks"@.len());
        assert("hr"@.len() != "week"@.len());
        assert("hr"@.len() != "w"@.len());
        assert("hr"@.len() != "days"@.len());
        assert("hr"@.len() != "day"@.len());
        assert("hr"@.len() != "d"@.len());
        assert(unit_hours("hr"@) == Some(1int));
        lemma_hours_of_written(n as nat, "hr"@);
        assert((n as nat) * 1int == n as int);
    }
    assert(parse_hrs_spec(period_text(n as nat, "h"@)) == Ok::<int, HoursError>(n as int)) by {
        reveal_strlit("years");
        reveal_strlit("year");
        reveal_strlit("y");
        reveal_strlit("months");
        reveal_strlit("month");
        reveal_strlit("mo");
        reveal_strlit("m");
        reveal_strlit("weeks");
        reveal_strlit("week");
        reveal_strlit("w");
        reveal_strlit("days");
        reveal_strlit("day");
        reveal_strlit("d");
        reveal_strlit("h");
        assert("h"@.len() != "years"@.len());
        assert("h"@.len() != "year"@.len());
        assert("h"@[0] != "y"@[0]);
        assert("h"@.len() != "months"@.len());
        assert("h"@.len() != "month"@.len());
        assert("h"@.len() != "mo"@.len());
        assert("h"@[0] != "m"@[0]);
        assert("h"@.len() != "weeks"@.len());
        assert("h"@.len() != "week"@.len());
        assert("h"@[0] != "w"@[0]);
        assert("h"@.len() != "days"@.len());
        assert("h"@.len() != "day"@.len());
        assert("h"@[0] != "d"@[0]);
        assert(unit_hours("h"@) == Some(1int));
        lemma_hours_of_written(n as nat, "h"@);
        assert((n as nat) * 1int == n as int);
    }
}

/// The units of a time period and their hours: a year is 365 days of 24
/// hours (8760), a month 30 days (720), a week 7 days (168), a day 24 hours,
/// and an hour 1; so `3 weeks` is 504 hours.
pub proof fn law_time_units(n: u32)
    requires
        n <= 2147483647,
    ensures
        parse_hrs_spec(period_text(n as nat, "years"@)) == Ok::<int, HoursError>(n * 8760),
        parse_hrs_spec(period_text(n as nat, "year"@)) == Ok::<int, HoursError>(n * 8760),
        parse_hrs_spec(period_text(n as nat, "y"@)) == Ok::<int, HoursError>(n * 8760),
        parse_hrs_spec(period_text(n as nat, "months"@)) == Ok::<int, HoursError>(n * 720),
        parse_hrs_spec(period_text(n as nat, "month"@)) == Ok::<int, HoursError>(n * 720),
        parse_hrs_spec(period_text(n as nat, "mo"@)) == Ok::<int, HoursError>(n * 720),
        parse_hrs_spec(period_text(n as nat, "m"@)) == Ok::<int, HoursError>(n * 720),
        parse_hrs_spec(period_text(n as nat, "weeks"@)) == Ok::<int, HoursError>(n * 168),
        parse_hrs_spec(period_text(n as nat, "week"@)) == Ok::<int, HoursError>(n * 168),
        parse_hrs_spec(period_text(n as nat, "w"@)) == Ok::<int, HoursError>(n * 168),
        parse_hrs_spec(period_text(n as nat, "days"@)) == Ok::<int, HoursError>(n * 24),
        parse_hrs_spec(period_text(n as nat, "day"@)) == Ok::<int, HoursError>(n * 24),
        parse_hrs_spec(period_text(n as nat, "d"@)) == Ok::<int, HoursError>(n * 24),
        parse_hrs_spec(period_text(n as nat, "hours"@)) == Ok::<int, HoursError>(n as int),
        parse_hrs_spec(period_text(n as nat, "hour"@)) == Ok::<int, HoursError>(n as int),
        parse_hrs_spec(period_text(n as nat, "hrs"@)) == Ok::<int, HoursError>(n as int),
        parse_hrs_spec(period_text(n as nat, "hr"@)) == Ok::<int, HoursError>(n as int),
        parse_hrs_spec(period_text(n as nat, "h"@)) == Ok::<int, HoursError>(n as int),
{
    law_time_unit_years(n);
    law_time_unit_months(n);
    law_time_unit_weeks(n);
    law_time_unit_days(n);
    law_time_unit_hours(n);
}

} // verus!
