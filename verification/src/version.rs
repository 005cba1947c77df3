//! Toolchain versions and version requirements.
//!
//! A [`VersionReq`] is the `"MAJOR.MINOR"` requirement written in the
//! attribute argument.  A [`Version`] is the record the toolchain probe
//! produces from the compiler's verbose version output: the minor version
//! number and whether the release channel is a nightly (or dev) build.

use vstd::prelude::*;

verus! {

/// A `"MAJOR.MINOR"` version requirement from the attribute argument.
#[derive(Clone, Copy, PartialEq, Eq, Structural, Debug)]
pub struct VersionReq {
    /// The required major version.
    pub major: u16,
    /// The required minor version.
    pub minor: u16,
}

/// The probed toolchain version record.
#[derive(Clone, Copy, PartialEq, Eq, Structural, Debug)]
pub struct Version {
    /// The toolchain's minor version number.
    pub minor: u32,
    /// Whether the toolchain is a nightly or dev channel build.
    pub nightly: bool,
}

/// True for the ten decimal digit characters.
pub open spec fn is_digit(c: char) -> bool {
    '0' as u32 <= c as u32 <= '9' as u32
}

/// The numeric value of a digit character.
pub open spec fn digit_val(c: char) -> int {
    c as u32 - '0' as u32
}

/// True when every character of `s` is a decimal digit.
pub open spec fn all_digits(s: Seq<char>) -> bool {
    forall|i: int| 0 <= i < s.len() ==> is_digit(#[trigger] s[i])
}

/// The value of `s` read as a decimal numeral.
pub open spec fn digits_val(s: Seq<char>) -> int
    decreases s.len(),
{
    if s.len() == 0 {
        0
    } else {
        digits_val(s.drop_last()) * 10 + digit_val(s.last())
    }
}

/// A decimal numeral made of digits has a non-negative value.
pub proof fn lemma_digits_val_nonneg(s: Seq<char>)
    requires
        all_digits(s),
    ensures
        digits_val(s) >= 0,
    decreases s.len(),
{
    if s.len() > 0 {
        assert(all_digits(s.drop_last()));
        lemma_digits_val_nonneg(s.drop_last());
    }
}

/// Reading more digits never makes the value smaller.
pub proof fn lemma_digits_val_prefix_le(s: Seq<char>, i: int, j: int)
    requires
        all_digits(s),
        0 <= i <= j <= s.len(),
    ensures
        digits_val(s.subrange(0, i)) <= digits_val(s.subrange(0, j)),
    decreases j - i,
{
    if i < j {
        lemma_digits_val_prefix_le(s, i, j - 1);
        let p = s.subrange(0, j - 1);
        let q = s.subrange(0, j);
        assert(q.drop_last() =~= p);
        assert(all_digits(p));
        lemma_digits_val_nonneg(p);
    }
}

/// How reading one decimal numeral can fail.
#[derive(Clone, Copy, PartialEq, Eq, Structural, Debug)]
pub enum DecErr {
    /// The numeral has no characters.
    Empty,
    /// Some character is not a decimal digit.
    NonDigit,
    /// The value does not fit under the given cap.
    TooLarge,
}

/// One left-to-right pass over the numeral from position `i`, carrying the
/// value `acc` of the digits already read: the first violation decides the
/// error, a non-digit where it stands, an overflow as soon as the value
/// passes `cap`.
pub open spec fn scan_decimal(s: Seq<char>, cap: int, i: int, acc: int) -> Result<int, DecErr>
    decreases s.len() - i,
{
    if i >= s.len() {
        Ok(acc)
    } else if !is_digit(s[i]) {
        Err(DecErr::NonDigit)
    } else if acc * 10 + digit_val(s[i]) > cap {
        Err(DecErr::TooLarge)
    } else {
        scan_decimal(s, cap, i + 1, acc * 10 + digit_val(s[i]))
    }
}

/// Reading `s` as a decimal numeral whose value must be at most `cap`: an
/// empty numeral is rejected outright, and otherwise a left-to-right scan
/// reports the first violation it meets.
pub open spec fn spec_parse_decimal(s: Seq<char>, cap: int) -> Result<int, DecErr> {
    if s.len() == 0 {
        Err(DecErr::Empty)
    } else {
        scan_decimal(s, cap, 0, 0)
    }
}

/// Reads `s` as a decimal numeral of value at most `cap`.  On success the
/// result is the numeral's value; the whole numeral is then made of digits.
pub fn parse_decimal(s: &str, cap: u64) -> (r: Result<u64, DecErr>)
    requires
        cap <= u32::MAX,
    ensures
        match r {
            Ok(v) => spec_parse_decimal(s@, cap as int) == Ok::<int, DecErr>(v as int),
            Err(k) => spec_parse_decimal(s@, cap as int) == Err::<int, DecErr>(k),
        },
        r matches Ok(v) ==> s@.len() > 0 && all_digits(s@) && v as int == digits_val(s@)
            && digits_val(s@) <= cap,
        s@.len() > 0 && all_digits(s@) && digits_val(s@) <= cap ==> r is Ok,
{
    let n = s.unicode_len();
    if n == 0 {
        return Err(DecErr::Empty);
    }
    let mut acc: u64 = 0;
    let mut i: usize = 0;
    while i < n
        invariant
            i <= n,
            n as nat == s@.len(),
            cap <= u32::MAX,
            acc <= cap,
            forall|j: int| 0 <= j < i ==> is_digit(#[trigger] s@[j]),
            acc as int == digits_val(s@.subrange(0, i as int)),
            scan_decimal(s@, cap as int, 0, 0) == scan_decimal(s@, cap as int, i as int, acc as int),
        decreases n - i,
    {
        let c = s.get_char(i);
        if !(('0' as u32) <= (c as u32) && (c as u32) <= ('9' as u32)) {
            return Err(DecErr::NonDigit);
        }
        let d: u64 = (c as u32 - '0' as u32) as u64;
        let next: u64 = acc * 10 + d;
        proof {
            let pre = s@.subrange(0, i as int);
            let cur = s@.subrange(0, i + 1int);
            assert(cur.drop_last() =~= pre);
            assert(cur.last() == s@[i as int]);
        }
        if next > cap {
            proof {
                if all_digits(s@) {
                    lemma_digits_val_prefix_le(s@, i + 1int, s@.len() as int);
                    assert(s@.subrange(0, s@.len() as int) =~= s@);
                }
            }
            return Err(DecErr::TooLarge);
        }
        acc = next;
        i += 1;
    }
    proof {
        assert(s@.subrange(0, s@.len() as int) =~= s@);
    }
    Ok(acc)
}

/// The message for a failed numeral, phrased as the standard integer parser
/// phrases it.
pub open spec fn dec_err_msg_view(k: DecErr) -> Seq<char> {
    match k {
        DecErr::Empty => "cannot parse integer from empty string"@,
        DecErr::NonDigit => "invalid digit found in string"@,
        DecErr::TooLarge => "number too large to fit in target type"@,
    }
}

/// The message for a failed numeral.
pub fn dec_err_msg(k: DecErr) -> (m: String)
    ensures
        m@ == dec_err_msg_view(k),
{
    match k {
        DecErr::Empty => String::from_str("cannot parse integer from empty string"),
        DecErr::NonDigit => String::from_str("invalid digit found in string"),
        DecErr::TooLarge => String::from_str("number too large to fit in target type"),
    }
}

/// The first position of `c` in `s` within `[from, to)`.
pub open spec fn find_in(s: Seq<char>, c: char, from: int, to: int) -> Option<int>
    decreases to - from,
{
    if from >= to {
        None
    } else if s[from] == c {
        Some(from)
    } else {
        find_in(s, c, from + 1, to)
    }
}

/// Finds the first `c` in `s` within `[from, to)`.
pub fn find_char(s: &str, c: char, from: usize, to: usize) -> (r: Option<usize>)
    requires
        to <= s@.len(),
    ensures
        match r {
            Some(x) => find_in(s@, c, from as int, to as int) == Some(x as int) && from <= x < to,
            None => find_in(s@, c, from as int, to as int) is None,
        },
{
    let mut i: usize = from;
    if i >= to {
        return None;
    }
    while i < to
        invariant
            from <= i <= to,
            to <= s@.len(),
            find_in(s@, c, from as int, to as int) == find_in(s@, c, i as int, to as int),
        decreases to - i,
    {
        if s.get_char(i) == c {
            return Some(i);
        }
        i += 1;
    }
    None
}

/// The message when the requirement has no dot at all.
pub open spec fn msg_need_minor() -> Seq<char> {
    "need to specify the minor version"@
}

/// The message when a third segment follows the minor version, spelling the
/// segment out: the characters after the second dot, up to the next dot or
/// the end.
pub open spec fn msg_extra_input(s: Seq<char>, x: int) -> Seq<char> {
    let e = match find_in(s, '.', x + 1, s.len() as int) {
        Some(y) => y,
        None => s.len() as int,
    };
    "unexpected input: "@ + s.subrange(x + 1, e)
}

/// Reading a `"MAJOR.MINOR"` requirement: two dot-separated decimal numerals,
/// each fitting in sixteen bits, with nothing after the second.
pub open spec fn spec_parse_version_req(s: Seq<char>) -> Result<VersionReq, Seq<char>> {
    match find_in(s, '.', 0, s.len() as int) {
        None => match spec_parse_decimal(s, u16::MAX as int) {
            Err(k) => Err(dec_err_msg_view(k)),
            Ok(_) => Err(msg_need_minor()),
        },
        Some(d) => match spec_parse_decimal(s.subrange(0, d), u16::MAX as int) {
            Err(k) => Err(dec_err_msg_view(k)),
            Ok(maj) => {
                let d2 = find_in(s, '.', d + 1, s.len() as int);
                let mend = match d2 {
                    Some(x) => x,
                    None => s.len() as int,
                };
                match spec_parse_decimal(s.subrange(d + 1, mend), u16::MAX as int) {
                    Err(k) => Err(dec_err_msg_view(k)),
                    Ok(minr) => match d2 {
                        Some(x) => Err(msg_extra_input(s, x)),
                        None => Ok(VersionReq { major: maj as u16, minor: minr as u16 }),
                    },
                }
            },
        },
    }
}

/// Reads a `"MAJOR.MINOR"` version requirement.
pub fn parse_version_req(s: &str) -> (r: Result<VersionReq, String>)
    ensures
        match r {
            Ok(v) => spec_parse_version_req(s@) == Ok::<VersionReq, Seq<char>>(v),
            Err(m) => spec_parse_version_req(s@) matches Err(sm) && sm == m@,
        },
{
    let n = s.unicode_len();
    match find_char(s, '.', 0, n) {
        None => match parse_decimal(s, 65535) {
            Err(k) => Err(dec_err_msg(k)),
            Ok(_) => Err(String::from_str("need to specify the minor version")),
        },
        Some(d) => {
            let majs = s.substring_char(0, d);
            match parse_decimal(majs, 65535) {
                Err(k) => Err(dec_err_msg(k)),
                Ok(maj) => {
                    let d2 = find_char(s, '.', d + 1, n);
                    let mend = match d2 {
                        Some(x) => x,
                        None => n,
                    };
                    let mins = s.substring_char(d + 1, mend);
                    match parse_decimal(mins, 65535) {
                        Err(k) => Err(dec_err_msg(k)),
                        Ok(minr) => match d2 {
                            Some(x) => {
                                let e3 = match find_char(s, '.', x + 1, n) {
                                    Some(y) => y,
                                    None => n,
                                };
                                let seg = s.substring_char(x + 1, e3);
                                Err(String::from_str("unexpected input: ").concat(seg))
                            },
                            None => Ok(VersionReq { major: maj as u16, minor: minr as u16 }),
                        },
                    }
                },
            }
        },
    }
}

impl core::str::FromStr for VersionReq {
    type Err = String;

    /// Reads a `"MAJOR.MINOR"` version requirement.
    fn from_str(s: &str) -> Result<Self, String> {
        parse_version_req(s)
    }
}

/// True when the nine characters at `i` spell the `release: ` line prefix.
pub open spec fn release_prefix_at(s: Seq<char>, i: int) -> bool {
    i + 9 <= s.len() && s.subrange(i, i + 9) == "release: "@
}

/// The position right after the first `release: ` prefix standing at the
/// start of a line, scanning from `i`; `at_start` says whether position `i`
/// begins a line.
pub open spec fn find_release(s: Seq<char>, i: int, at_start: bool) -> Option<int>
    decreases s.len() - i,
{
    if at_start && release_prefix_at(s, i) {
        Some(i + 9)
    } else if i >= s.len() {
        None
    } else {
        find_release(s, i + 1, s[i] == '\n')
    }
}

/// Reading the probe's verbose version text: find the `release: ` line, split
/// its payload at the first dash into version and channel, check the major
/// version is literally `1`, read the minor (and, when present, patch) as
/// decimal numerals, and flag the nightly and dev channels.
pub open spec fn spec_parse_rustc_version(s: Seq<char>) -> Option<Version> {
    match find_release(s, 0, true) {
        None => None,
        Some(p) => {
            let e0 = match find_in(s, '\n', p, s.len() as int) {
                Some(x) => x,
                None => s.len() as int,
            };
            let e = if p < e0 && s[e0 - 1] == '\r' {
                e0 - 1
            } else {
                e0
            };
            let d = match find_in(s, '-', p, e) {
                Some(x) => x,
                None => e,
            };
            match find_in(s, '.', p, d) {
                None => None,
                Some(m1) => if s.subrange(p, m1) != "1"@ {
                    None
                } else {
                    let d2 = find_in(s, '.', m1 + 1, d);
                    let mend = match d2 {
                        Some(x) => x,
                        None => d,
                    };
                    match spec_parse_decimal(s.subrange(m1 + 1, mend), u32::MAX as int) {
                        Err(_) => None,
                        Ok(minr) => {
                            let patch_ok = match d2 {
                                None => true,
                                Some(x) => spec_parse_decimal(
                                    s.subrange(x + 1, d),
                                    u32::MAX as int,
                                ) is Ok,
                            };
                            if !patch_ok {
                                None
                            } else {
                                let channel = if d < e {
                                    s.subrange(d + 1, e)
                                } else {
                                    Seq::<char>::empty()
                                };
                                Some(
                                    Version {
                                        minor: minr as u32,
                                        nightly: channel == "nightly"@ || channel == "dev"@,
                                    },
                                )
                            }
                        },
                    }
                },
            }
        },
    }
}

/// True when the nine characters at `i` spell the `release: ` line prefix.
fn prefix_match(s: &str, i: usize) -> (r: bool)
    requires
        i as int <= s@.len(),
    ensures
        r == release_prefix_at(s@, i as int),
{
    let n = s.unicode_len();
    if n - i < 9 {
        return false;
    }
    let sub = s.substring_char(i, i + 9);
    let owned: String = sub.to_owned();
    owned.eq(&String::from_str("release: "))
}

/// Finds the payload of the first `release: ` line.
fn find_release_start(s: &str) -> (r: Option<usize>)
    ensures
        match r {
            Some(p) => find_release(s@, 0, true) == Some(p as int) && p as int <= s@.len(),
            None => find_release(s@, 0, true) is None,
        },
{
    let n = s.unicode_len();
    let mut i: usize = 0;
    let mut at_start = true;
    loop
        invariant
            i <= n,
            n as nat == s@.len(),
            find_release(s@, 0, true) == find_release(s@, i as int, at_start),
        decreases n - i,
    {
        let pm = if at_start {
            prefix_match(s, i)
        } else {
            false
        };
        if pm {
            return Some(i + 9);
        }
        if i >= n {
            return None;
        }
        at_start = s.get_char(i) == '\n';
        i += 1;
    }
}

/// Reads the probe's verbose version text into a [`Version`] record, and
/// reports nothing when the text does not describe a major-version-one
/// toolchain.
pub fn parse_rustc_version(s: &str) -> (r: Option<Version>)
    ensures
        r == spec_parse_rustc_version(s@),
{
    let n = s.unicode_len();
    let p = match find_release_start(s) {
        None => {
            return None;
        },
        Some(p) => p,
    };
    let e0 = match find_char(s, '\n', p, n) {
        Some(x) => x,
        None => n,
    };
    let e = if p < e0 && s.get_char(e0 - 1) == '\r' {
        e0 - 1
    } else {
        e0
    };
    let d = match find_char(s, '-', p, e) {
        Some(x) => x,
        None => e,
    };
    let m1 = match find_char(s, '.', p, d) {
        None => {
            return None;
        },
        Some(x) => x,
    };
    let majs = s.substring_char(p, m1).to_owned();
    if !majs.eq(&String::from_str("1")) {
        return None;
    }
    let d2 = find_char(s, '.', m1 + 1, d);
    let mend = match d2 {
        Some(x) => x,
        None => d,
    };
    let minr = match parse_decimal(s.substring_char(m1 + 1, mend), 4294967295) {
        Err(_) => {
            return None;
        },
        Ok(v) => v,
    };
    if let Some(x) = d2 {
        match parse_decimal(s.substring_char(x + 1, d), 4294967295) {
            Err(_) => {
                return None;
            },
            Ok(_) => {},
        }
    }
    let nightly = if d < e {
        let ch = s.substring_char(d + 1, e).to_owned();
        ch.eq(&String::from_str("nightly")) || ch.eq(&String::from_str("dev"))
    } else {
        proof {
            broadcast use vstd::string::group_string_axioms;

            reveal_strlit("nightly");
            reveal_strlit("dev");
            assert(Seq::<char>::empty() !~= "nightly"@);
            assert(Seq::<char>::empty() !~= "dev"@);
        }
        false
    };
    Some(Version { minor: minr as u32, nightly })
}

} // verus!
