//! The `MM:SS` text form of a duration: how the remaining time is shown and
//! how interval lengths are typed in.

use vstd::prelude::*;
use vstd::string::*;

use crate::timer::TimerData;

verus! {

// ----- Rendering -----

/// The decimal digit character for `d < 10`.
pub open spec fn digit_char(d: nat) -> char {
    if d == 0 {
        '0'
    } else if d == 1 {
        '1'
    } else if d == 2 {
        '2'
    } else if d == 3 {
        '3'
    } else if d == 4 {
        '4'
    } else if d == 5 {
        '5'
    } else if d == 6 {
        '6'
    } else if d == 7 {
        '7'
    } else if d == 8 {
        '8'
    } else {
        '9'
    }
}

/// The decimal digits of `n`, most significant first, without leading zeros.
pub open spec fn decimal(n: nat) -> Seq<char>
    decreases n,
{
    if n < 10 {
        seq![digit_char(n)]
    } else {
        decimal(n / 10).push(digit_char(n % 10))
    }
}

/// `n` in decimal, zero-padded to at least two digits.
pub open spec fn two_digits(n: nat) -> Seq<char> {
    if n < 10 {
        seq!['0'] + decimal(n)
    } else {
        decimal(n)
    }
}

/// The `MM:SS` text of a duration of `ms` milliseconds: whole minutes, a
/// colon, and the seconds left over, each zero-padded to two digits. The
/// fraction of a second is dropped.
pub open spec fn clock_text(ms: nat) -> Seq<char> {
    let secs = ms / 1000;
    two_digits(secs / 60) + seq![':'] + two_digits(secs % 60)
}

/// Appends the digit character of `d`.
fn push_digit(s: &mut String, d: u64)
    requires
        d < 10,
    ensures
        final(s)@ == old(s)@.push(digit_char(d as nat)),
{
    let digits: &str = "0123456789";
    proof {
        reveal_strlit("0123456789");
    }
    let d = d as usize;
    let one = digits.substring_ascii(d, d + 1);
    s.append(one);
}

/// Appends the decimal digits of `n`.
fn push_decimal(s: &mut String, n: u64)
    ensures
        final(s)@ == old(s)@ + decimal(n as nat),
    decreases n,
{
    if n >= 10 {
        push_decimal(s, n / 10);
    }
    push_digit(s, n % 10);
    assert(s@ =~= old(s)@ + decimal(n as nat));
}

/// Appends `n` zero-padded to two digits.
fn push_two_digits(s: &mut String, n: u64)
    ensures
        final(s)@ == old(s)@ + two_digits(n as nat),
{
    if n < 10 {
        push_digit(s, 0);
    }
    push_decimal(s, n);
    assert(s@ =~= old(s)@ + two_digits(n as nat));
}

// ----- Reading -----

pub open spec fn is_digit(c: char) -> bool {
    '0' <= c && c <= '9'
}

pub open spec fn digit_value(c: char) -> nat {
    (c as int - '0' as int) as nat
}

pub open spec fn all_digits(s: Seq<char>) -> bool {
    forall|i: int| 0 <= i < s.len() ==> #[trigger] is_digit(s[i])
}

/// The number that a run of decimal digits denotes.
pub open spec fn digits_value(s: Seq<char>) -> nat
    decreases s.len(),
{
    if s.len() == 0 {
        0
    } else {
        digits_value(s.drop_last()) * 10 + digit_value(s.last())
    }
}

/// The digits of a field: what follows an optional leading `+`.
pub open spec fn numeral_digits(s: Seq<char>) -> Seq<char> {
    if s.len() > 0 && s[0] == '+' {
        s.drop_first()
    } else {
        s
    }
}

/// The value of one field of the text, read as an unsigned 64-bit decimal:
/// an optional `+`, then one or more digits whose value fits in `u64`.
pub open spec fn numeral_value(s: Seq<char>) -> Option<nat> {
    let d = numeral_digits(s);
    if d.len() > 0 && all_digits(d) && digits_value(d) <= u64::MAX {
        Some(digits_value(d))
    } else {
        None
    }
}

/// The number of seconds that a text denotes: one field is seconds, two
/// fields split at a colon are minutes and seconds. Any other number of
/// fields, or a field that is not a number, denotes nothing.
pub open spec fn clock_seconds(t: Seq<char>) -> Option<nat> {
    if !t.contains(':') {
        numeral_value(t)
    } else {
        let i = t.index_of(':');
        match (numeral_value(t.subrange(0, i)), numeral_value(t.subrange(i + 1, t.len() as int))) {
            (Some(m), Some(s)) => Some(m * 60 + s),
            _ => None,
        }
    }
}

/// The duration in milliseconds that a text denotes, where it fits in `u64`.
pub open spec fn clock_millis(t: Seq<char>) -> Option<u64> {
    match clock_seconds(t) {
        Some(secs) => if secs * 1000 <= u64::MAX {
            Some((secs * 1000) as u64)
        } else {
            None
        },
        None => None,
    }
}

/// A field holding a character that is neither a digit nor `+` is no number.
proof fn lemma_stray_char_is_not_numeral(s: Seq<char>, k: int)
    requires
        0 <= k < s.len(),
        !is_digit(s[k]),
        s[k] != '+',
    ensures
        numeral_value(s) is None,
{
    let d = numeral_digits(s);
    if s.len() > 0 && s[0] == '+' {
        assert(d[k - 1] == s[k]);
    } else {
        assert(d[k] == s[k]);
    }
}

/// A text holding a character outside ASCII denotes no duration.
proof fn lemma_non_ascii_is_not_clock(t: Seq<char>, k: int)
    requires
        0 <= k < t.len(),
        !('\0' <= t[k] <= '\x7f'),
    ensures
        clock_seconds(t) is None,
{
    if !t.contains(':') {
        lemma_stray_char_is_not_numeral(t, k);
    } else {
        let i = t.index_of(':');
        if k < i {
            lemma_stray_char_is_not_numeral(t.subrange(0, i), k);
        } else {
            lemma_stray_char_is_not_numeral(t.subrange(i + 1, t.len() as int), k - i - 1);
        }
    }
}

/// A prefix of a run of digits denotes no more than the whole run.
proof fn lemma_digits_prefix_le(s: Seq<char>, k: int)
    requires
        0 <= k <= s.len(),
    ensures
        digits_value(s.subrange(0, k)) <= digits_value(s),
    decreases s.len(),
{
    if k < s.len() {
        lemma_digits_prefix_le(s.drop_last(), k);
        assert(s.drop_last().subrange(0, k) =~= s.subrange(0, k));
    } else {
        assert(s.subrange(0, k) =~= s);
    }
}

/// The text `s` without its leading and trailing whitespace, as `str::trim`
/// gives it; whitespace is what has the Unicode `White_Space` property.
pub uninterp spec fn trim_of(s: Seq<char>) -> Seq<char>;

/// Relies on `str::trim`: its result depends on the characters alone, and an
/// ASCII digit is not whitespace, so text that begins and ends with one comes
/// back whole.
#[verifier::external_body]
fn trimmed(s: &str) -> (r: &str)
    ensures
        r@ == trim_of(s@),
        s@.len() > 0 && is_digit(s@[0]) && is_digit(s@.last()) ==> r@ == s@,
{
    s.trim()
}

/// Reads one field, `t[from..to]`.
fn parse_numeral(t: &str, from: usize, to: usize) -> (r: Option<u64>)
    requires
        t.is_ascii(),
        from <= to <= t@.len(),
    ensures
        match r {
            Some(v) => numeral_value(t@.subrange(from as int, to as int)) == Some(v as nat),
            None => numeral_value(t@.subrange(from as int, to as int)) is None,
        },
{
    let ghost field = t@.subrange(from as int, to as int);
    let mut start = from;
    if start < to && t.get_ascii(start) == '+' as u8 {
        start = start + 1;
    }
    assert(numeral_digits(field) =~= t@.subrange(start as int, to as int));
    if start == to {
        return None;
    }
    let mut value: u64 = 0;
    let mut i = start;
    while i < to
        invariant
            t.is_ascii(),
            from <= start <= i <= to <= t@.len(),
            field == t@.subrange(from as int, to as int),
            numeral_digits(field) == t@.subrange(start as int, to as int),
            all_digits(t@.subrange(start as int, i as int)),
            value == digits_value(t@.subrange(start as int, i as int)),
        decreases to - i,
    {
        let ghost digits = t@.subrange(start as int, to as int);
        let b = t.get_ascii(i);
        if b < '0' as u8 || b > '9' as u8 {
            assert(!is_digit(digits[i - start]));
            return None;
        }
        let ghost next = t@.subrange(start as int, i + 1);
        assert(next.drop_last() =~= t@.subrange(start as int, i as int));
        assert(next =~= digits.subrange(0, i + 1 - start));
        let d = (b - '0' as u8) as u64;
        let grown = match value.checked_mul(10) {
            Some(v) => v.checked_add(d),
            None => None,
        };
        match grown {
            Some(v) => {
                value = v;
            },
            None => {
                proof {
                    if all_digits(digits) {
                        lemma_digits_prefix_le(digits, i + 1 - start);
                    }
                }
                return None;
            },
        }
        i = i + 1;
    }
    Some(value)
}

/// Reads the duration in milliseconds that a text denotes: seconds alone, or
/// minutes and seconds split at a colon. The text is taken as it is.
pub fn parse_clock_text(t: &str) -> (r: Option<u64>)
    ensures
        r == clock_millis(t@),
{
    if !t.is_ascii() {
        proof {
            let k = choose|k: int| 0 <= k < t@.len() && !('\0' <= #[trigger] t@[k] <= '\x7f');
            lemma_non_ascii_is_not_clock(t@, k);
        }
        return None;
    }
    let len = t.unicode_len();
    let mut i: usize = 0;
    while i < len && t.get_ascii(i) != ':' as u8
        invariant
            t.is_ascii(),
            len == t@.len(),
            i <= len,
            forall|j: int| 0 <= j < i ==> t@[j] != ':',
        decreases len - i,
    {
        i = i + 1;
    }
    let colon: Option<usize> = if i < len {
        Some(i)
    } else {
        None
    };
    let secs = match colon {
        None => {
            assert(!t@.contains(':'));
            assert(t@.subrange(0, len as int) =~= t@);
            parse_numeral(t, 0, len)
        },
        Some(c) => {
            let minutes = parse_numeral(t, 0, c);
            let seconds = parse_numeral(t, c + 1, len);
            proof {
                let k = t@.index_of(':');
                assert(t@.contains(':'));
                if k != c {
                    lemma_stray_char_is_not_numeral(t@.subrange(0, k), c as int);
                    lemma_stray_char_is_not_numeral(t@.subrange(c + 1, len as int), k - c - 1);
                }
            }
            match (minutes, seconds) {
                (Some(m), Some(s)) => match m.checked_mul(60) {
                    Some(m60) => m60.checked_add(s),
                    None => None,
                },
                _ => None,
            }
        },
    };
    match secs {
        Some(s) => s.checked_mul(1000),
        None => None,
    }
}

// ----- The two directions together -----

proof fn lemma_digit_char(d: nat)
    requires
        d < 10,
    ensures
        is_digit(digit_char(d)),
        digit_value(digit_char(d)) == d,
{
}

proof fn lemma_decimal(n: nat)
    ensures
        decimal(n).len() > 0,
        all_digits(decimal(n)),
        digits_value(decimal(n)) == n,
    decreases n,
{
    lemma_digit_char(n % 10);
    if n >= 10 {
        lemma_decimal(n / 10);
        assert(decimal(n).drop_last() =~= decimal(n / 10));
    } else {
        assert(decimal(n).drop_last() =~= Seq::<char>::empty());
        assert(digits_value(Seq::<char>::empty()) == 0);
    }
}

/// Leading zeros do not change what digits denote.
proof fn lemma_leading_zero(s: Seq<char>)
    ensures
        digits_value(seq!['0'] + s) == digits_value(s),
    decreases s.len(),
{
    if s.len() > 0 {
        lemma_leading_zero(s.drop_last());
        assert((seq!['0'] + s).drop_last() =~= seq!['0'] + s.drop_last());
    } else {
        assert((seq!['0'] + s).drop_last() =~= s);
    }
}

proof fn lemma_two_digits(n: nat)
    ensures
        two_digits(n).len() > 0,
        all_digits(two_digits(n)),
        digits_value(two_digits(n)) == n,
{
    lemma_decimal(n);
    if n < 10 {
        lemma_leading_zero(decimal(n));
        assert(is_digit((seq!['0'] + decimal(n))[0]));
    }
}

/// Text written for a duration of whole seconds reads back as that same
/// duration, and it begins and ends with a digit, so trimming leaves it as it is.
pub proof fn lemma_clock_text_round_trip(ms: u64)
    requires
        ms % 1000 == 0,
    ensures
        clock_millis(clock_text(ms as nat)) == Some(ms),
        is_digit(clock_text(ms as nat)[0]),
        is_digit(clock_text(ms as nat).last()),
{
    let secs = ms as nat / 1000;
    let a = two_digits(secs / 60);
    let b = two_digits(secs % 60);
    let t = clock_text(ms as nat);
    lemma_two_digits(secs / 60);
    lemma_two_digits(secs % 60);
    assert(t =~= a + seq![':'] + b);
    assert(t[a.len() as int] == ':');
    assert(t.contains(':'));
    let i = t.index_of(':');
    if i < a.len() {
        assert(is_digit(a[i]));
    } else if i > a.len() {
        assert(is_digit(b[i - a.len() - 1]));
    }
    assert(t.subrange(0, i) =~= a);
    assert(t.subrange(i + 1, t.len() as int) =~= b);
    assert(numeral_digits(a) =~= a) by {
        assert(is_digit(a[0]));
    }
    assert(numeral_digits(b) =~= b) by {
        assert(is_digit(b[0]));
    }
    assert(is_digit(t[0])) by {
        assert(t[0] == a[0]);
        assert(is_digit(a[0]));
    }
    assert(is_digit(t.last())) by {
        assert(t.last() == b[b.len() - 1]);
        assert(is_digit(b[b.len() - 1]));
    }
}

impl TimerData {
    /// The `MM:SS` text of a duration given in milliseconds.
    pub fn dur_as_minutes(dur: u64) -> (r: String)
        ensures
            r@ == clock_text(dur as nat),
    {
        let secs = dur / 1000;
        let mut text = String::new();
        push_two_digits(&mut text, secs / 60);
        let colon: &str = ":";
        proof {
            reveal_strlit(":");
        }
        text.append(colon);
        push_two_digits(&mut text, secs % 60);
        assert(text@ =~= clock_text(dur as nat));
        text
    }

    /// The duration in milliseconds that a typed text denotes, once the
    /// whitespace around it is trimmed; `None` where it denotes none.
    pub fn minutes_as_dur(minute: &String) -> (r: Option<u64>)
        ensures
            r == clock_millis(trim_of(minute@)),
            minute@.len() > 0 && is_digit(minute@[0]) && is_digit(minute@.last()) ==> r
                == clock_millis(minute@),
    {
        parse_clock_text(trimmed(minute.as_str()))
    }
}

} // verus!
