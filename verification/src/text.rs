//! The text functions the rest of the crate is written with: trimming, decimal and hexadecimal
//! numbers, and joining pieces of a message.
use vstd::prelude::*;
use vstd::string::*;

verus! {

/// The code points of the Unicode property `White_Space`.
pub open spec fn is_white_space(c: char) -> bool {
    ||| '\u{9}' <= c <= '\u{d}'
    ||| c == ' '
    ||| c == '\u{85}'
    ||| c == '\u{a0}'
    ||| c == '\u{1680}'
    ||| '\u{2000}' <= c <= '\u{200a}'
    ||| c == '\u{2028}'
    ||| c == '\u{2029}'
    ||| c == '\u{202f}'
    ||| c == '\u{205f}'
    ||| c == '\u{3000}'
}

/// `s` without its leading white space.
pub open spec fn trimmed_start(s: Seq<char>) -> Seq<char>
    decreases s.len(),
{
    if s.len() > 0 && is_white_space(s[0]) {
        trimmed_start(s.drop_first())
    } else {
        s
    }
}

/// `s` without its trailing white space.
pub open spec fn trimmed_end(s: Seq<char>) -> Seq<char>
    decreases s.len(),
{
    if s.len() > 0 && is_white_space(s.last()) {
        trimmed_end(s.drop_last())
    } else {
        s
    }
}

/// `s` without the white space at either end.
pub open spec fn trimmed(s: Seq<char>) -> Seq<char> {
    trimmed_end(trimmed_start(s))
}

/// `str::trim` removes the leading and the trailing white space, where white space is what the
/// Unicode property `White_Space` says it is.
pub assume_specification[ str::trim ](s: &str) -> (r: &str)
    ensures
        r@ == trimmed(s@),
;

/// `String::push` appends one character.
pub assume_specification[ String::push ](s: &mut String, c: char)
    ensures
        final(s)@ == old(s)@.push(c),
;

/// The character with `A` to `Z` replaced by the small letter.
pub open spec fn ascii_lower(c: char) -> char {
    if 'A' <= c <= 'Z' {
        (c as u32 + 32) as char
    } else {
        c
    }
}

/// `str::to_ascii_lowercase` maps the ASCII capitals to small letters and keeps the rest.
pub assume_specification[ str::to_ascii_lowercase ](s: &str) -> (r: String)
    ensures
        r@ == s@.map_values(|c: char| ascii_lower(c)),
;

/// Whether two texts have the same characters.
pub(crate) fn same_text(a: &str, b: &str) -> (r: bool)
    ensures
        r == (a@ == b@),
{
    a.to_string() == b.to_string()
}

/// The characters of `s`, in order.
pub fn chars_of(s: &str) -> (r: Vec<char>)
    ensures
        r@ == s@,
{
    let mut r: Vec<char> = Vec::new();
    for c in it: s.chars()
        invariant
            r@ == it.seq().take(it.index() as int),
            it.seq() == s@,
    {
        r.push(c);
    }
    r
}

/// The character for a digit below 16.
pub open spec fn digit_char(d: nat) -> char {
    if d < 10 {
        (48 + d) as char
    } else {
        (87 + d) as char
    }
}

fn digit_of(d: u8) -> (c: char)
    requires
        d < 16,
    ensures
        c == digit_char(d as nat),
{
    if d < 10 {
        (48 + d) as char
    } else {
        (87 + d) as char
    }
}

/// `n` written in base `base`, without leading zeros.
pub open spec fn numeral(n: nat, base: nat) -> Seq<char>
    decreases n,
{
    if base < 2 || n < base {
        seq![digit_char(n)]
    } else {
        proof {
            assert(n / base < n) by (nonlinear_arith)
                requires
                    n >= base,
                    base >= 2,
            ;
        }
        numeral(n / base, base).push(digit_char(n % base))
    }
}

/// `n` in decimal.
pub open spec fn decimal(n: int) -> Seq<char> {
    if n < 0 {
        seq!['-'] + numeral((-n) as nat, 10)
    } else {
        numeral(n as nat, 10)
    }
}

/// `n` in lower-case hexadecimal.
pub open spec fn hexadecimal(n: nat) -> Seq<char> {
    numeral(n, 16)
}

fn numeral_text(n: u128, base: u128) -> (r: String)
    requires
        2 <= base <= 16,
    ensures
        r@ == numeral(n as nat, base as nat),
    decreases n,
{
    if n < base {
        let mut r = String::new();
        r.push(digit_of(n as u8));
        assert(r@ =~= seq![digit_char(n as nat)]);
        r
    } else {
        assert(n / base < n) by (nonlinear_arith)
            requires
                n >= base,
                base >= 2,
        ;
        let mut r = numeral_text(n / base, base);
        r.push(digit_of((n % base) as u8));
        r
    }
}

/// `n` in decimal.
pub fn decimal_u128(n: u128) -> (r: String)
    ensures
        r@ == decimal(n as int),
{
    numeral_text(n, 10)
}

/// `n` in decimal.
pub fn decimal_u64(n: u64) -> (r: String)
    ensures
        r@ == decimal(n as int),
{
    numeral_text(n as u128, 10)
}

/// `n` in decimal, with a sign where it is negative.
pub fn decimal_i128(n: i128) -> (r: String)
    requires
        n > i128::MIN,
    ensures
        r@ == decimal(n as int),
{
    if n < 0 {
        let digits = numeral_text((-n) as u128, 10);
        proof {
            reveal_strlit("-");
            assert("-"@ =~= seq!['-']);
        }
        String::from_str("-").concat(digits.as_str())
    } else {
        numeral_text(n as u128, 10)
    }
}

/// `n` in lower-case hexadecimal.
pub fn hex_u64(n: u64) -> (r: String)
    ensures
        r@ == hexadecimal(n as nat),
{
    numeral_text(n as u128, 16)
}

/// The two hexadecimal digits of a byte.
pub open spec fn hex_pair(b: nat) -> Seq<char> {
    seq![digit_char(b / 16), digit_char(b % 16)]
}

/// Appends the two hexadecimal digits of `b`.
pub fn push_hex_byte(s: &mut String, b: u8)
    ensures
        final(s)@ == old(s)@ + hex_pair(b as nat),
{
    s.push(digit_of(b / 16));
    s.push(digit_of(b % 16));
}

/// The value of a digit in base `base`, at most 16.
pub open spec fn digit_value(c: char, base: nat) -> Option<nat> {
    let v: int = if '0' <= c <= '9' {
        c as int - '0' as int
    } else if 'a' <= c <= 'f' {
        c as int - 'a' as int + 10
    } else if 'A' <= c <= 'F' {
        c as int - 'A' as int + 10
    } else {
        16
    };
    if v < base && v < 16 {
        Some(v as nat)
    } else {
        None
    }
}

/// The value of a run of digits; none where a character is no digit. An empty run is 0.
pub open spec fn digits_value(s: Seq<char>, base: nat) -> Option<nat>
    decreases s.len(),
{
    if s.len() == 0 {
        Some(0)
    } else {
        match (digits_value(s.drop_last(), base), digit_value(s.last(), base)) {
            (Some(v), Some(d)) => Some(v * base + d),
            _ => None,
        }
    }
}

/// The number that `s` spells in base `base`: an optional `+`, then one digit or more, with a
/// value that fits 64 bits.
pub open spec fn parsed_u64(s: Seq<char>, base: nat) -> Option<u64> {
    let digits = if s.len() > 0 && s[0] == '+' {
        s.drop_first()
    } else {
        s
    };
    if digits.len() == 0 {
        None
    } else {
        match digits_value(digits, base) {
            Some(v) => if v <= u64::MAX {
                Some(v as u64)
            } else {
                None
            },
            None => None,
        }
    }
}

fn value_of_digit(c: char, base: u8) -> (r: Option<u8>)
    requires
        base <= 16,
    ensures
        match r {
            Some(v) => digit_value(c, base as nat) == Some(v as nat) && v < base,
            None => digit_value(c, base as nat) is None,
        },
{
    let v: u32 = if '0' <= c && c <= '9' {
        c as u32 - '0' as u32
    } else if 'a' <= c && c <= 'f' {
        c as u32 - 'a' as u32 + 10
    } else if 'A' <= c && c <= 'F' {
        c as u32 - 'A' as u32 + 10
    } else {
        16
    };
    if v < base as u32 {
        Some(v as u8)
    } else {
        None
    }
}

/// A run of digits is worth no less than the run it extends.
proof fn lemma_digits_grow(s: Seq<char>, i: int, base: nat)
    requires
        0 <= i <= s.len(),
        base >= 1,
        digits_value(s, base) is Some,
    ensures
        digits_value(s.take(i), base) is Some,
        digits_value(s.take(i), base)->0 <= digits_value(s, base)->0,
    decreases s.len() - i,
{
    if i == s.len() {
        assert(s.take(i) =~= s);
    } else {
        lemma_digits_grow(s, i + 1, base);
        let t = s.take(i + 1);
        assert(t.drop_last() =~= s.take(i));
        let v = digits_value(s.take(i), base)->0;
        assert(v * base >= v) by (nonlinear_arith)
            requires
                base >= 1,
        ;
    }
}

/// Reads the number that `s` spells in base `base`.
pub fn parse_u64(s: &str, base: u8) -> (r: Option<u64>)
    requires
        2 <= base <= 16,
    ensures
        r == parsed_u64(s@, base as nat),
{
    let chars = chars_of(s);
    let start: usize = if chars.len() > 0 && chars[0] == '+' {
        1
    } else {
        0
    };
    let ghost digits = chars@.skip(start as int);
    assert(start == 0 ==> digits =~= chars@);
    assert(start == 1 ==> digits =~= chars@.drop_first());
    if start == chars.len() {
        return None;
    }
    let mut value: u64 = 0;
    let mut i: usize = start;
    assert(digits.take(0) =~= Seq::<char>::empty());
    while i < chars.len()
        invariant
            2 <= base <= 16,
            start <= i <= chars.len(),
            digits == chars@.skip(start as int),
            chars@ == s@,
            digits.len() > 0,
            parsed_u64(s@, base as nat) == (match digits_value(digits, base as nat) {
                Some(v) => if v <= u64::MAX {
                    Some(v as u64)
                } else {
                    None
                },
                None => None,
            }),
            digits_value(digits.take(i - start), base as nat) == Some(value as nat),
        decreases chars.len() - i,
    {
        let ghost n = i - start;
        assert(digits.take(n + 1).drop_last() =~= digits.take(n));
        assert(digits.take(n + 1).last() == chars@[i as int]);
        proof {
            if digits_value(digits, base as nat) is Some {
                lemma_digits_grow(digits, n + 1, base as nat);
            }
        }
        let d = match value_of_digit(chars[i], base) {
            Some(d) => d,
            None => return None,
        };
        assert(value * base <= u64::MAX * 16) by (nonlinear_arith)
            requires
                value <= u64::MAX,
                base <= 16,
        ;
        let next: u128 = value as u128 * base as u128 + d as u128;
        if next > u64::MAX as u128 {
            return None;
        }
        value = next as u64;
        i = i + 1;
    }
    assert(digits.take(i - start) =~= digits);
    Some(value)
}

/// A decimal numeral of a 64-bit number reads back as that number.
pub proof fn law_decimal_reads_back(n: u64)
    ensures
        parsed_u64(decimal(n as int), 10) == Some(n),
{
    lemma_numeral_value(n as nat, 10);
    let s = numeral(n as nat, 10);
    lemma_numeral_digits(n as nat, 10);
    assert(s[0] != '+');
}

proof fn lemma_numeral_value(n: nat, base: nat)
    requires
        2 <= base <= 16,
    ensures
        digits_value(numeral(n, base), base) == Some(n),
    decreases n,
{
    if n < base {
        let s = seq![digit_char(n)];
        assert(s.drop_last() =~= Seq::<char>::empty());
        assert(digits_value(s.drop_last(), base) == Some(0nat));
        assert(digit_value(digit_char(n), base) == Some(n));
        assert(0 * base == 0) by (nonlinear_arith);
    } else {
        assert(n / base < n) by (nonlinear_arith)
            requires
                n >= base,
                base >= 2,
        ;
        lemma_numeral_value(n / base, base);
        let t = numeral(n / base, base);
        let s = t.push(digit_char(n % base));
        assert(s.drop_last() =~= t);
        assert(n % base < base) by (nonlinear_arith)
            requires
                base >= 2,
        ;
        assert((n / base) * base + n % base == n) by (nonlinear_arith)
            requires
                base >= 2,
        ;
    }
}

/// A numeral is not empty and starts with a digit.
proof fn lemma_numeral_digits(n: nat, base: nat)
    requires
        2 <= base <= 16,
    ensures
        numeral(n, base).len() > 0,
        digit_value(numeral(n, base)[0], base) is Some,
    decreases n,
{
    if n >= base {
        assert(n / base < n) by (nonlinear_arith)
            requires
                n >= base,
                base >= 2,
        ;
        lemma_numeral_digits(n / base, base);
    }
}

/// Whether `s` begins with `prefix`.
pub open spec fn has_prefix(s: Seq<char>, prefix: Seq<char>) -> bool {
    prefix.len() <= s.len() && s.take(prefix.len() as int) == prefix
}

/// Whether `s` begins with `prefix`.
pub fn begins_with(s: &str, prefix: &str) -> (r: bool)
    ensures
        r == has_prefix(s@, prefix@),
{
    let n = prefix.unicode_len();
    if s.unicode_len() < n {
        return false;
    }
    let head = s.substring_char(0, n);
    assert(head@ =~= s@.take(prefix@.len() as int));
    same_text(head, prefix)
}

/// The digits behind a `0x`, or behind a `0X` where `upper` allows it.
pub open spec fn after_0x(s: Seq<char>, upper: bool) -> Option<Seq<char>> {
    if s.len() >= 2 && s[0] == '0' && (s[1] == 'x' || (upper && s[1] == 'X')) {
        Some(s.skip(2))
    } else {
        None
    }
}

/// The digits behind a `0x`, or behind a `0X` where `upper` allows it.
pub fn strip_0x(s: &str, upper: bool) -> (r: Option<&str>)
    ensures
        match r {
            Some(t) => after_0x(s@, upper) == Some(t@),
            None => after_0x(s@, upper) is None,
        },
{
    let n = s.unicode_len();
    if n < 2 || s.get_char(0) != '0' {
        return None;
    }
    let x = s.get_char(1);
    if x == 'x' || (upper && x == 'X') {
        let t = s.substring_char(2, n);
        assert(t@ =~= s@.skip(2));
        Some(t)
    } else {
        None
    }
}

/// The number that a hexadecimal quantity such as `0x1f` spells, white space around it aside.
pub open spec fn quantity_value(s: Seq<char>) -> Option<u64> {
    match after_0x(trimmed(s), true) {
        Some(digits) => parsed_u64(digits, 16),
        None => None,
    }
}

/// Reads a hexadecimal quantity such as `0x1f`.
pub fn parse_hex_u64(s: &str) -> (r: Option<u64>)
    ensures
        r == quantity_value(s@),
{
    match strip_0x(s.trim(), true) {
        Some(digits) => parse_u64(digits, 16),
        None => None,
    }
}

/// Whether every character is white space.
pub open spec fn all_white(s: Seq<char>) -> bool {
    forall|i: int| 0 <= i < s.len() ==> is_white_space(#[trigger] s[i])
}

proof fn lemma_start_is_trimmed(before: Seq<char>, rest: Seq<char>)
    requires
        all_white(before),
        rest.len() == 0 || !is_white_space(rest[0]),
    ensures
        trimmed_start(before + rest) == rest,
    decreases before.len(),
{
    let s = before + rest;
    if before.len() > 0 {
        assert(s[0] == before[0]);
        let less = before.drop_first();
        assert(s.drop_first() =~= less + rest);
        assert(all_white(less)) by {
            assert forall|i: int| 0 <= i < less.len() implies is_white_space(#[trigger] less[i]) by {
                assert(less[i] == before[i + 1]);
            }
        }
        lemma_start_is_trimmed(less, rest);
    } else {
        assert(s =~= rest);
    }
}

proof fn lemma_end_is_trimmed(rest: Seq<char>, after: Seq<char>)
    requires
        all_white(after),
        rest.len() == 0 || !is_white_space(rest.last()),
    ensures
        trimmed_end(rest + after) == rest,
    decreases after.len(),
{
    let s = rest + after;
    if after.len() > 0 {
        assert(s.last() == after.last());
        let less = after.drop_last();
        assert(s.drop_last() =~= rest + less);
        assert(all_white(less)) by {
            assert forall|i: int| 0 <= i < less.len() implies is_white_space(#[trigger] less[i]) by {
                assert(less[i] == after[i]);
            }
        }
        lemma_end_is_trimmed(rest, less);
    } else {
        assert(s =~= rest);
    }
}

/// Trimming takes the white space at both ends, all of it and nothing else.
pub proof fn law_trimming_takes_both_ends(before: Seq<char>, kept: Seq<char>, after: Seq<char>)
    requires
        all_white(before),
        all_white(after),
        kept.len() > 0 ==> !is_white_space(kept[0]) && !is_white_space(kept.last()),
    ensures
        trimmed(before + kept + after) == kept,
{
    let rest = kept + after;
    assert(before + kept + after =~= before + rest);
    if kept.len() > 0 {
        assert(rest[0] == kept[0]);
        lemma_start_is_trimmed(before, rest);
        lemma_end_is_trimmed(kept, after);
    } else {
        let all = before + after;
        assert(before + rest =~= all + kept);
        assert(all_white(all));
        lemma_start_is_trimmed(all, kept);
        assert(trimmed_start(all + kept) == kept);
    }
}

/// Nothing is left of a text exactly where all of it is white space.
pub proof fn law_white_space_is_all_that_vanishes(s: Seq<char>)
    ensures
        trimmed(s).len() == 0 <==> all_white(s),
{
    if all_white(s) {
        let none = Seq::<char>::empty();
        law_trimming_takes_both_ends(s, none, none);
        assert(s + none + none =~= s);
    } else {
        let i = choose|i: int| 0 <= i < s.len() && !is_white_space(#[trigger] s[i]);
        lemma_start_keeps(s, i);
        let t = trimmed_start(s);
        let j = choose|j: int| 0 <= j < t.len() && !is_white_space(#[trigger] t[j]);
        lemma_end_keeps(t, j);
    }
}

proof fn lemma_start_keeps(s: Seq<char>, i: int)
    requires
        0 <= i < s.len(),
        !is_white_space(s[i]),
    ensures
        exists|j: int|
            0 <= j < trimmed_start(s).len() && !is_white_space(#[trigger] trimmed_start(s)[j]),
    decreases s.len(),
{
    if is_white_space(s[0]) {
        assert(s.drop_first()[i - 1] == s[i]);
        lemma_start_keeps(s.drop_first(), i - 1);
        assert(trimmed_start(s) == trimmed_start(s.drop_first()));
        let t = trimmed_start(s);
        let j = choose|j: int| 0 <= j < t.len() && !is_white_space(#[trigger] t[j]);
        assert(!is_white_space(trimmed_start(s)[j]));
    } else {
        assert(trimmed_start(s) == s);
        assert(!is_white_space(trimmed_start(s)[i]));
    }
}

proof fn lemma_end_keeps(s: Seq<char>, i: int)
    requires
        0 <= i < s.len(),
        !is_white_space(s[i]),
    ensures
        trimmed_end(s).len() > 0,
    decreases s.len(),
{
    if is_white_space(s.last()) {
        assert(s.drop_last()[i] == s[i]);
        lemma_end_keeps(s.drop_last(), i);
    }
}

/// A digit below sixteen is written as in `0123456789abcdef`.
pub proof fn law_digits_are_lower_case(d: nat)
    requires
        d < 16,
    ensures
        digit_char(d) == "0123456789abcdef"@[d as int],
{
    reveal_strlit("0123456789abcdef");
}

/// A number below the base is one digit; any other is what is left of the base, and then its last
/// digit.
pub proof fn law_numerals_go_digit_by_digit(n: nat)
    ensures
        n < 10 ==> decimal(n as int) == seq!["0123456789abcdef"@[n as int]],
        n >= 10 ==> decimal(n as int) == decimal((n / 10) as int).push(
            "0123456789abcdef"@[(n % 10) as int],
        ),
        n > 0 ==> decimal(-n) == seq!['-'] + decimal(n as int),
        n < 16 ==> hexadecimal(n) == seq!["0123456789abcdef"@[n as int]],
        n >= 16 ==> hexadecimal(n) == hexadecimal(n / 16).push("0123456789abcdef"@[(n % 16) as int]),
{
    law_digits_are_lower_case(n % 10);
    law_digits_are_lower_case(n % 16);
    if n < 16 {
        law_digits_are_lower_case(n);
    }
    assert(n >= 10 ==> numeral(n, 10) == numeral(n / 10, 10).push(digit_char(n % 10)));
    assert(n >= 16 ==> numeral(n, 16) == numeral(n / 16, 16).push(digit_char(n % 16)));
}

/// Whether `c` is the digit that is worth `d`, in either case.
pub open spec fn worth(c: char, d: nat) -> bool {
    ||| '0' <= c <= '9' && d == c as int - 48
    ||| 'a' <= c <= 'f' && d == c as int - 87
    ||| 'A' <= c <= 'F' && d == c as int - 55
}

/// A number is read digit by digit: the first digit is its own worth, every further one counts the
/// base once more for what stands before it. What is no digit of the base, or does not fit 64 bits,
/// spells no number; a leading plus sign changes nothing, and no digit at all is no number.
pub proof fn law_numbers_are_read_digit_by_digit(s: Seq<char>, c: char, base: nat)
    requires
        2 <= base <= 16,
        c != '+',
    ensures
        parsed_u64(seq![], base) is None,
        parsed_u64(seq!['+'], base) is None,
        s.len() > 0 && s[0] != '+' ==> parsed_u64(seq!['+'] + s, base) == parsed_u64(s, base),
        forall|d: nat| #[trigger] worth(c, d) && d < base ==> {
            &&& parsed_u64(seq![c], base) == Some(d as u64)
            &&& parsed_u64(s, base) matches Some(v) ==> parsed_u64(s.push(c), base) == if v * base + d
                <= u64::MAX {
                Some((v * base + d) as u64)
            } else {
                None
            }
        },
        (forall|d: nat| d < base ==> !#[trigger] worth(c, d)) ==> parsed_u64(s.push(c), base) is None,
        s.len() > 0 && s != seq!['+'] && parsed_u64(s, base) is None ==> parsed_u64(
            s.push(c),
            base,
        ) is None,
{
    let none = Seq::<char>::empty();
    assert(seq!['+'].drop_first() =~= none);
    assert((seq!['+'] + s).drop_first() =~= s);
    assert(seq![c].drop_last() =~= none);
    assert(digits_value(none, base) == Some(0nat));
    assert(0 * base == 0) by (nonlinear_arith);
    assert forall|d: nat| #[trigger] worth(c, d) && d < base implies digit_value(c, base) == Some(
        d,
    ) by {}
    if digit_value(c, base) is Some {
        let d = digit_value(c, base)->0;
        assert(worth(c, d) && d < base);
    }
    let t = s.push(c);
    let digits = if s.len() > 0 && s[0] == '+' {
        s.drop_first()
    } else {
        s
    };
    let more = if t[0] == '+' {
        t.drop_first()
    } else {
        t
    };
    assert(more =~= digits.push(c));
    assert(more.drop_last() =~= digits);
    assert(more.last() == c);
    if s.len() > 0 && s[0] == '+' && s != seq!['+'] {
        if s.len() == 1 {
            assert(s =~= seq!['+']);
        }
    }
    if digits_value(digits, base) is Some {
        let v = digits_value(digits, base)->0;
        assert(v * base >= v) by (nonlinear_arith)
            requires
                base >= 2,
        ;
    }
}

/// A hexadecimal numeral of a 64-bit number reads back as that number, and so does the quantity that
/// it makes, in either spelling of the prefix and with white space around it.
pub proof fn law_hexadecimal_reads_back(n: u64, before: Seq<char>, after: Seq<char>)
    requires
        all_white(before),
        all_white(after),
    ensures
        parsed_u64(hexadecimal(n as nat), 16) == Some(n),
        after_0x("0x"@ + hexadecimal(n as nat), false) == Some(hexadecimal(n as nat)),
        quantity_value(before + ("0x"@ + hexadecimal(n as nat)) + after) == Some(n),
        quantity_value(before + ("0X"@ + hexadecimal(n as nat)) + after) == Some(n),
{
    let s = hexadecimal(n as nat);
    lemma_numeral_value(n as nat, 16);
    lemma_numeral_digits(n as nat, 16);
    lemma_numeral_ends_in_a_digit(n as nat, 16);
    assert(s[0] != '+');
    reveal_strlit("0x");
    reveal_strlit("0X");
    let low = "0x"@ + s;
    let high = "0X"@ + s;
    assert(low.skip(2) =~= s);
    assert(high.skip(2) =~= s);
    assert(low.last() == s.last());
    assert(high.last() == s.last());
    law_trimming_takes_both_ends(before, low, after);
    law_trimming_takes_both_ends(before, high, after);
}

proof fn lemma_numeral_ends_in_a_digit(n: nat, base: nat)
    requires
        2 <= base <= 16,
    ensures
        numeral(n, base).len() > 0,
        !is_white_space(numeral(n, base).last()),
{
    lemma_numeral_digits(n, base);
    if n >= base {
        assert(n % base < base) by (nonlinear_arith)
            requires
                base >= 2,
        ;
        assert(numeral(n, base).last() == digit_char(n % base));
    } else {
        assert(numeral(n, base).last() == digit_char(n));
    }
}

/// A quantity is a number behind `0x` or `0X`; nothing else is one.
pub proof fn law_a_quantity_needs_its_prefix(s: Seq<char>)
    ensures
        quantity_value(s) matches Some(n) ==> {
            let t = trimmed(s);
            &&& t.len() > 2
            &&& t[0] == '0'
            &&& t[1] == 'x' || t[1] == 'X'
            &&& parsed_u64(t.skip(2), 16) == Some(n)
        },
        ({
            let t = trimmed(s);
            t.len() >= 2 && t[0] == '0' && (t[1] == 'x' || t[1] == 'X')
        }) ==> quantity_value(s) == parsed_u64(trimmed(s).skip(2), 16),
{
}

/// Numbers are written and read, and texts taken apart, as they are stated.
pub proof fn law_texts_are_written_and_read_as_stated(
    small: u64,
    large: u128,
    signed: i128,
    written: String,
    s: &str,
    t: &str,
    base: u8,
    upper: bool,
    n: Option<u64>,
    rest: Option<&str>,
    b: u8,
    buffer: &mut String,
    yes: bool,
)
    ensures
        call_ensures(decimal_u64, (small,), written) ==> written@ == decimal(small as int),
        call_ensures(decimal_u128, (large,), written) ==> written@ == decimal(large as int),
        call_ensures(decimal_i128, (signed,), written) ==> written@ == decimal(signed as int),
        call_ensures(hex_u64, (small,), written) ==> written@ == hexadecimal(small as nat),
        call_ensures(push_hex_byte, (buffer, b), ()) ==> final(buffer)@ == old(buffer)@.push(
            "0123456789abcdef"@[b as int / 16],
        ).push("0123456789abcdef"@[b as int % 16]),
        call_ensures(parse_u64, (s, base), n) ==> n == parsed_u64(s@, base as nat),
        call_ensures(parse_hex_u64, (s,), n) ==> n == quantity_value(s@),
        call_ensures(begins_with, (s, t), yes) ==> (yes <==> t@.is_prefix_of(s@)),
        call_ensures(strip_0x, (s, upper), rest) ==> match rest {
            Some(digits) => s@ == "0x"@ + digits@ || (upper && s@ == "0X"@ + digits@),
            None => s@.len() < 2 || s@[0] != '0' || (s@[1] != 'x' && !(upper && s@[1] == 'X')),
        },
{
    law_digits_are_lower_case((b / 16) as nat);
    law_digits_are_lower_case((b % 16) as nat);
    assert(old(buffer)@ + hex_pair(b as nat) =~= old(buffer)@.push(digit_char((b / 16) as nat)).push(
        digit_char((b % 16) as nat),
    ));
    reveal_strlit("0x");
    reveal_strlit("0X");
    if let Some(digits) = rest {
        if call_ensures(strip_0x, (s, upper), rest) {
            assert(s@ =~= s@.take(2) + s@.skip(2));
            if s@[1] == 'x' {
                assert(s@.take(2) =~= "0x"@);
            } else {
                assert(s@.take(2) =~= "0X"@);
            }
        }
    }
}

} // verus!
