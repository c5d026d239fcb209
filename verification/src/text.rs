//! ASCII numerals and separators: the alphabet of the textual address forms.
//!
//! Everything here works on bytes. A numeral is read the way the standard
//! integer parser reads it: an optional `+`, then at least one digit, and the
//! value has to fit in 32 bits.

use vstd::prelude::*;
use vstd::utf8::{decode_utf8, encode_utf8, valid_utf8};

verus! {

/// Why a numeral could not be read as a `u32`.
#[derive(Clone, Copy, Debug, PartialEq, Eq, Hash, Structural)]
pub enum IntErrorKind {
    /// There was no text at all.
    Empty,
    /// A byte that is no digit of the radix, or a sign with nothing behind it.
    InvalidDigit,
    /// The digits spell a number above `u32::MAX`.
    PosOverflow,
}

impl IntErrorKind {
    /// What is wrong with the numeral, in words.
    pub open spec fn message(self) -> Seq<char> {
        match self {
            IntErrorKind::Empty => "cannot parse integer from empty string"@,
            IntErrorKind::InvalidDigit => "invalid digit found in string"@,
            IntErrorKind::PosOverflow => "number too large to fit in target type"@,
        }
    }

    /// What is wrong with the numeral, in words.
    pub fn to_string(&self) -> (r: String)
        ensures
            r@ == self.message(),
    {
        match self {
            IntErrorKind::Empty => "cannot parse integer from empty string".to_owned(),
            IntErrorKind::InvalidDigit => "invalid digit found in string".to_owned(),
            IntErrorKind::PosOverflow => "number too large to fit in target type".to_owned(),
        }
    }
}

/// The two radices the address forms use.
#[derive(Clone, Copy, Debug, PartialEq, Eq, Hash, Structural)]
pub enum Radix {
    Decimal,
    Hexadecimal,
}

pub const PLUS: u8 = 43;

pub const MINUS: u8 = 45;

pub const ZERO: u8 = 48;

pub const COLON: u8 = 58;

pub const AT: u8 = 64;

impl Radix {
    /// The number of digits of the radix.
    pub open spec fn base(self) -> int {
        match self {
            Radix::Decimal => 10,
            Radix::Hexadecimal => 16,
        }
    }

    /// `acc` with one more digit `d` written behind it.
    pub open spec fn extend(self, acc: int, d: int) -> int {
        match self {
            Radix::Decimal => acc * 10 + d,
            Radix::Hexadecimal => acc * 16 + d,
        }
    }

    /// `n` without its last digit.
    pub open spec fn quot(self, n: nat) -> nat {
        match self {
            Radix::Decimal => n / 10,
            Radix::Hexadecimal => n / 16,
        }
    }

    /// The last digit of `n`.
    pub open spec fn rem(self, n: nat) -> nat {
        match self {
            Radix::Decimal => n % 10,
            Radix::Hexadecimal => n % 16,
        }
    }
}

/// The value of the digit `b` in `radix`; hexadecimal letters count in both cases.
pub open spec fn digit_of(b: u8, radix: Radix) -> Option<int> {
    if 48 <= b <= 57 {
        Some(b - 48)
    } else if radix == Radix::Hexadecimal && 97 <= b <= 102 {
        Some(b - 87)
    } else if radix == Radix::Hexadecimal && 65 <= b <= 70 {
        Some(b - 55)
    } else {
        None
    }
}

/// The byte that spells the digit `d`, in lower case.
pub open spec fn digit_byte(d: nat) -> u8 {
    if d < 10 {
        (48 + d) as u8
    } else {
        (87 + d) as u8
    }
}

/// Reads `s` digit by digit, starting from the value `acc`. The first byte
/// that is no digit, or that carries the value past `u32::MAX`, ends the
/// reading with its error.
pub open spec fn digits_value(s: Seq<u8>, radix: Radix, acc: int) -> Result<int, IntErrorKind>
    decreases s.len(),
{
    if s.len() == 0 {
        Ok(acc)
    } else {
        match digit_of(s[0], radix) {
            None => Err(IntErrorKind::InvalidDigit),
            Some(d) => if radix.extend(acc, d) > u32::MAX {
                Err(IntErrorKind::PosOverflow)
            } else {
                digits_value(s.drop_first(), radix, radix.extend(acc, d))
            },
        }
    }
}

/// What the numeral `s` stands for: an optional `+`, then digits.
pub open spec fn numeral_value(s: Seq<u8>, radix: Radix) -> Result<u32, IntErrorKind> {
    if s.len() == 0 {
        Err(IntErrorKind::Empty)
    } else if s.len() == 1 && (s[0] == PLUS || s[0] == MINUS) {
        Err(IntErrorKind::InvalidDigit)
    } else {
        let digits = if s[0] == PLUS {
            s.drop_first()
        } else {
            s
        };
        match digits_value(digits, radix, 0) {
            Ok(v) => Ok(v as u32),
            Err(e) => Err(e),
        }
    }
}

/// The shortest numeral of `n` in `radix`, lower case.
pub open spec fn numeral(n: nat, radix: Radix) -> Seq<u8>
    decreases n,
{
    if n < radix.base() {
        seq![digit_byte(n)]
    } else {
        numeral(radix.quot(n), radix).push(digit_byte(radix.rem(n)))
    }
}

/// `count` zeros.
pub open spec fn zeros(count: nat) -> Seq<u8> {
    Seq::new(count, |i: int| ZERO)
}

/// The decimal numeral of `n`, with zeros in front until it is `width` long.
pub open spec fn padded(n: nat, width: nat) -> Seq<u8> {
    let digits = numeral(n, Radix::Decimal);
    if digits.len() >= width {
        digits
    } else {
        zeros((width - digits.len()) as nat) + digits
    }
}

/// The place of the first `c` in `s`, or the length of `s` where it has none.
pub open spec fn find(s: Seq<u8>, c: u8) -> int
    decreases s.len(),
{
    if s.len() == 0 {
        0
    } else if s[0] == c {
        0
    } else {
        1 + find(s.drop_first(), c)
    }
}

/// What stands before the first `c`; all of `s` where it has none.
pub open spec fn before(s: Seq<u8>, c: u8) -> Seq<u8> {
    s.subrange(0, find(s, c))
}

/// What stands behind the first `c`, if there is one.
pub open spec fn after(s: Seq<u8>, c: u8) -> Option<Seq<u8>> {
    if find(s, c) < s.len() {
        Some(s.subrange(find(s, c) + 1, s.len() as int))
    } else {
        None
    }
}

/// Every byte of `s` is a digit of `radix`.
pub open spec fn all_digits(s: Seq<u8>, radix: Radix) -> bool {
    forall|i: int| 0 <= i < s.len() ==> (#[trigger] digit_of(s[i], radix)) is Some
}

/// An index before which no `c` stands, and which holds `c` or is the end, is `find`.
pub proof fn lemma_find_is(s: Seq<u8>, c: u8, i: int)
    requires
        0 <= i <= s.len(),
        forall|j: int| 0 <= j < i ==> s[j] != c,
        i < s.len() ==> s[i] == c,
    ensures
        find(s, c) == i,
    decreases s.len(),
{
    if s.len() != 0 && s[0] != c {
        let t = s.drop_first();
        assert forall|j: int| 0 <= j < i - 1 implies t[j] != c by {
            assert(t[j] == s[j + 1]);
        }
        lemma_find_is(t, c, i - 1);
    }
}

/// Where `head` holds no `c`, the first `c` of `head + [c] + tail` is the one between them.
pub proof fn lemma_split_joined(head: Seq<u8>, c: u8, tail: Seq<u8>)
    requires
        forall|j: int| 0 <= j < head.len() ==> head[j] != c,
    ensures
        before(head.push(c) + tail, c) == head,
        after(head.push(c) + tail, c) == Some(tail),
{
    let s = head.push(c) + tail;
    lemma_find_is(s, c, head.len() as int);
    assert(s.subrange(0, head.len() as int) =~= head);
    assert(s.subrange(head.len() as int + 1, s.len() as int) =~= tail);
}

/// Reading one more digit behind digits that were read.
pub proof fn lemma_digits_value_push(s: Seq<u8>, radix: Radix, acc: int, b: u8)
    requires
        digits_value(s, radix, acc) is Ok,
        digit_of(b, radix) is Some,
    ensures
        digits_value(s.push(b), radix, acc) == (if radix.extend(
            digits_value(s, radix, acc)->Ok_0,
            digit_of(b, radix)->Some_0,
        ) > u32::MAX {
            Err::<int, IntErrorKind>(IntErrorKind::PosOverflow)
        } else {
            Ok(radix.extend(digits_value(s, radix, acc)->Ok_0, digit_of(b, radix)->Some_0))
        }),
    decreases s.len(),
{
    let t = s.push(b);
    let db = digit_of(b, radix)->Some_0;
    if s.len() == 0 {
        assert(t[0] == b);
        assert(t.drop_first() =~= s);
        assert(digits_value(s, radix, radix.extend(acc, db)) == Ok::<int, IntErrorKind>(
            radix.extend(acc, db),
        ));
    } else {
        let d = digit_of(s[0], radix)->Some_0;
        assert(t[0] == s[0]);
        assert(t.drop_first() =~= s.drop_first().push(b));
        lemma_digits_value_push(s.drop_first(), radix, radix.extend(acc, d), b);
    }
}

/// Zeros in front change nothing.
pub proof fn lemma_digits_value_zeros(count: nat, s: Seq<u8>, radix: Radix)
    ensures
        digits_value(zeros(count) + s, radix, 0) == digits_value(s, radix, 0),
    decreases count,
{
    let t = zeros(count) + s;
    if count == 0 {
        assert(t =~= s);
    } else {
        assert(t[0] == ZERO);
        assert(t.drop_first() =~= zeros((count - 1) as nat) + s);
        lemma_digits_value_zeros((count - 1) as nat, s, radix);
    }
}

/// A numeral is never empty and is made of digits of its radix; so it holds
/// no sign and no separator.
pub proof fn lemma_numeral_digits(n: nat, radix: Radix)
    ensures
        numeral(n, radix).len() >= 1,
        all_digits(numeral(n, radix), radix),
    decreases n,
{
    if n >= radix.base() {
        lemma_numeral_digits(radix.quot(n), radix);
    }
}

/// Reading the numeral of `n` gives `n` back.
pub proof fn lemma_numeral_digits_value(n: nat, radix: Radix)
    requires
        n <= u32::MAX,
    ensures
        digits_value(numeral(n, radix), radix, 0) == Ok::<int, IntErrorKind>(n as int),
    decreases n,
{
    if n < radix.base() {
        let s = numeral(n, radix);
        assert(s[0] == digit_byte(n));
        assert(digit_of(s[0], radix) == Some(n as int));
        assert(s.drop_first() =~= Seq::<u8>::empty());
        assert(digits_value(s.drop_first(), radix, n as int) == Ok::<int, IntErrorKind>(n as int));
    } else {
        let q = radix.quot(n);
        let r = radix.rem(n);
        lemma_numeral_digits_value(q, radix);
        assert(digit_of(digit_byte(r), radix) == Some(r as int));
        assert(radix.extend(q as int, r as int) == n);
        lemma_digits_value_push(numeral(q, radix), radix, 0, digit_byte(r));
    }
}

/// The numeral of a `u32` is read back as that number.
pub proof fn lemma_numeral_value(n: u32, radix: Radix)
    ensures
        numeral_value(numeral(n as nat, radix), radix) == Ok::<u32, IntErrorKind>(n),
{
    lemma_numeral_digits(n as nat, radix);
    lemma_numeral_digits_value(n as nat, radix);
    let s = numeral(n as nat, radix);
    assert(digit_of(s[0], radix) is Some);
}

/// The padded numeral of a `u32` is read back as that number.
pub proof fn lemma_padded_value(n: u32, width: nat)
    ensures
        numeral_value(padded(n as nat, width), Radix::Decimal) == Ok::<u32, IntErrorKind>(n),
        all_digits(padded(n as nat, width), Radix::Decimal),
        padded(n as nat, width).len() >= 1,
        padded(n as nat, width).len() >= width,
{
    let digits = numeral(n as nat, Radix::Decimal);
    let s = padded(n as nat, width);
    lemma_numeral_digits(n as nat, Radix::Decimal);
    lemma_numeral_value(n, Radix::Decimal);
    if digits.len() < width {
        let count = (width - digits.len()) as nat;
        lemma_numeral_digits_value(n as nat, Radix::Decimal);
        lemma_digits_value_zeros(count, digits, Radix::Decimal);
        assert forall|i: int| 0 <= i < s.len() implies (#[trigger] digit_of(
            s[i],
            Radix::Decimal,
        )) is Some by {
            if i >= count {
                assert(s[i] == digits[i - count]);
            }
        }
        assert(digit_of(s[0], Radix::Decimal) is Some);
    }
}

/// Digits are neither signs nor separators.
pub proof fn lemma_digits_hold_no(s: Seq<u8>, radix: Radix, c: u8)
    requires
        all_digits(s, radix),
        c == COLON || c == AT || c == PLUS || c == MINUS,
    ensures
        forall|j: int| 0 <= j < s.len() ==> s[j] != c,
{
    assert forall|j: int| 0 <= j < s.len() implies s[j] != c by {
        assert(digit_of(s[j], radix) is Some);
    }
}

/// The digit that `b` spells in `radix`.
pub fn digit(b: u8, radix: Radix) -> (r: Option<u8>)
    ensures
        match r {
            Some(d) => digit_of(b, radix) == Some(d as int),
            None => digit_of(b, radix) is None,
        },
{
    if 48 <= b && b <= 57 {
        Some(b - 48)
    } else {
        match radix {
            Radix::Decimal => None,
            Radix::Hexadecimal => {
                if 97 <= b && b <= 102 {
                    Some(b - 87)
                } else if 65 <= b && b <= 70 {
                    Some(b - 55)
                } else {
                    None
                }
            },
        }
    }
}

/// Reads a numeral: an optional `+`, then digits of `radix` that spell a `u32`.
pub fn parse_u32(s: &[u8], radix: Radix) -> (r: Result<u32, IntErrorKind>)
    ensures
        r == numeral_value(s@, radix),
{
    let n = s.len();
    if n == 0 {
        return Err(IntErrorKind::Empty);
    }
    if n == 1 && (s[0] == PLUS || s[0] == MINUS) {
        return Err(IntErrorKind::InvalidDigit);
    }
    let start: usize = if s[0] == PLUS {
        1
    } else {
        0
    };
    let ghost digits = s@.subrange(start as int, n as int);
    proof {
        if start == 0 {
            assert(digits =~= s@);
        } else {
            assert(digits =~= s@.drop_first());
        }
    }
    let ghost whole = numeral_value(s@, radix);
    let mut i: usize = start;
    let mut acc: u32 = 0;
    while i < n
        invariant
            start <= i <= n,
            n == s.len(),
            whole == numeral_value(s@, radix),
            whole == (match digits_value(digits, radix, 0) {
                Ok(v) => Ok::<u32, IntErrorKind>(v as u32),
                Err(e) => Err(e),
            }),
            digits_value(digits, radix, 0) == digits_value(
                s@.subrange(i as int, n as int),
                radix,
                acc as int,
            ),
        decreases n - i,
    {
        let ghost rest = s@.subrange(i as int, n as int);
        proof {
            assert(rest[0] == s[i as int]);
            assert(rest.drop_first() =~= s@.subrange(i + 1, n as int));
        }
        let d: u8 = match digit(s[i], radix) {
            Some(d) => d,
            None => {
                return Err(IntErrorKind::InvalidDigit);
            },
        };
        let wide: u64 = match radix {
            Radix::Decimal => acc as u64 * 10 + d as u64,
            Radix::Hexadecimal => acc as u64 * 16 + d as u64,
        };
        if wide > 0xffff_ffff {
            return Err(IntErrorKind::PosOverflow);
        }
        acc = wide as u32;
        i = i + 1;
    }
    Ok(acc)
}

/// Writes the shortest numeral of `n` behind what `out` holds.
pub fn push_numeral(out: &mut Vec<u8>, n: u32, radix: Radix)
    ensures
        final(out)@ == old(out)@ + numeral(n as nat, radix),
    decreases n,
{
    let (q, r): (u32, u32) = match radix {
        Radix::Decimal => (n / 10, n % 10),
        Radix::Hexadecimal => (n / 16, n % 16),
    };
    let ghost before = out@;
    if q != 0 {
        push_numeral(out, q, radix);
    }
    let b: u8 = if r < 10 {
        48 + r as u8
    } else {
        87 + r as u8
    };
    out.push(b);
    proof {
        if q != 0 {
            assert(out@ =~= before + numeral(q as nat, radix).push(b));
        } else {
            assert(out@ =~= before + seq![b]);
        }
    }
}

/// Writes the decimal numeral of `n` behind what `out` holds, with zeros in
/// front of it until it is `width` long.
pub fn push_padded(out: &mut Vec<u8>, n: u32, width: usize)
    ensures
        final(out)@ == old(out)@ + padded(n as nat, width as nat),
{
    let ghost before = out@;
    let mut digits: Vec<u8> = Vec::new();
    push_numeral(&mut digits, n, Radix::Decimal);
    proof {
        assert(digits@ =~= numeral(n as nat, Radix::Decimal));
    }
    let mut k: usize = digits.len();
    while k < width
        invariant
            digits.len() <= k,
            k <= width || k == digits.len(),
            out@ == before + zeros((k - digits.len()) as nat),
        decreases width - k,
    {
        out.push(ZERO);
        k = k + 1;
        proof {
            assert(out@ =~= before + zeros((k - digits.len()) as nat));
        }
    }
    let mut j: usize = 0;
    let ghost mid = out@;
    while j < digits.len()
        invariant
            j <= digits.len(),
            out@ == mid + digits@.subrange(0, j as int),
        decreases digits.len() - j,
    {
        out.push(digits[j]);
        j = j + 1;
        proof {
            assert(out@ =~= mid + digits@.subrange(0, j as int));
        }
    }
    proof {
        assert(digits@.subrange(0, j as int) =~= digits@);
        if digits.len() >= width {
            assert(zeros(0) =~= Seq::<u8>::empty());
            assert(out@ =~= before + padded(n as nat, width as nat));
        } else {
            assert(out@ =~= before + padded(n as nat, width as nat));
        }
    }
}

/// Cuts `s` at its first `c`: what stands before it, and what stands behind
/// it if `c` occurs at all.
pub fn split_once(s: &[u8], c: u8) -> (r: (&[u8], Option<&[u8]>))
    ensures
        r.0@ == before(s@, c),
        match r.1 {
            Some(tail) => after(s@, c) == Some(tail@),
            None => after(s@, c) is None,
        },
{
    let n = s.len();
    let mut i: usize = 0;
    while i < n && s[i] != c
        invariant
            i <= n,
            n == s.len(),
            forall|j: int| 0 <= j < i ==> s[j] != c,
        decreases n - i,
    {
        i = i + 1;
    }
    proof {
        lemma_find_is(s@, c, i as int);
    }
    let head = vstd::slice::slice_subrange(s, 0, i);
    if i < n {
        (head, Some(vstd::slice::slice_subrange(s, i + 1, n)))
    } else {
        (head, None)
    }
}

/// Every byte of `s` is below 128.
pub open spec fn is_ascii(s: Seq<u8>) -> bool {
    forall|i: int| 0 <= i < s.len() ==> (#[trigger] s[i]) < 128
}

/// `String::from_utf8`: the string that `bytes` encode, where they are valid
/// UTF-8, and nothing where they are not.
#[verifier::external_body]
fn string_from_utf8(bytes: Vec<u8>) -> (r: Option<String>)
    ensures
        r is Some <==> valid_utf8(bytes@),
        r matches Some(s) ==> s@ == decode_utf8(bytes@),
{
    String::from_utf8(bytes).ok()
}

/// ASCII text is UTF-8 as it stands.
pub proof fn lemma_ascii_is_utf8(s: Seq<u8>)
    requires
        is_ascii(s),
    ensures
        valid_utf8(s),
        encode_utf8(decode_utf8(s)) == s,
{
    assert forall|i: int| 0 <= i < s.len() implies #[trigger] vstd::utf8::is_leading_byte_width_1(
        s[i],
    ) by {
        assert(s[i] < 128);
    }
    assert(s.subrange(0, 0) =~= Seq::<u8>::empty());
    assert(vstd::utf8::partial_valid_utf8(s, 0));
    vstd::utf8::partial_valid_utf8_extend_ascii_block(s, 0, s.len() as int);
    assert(s.subrange(0, s.len() as int) =~= s);
    vstd::utf8::decode_utf8_encode_utf8(s);
}

/// The string whose UTF-8 bytes are `bytes`; `None` where they are no UTF-8.
pub fn into_string(bytes: Vec<u8>) -> (r: Option<String>)
    ensures
        r is Some <==> valid_utf8(bytes@),
        r matches Some(s) ==> encode_utf8(s@) == bytes@ && s@ == decode_utf8(bytes@),
{
    let ghost text = bytes@;
    let r = string_from_utf8(bytes);
    proof {
        if valid_utf8(text) {
            vstd::utf8::decode_utf8_encode_utf8(text);
        }
    }
    r
}

/// The string that spells the ASCII text `bytes`.
pub(crate) fn ascii_string(bytes: Vec<u8>) -> (r: String)
    requires
        is_ascii(bytes@),
    ensures
        encode_utf8(r@) == bytes@,
{
    proof {
        lemma_ascii_is_utf8(bytes@);
    }
    match into_string(bytes) {
        Some(s) => s,
        None => String::new(),
    }
}

} // verus!
