//! Text helpers: prefix tests and hexadecimal rendering.

use vstd::prelude::*;
use vstd::string::*;

verus! {

/// The sixteen upper-case hexadecimal digits, in order of value.
pub const HEX_DIGITS: &'static str = "0123456789ABCDEF";

/// The ten decimal digits, in order of value.
pub const DECIMAL_DIGITS: &'static str = "0123456789";

/// The decimal digit of value `d`, for `0 <= d < 10`, as a text of one
/// character.
pub open spec fn decimal_digit(d: int) -> Seq<char> {
    DECIMAL_DIGITS@.subrange(d, d + 1)
}

/// The last decimal digit of `n`.
pub fn last_decimal_digit(n: u8) -> (r: &'static str)
    ensures
        r@ == decimal_digit(n as int % 10),
{
    let d: usize = (n % 10) as usize;
    proof {
        reveal_strlit("0123456789");
    }
    DECIMAL_DIGITS.substring_ascii(d, d + 1)
}

/// The upper-case hexadecimal digit of value `d`, for `0 <= d < 16`.
pub open spec fn hex_digit(d: int) -> char {
    HEX_DIGITS@[d]
}

/// `n` in upper-case hexadecimal, most significant digit first, without
/// leading zeros (a single `0` for zero).
pub open spec fn upper_hex(n: nat) -> Seq<char>
    decreases n,
{
    if n < 16 {
        seq![hex_digit(n as int)]
    } else {
        upper_hex(n / 16).push(hex_digit((n % 16) as int))
    }
}

/// `n` in upper-case hexadecimal, filled with zeros on the left up to
/// `width` digits. A longer number keeps all its digits.
pub open spec fn upper_hex_padded(n: nat, width: nat) -> Seq<char> {
    let digits = upper_hex(n);
    if digits.len() >= width {
        digits
    } else {
        Seq::new((width - digits.len()) as nat, |i: int| '0') + digits
    }
}

/// Whether `text` begins with `prefix`.
pub fn starts_with(text: &str, prefix: &str) -> (r: bool)
    ensures
        r == prefix@.is_prefix_of(text@),
{
    let n: usize = prefix.unicode_len();
    if text.unicode_len() < n {
        return false;
    }
    let mut i: usize = 0;
    while i < n
        invariant
            i <= n,
            n == prefix@.len(),
            n <= text@.len(),
            forall|j: int| 0 <= j < i ==> text@[j] == prefix@[j],
        decreases n - i,
    {
        if text.get_char(i) != prefix.get_char(i) {
            assert(text@.subrange(0, n as int)[i as int] != prefix@[i as int]);
            return false;
        }
        i = i + 1;
    }
    assert(text@.subrange(0, n as int) =~= prefix@);
    true
}

/// Whether two texts hold the same characters.
pub fn same_text(a: &str, b: &str) -> (r: bool)
    ensures
        r == (a@ == b@),
{
    let r = a.unicode_len() == b.unicode_len() && starts_with(a, b);
    proof {
        if r {
            assert(a@.subrange(0, a@.len() as int) =~= a@);
        }
    }
    r
}

/// Appends `n` in upper-case hexadecimal to `out`.
pub fn push_upper_hex(out: &mut String, n: u64)
    ensures
        final(out)@ == old(out)@ + upper_hex(n as nat),
    decreases n,
{
    if n >= 16 {
        push_upper_hex(out, n / 16);
    }
    let d: usize = (n % 16) as usize;
    proof {
        reveal_strlit("0123456789ABCDEF");
    }
    out.append(HEX_DIGITS.substring_ascii(d, d + 1));
}

/// The number of digits of `upper_hex(n)` for numbers below 16^4.
pub proof fn lemma_upper_hex_len(n: nat)
    ensures
        n < 0x10 ==> upper_hex(n).len() == 1,
        0x10 <= n < 0x100 ==> upper_hex(n).len() == 2,
        0x100 <= n < 0x1000 ==> upper_hex(n).len() == 3,
        0x1000 <= n ==> upper_hex(n).len() >= 4,
    decreases n,
{
    if n >= 16 {
        lemma_upper_hex_len(n / 16);
    }
}

/// Appends `n` in upper-case hexadecimal to `out`, with at least four digits.
pub fn push_upper_hex4(out: &mut String, n: u64)
    ensures
        final(out)@ == old(out)@ + upper_hex_padded(n as nat, 4),
{
    proof {
        lemma_upper_hex_len(n as nat);
        reveal_strlit("000");
        reveal_strlit("00");
        reveal_strlit("0");
    }
    if n < 0x10 {
        out.append("000");
    } else if n < 0x100 {
        out.append("00");
    } else if n < 0x1000 {
        out.append("0");
    }
    push_upper_hex(out, n);
}

/// The value of an upper-case hexadecimal digit, and 0 for any other
/// character.
pub open spec fn hex_digit_value(c: char) -> nat {
    if '0' <= c && c <= '9' {
        (c as nat - '0' as nat) as nat
    } else if 'A' <= c && c <= 'F' {
        (c as nat - 'A' as nat + 10) as nat
    } else {
        0
    }
}

/// The number that a text of upper-case hexadecimal digits stands for.
pub open spec fn hex_value(digits: Seq<char>) -> nat
    decreases digits.len(),
{
    if digits.len() == 0 {
        0
    } else {
        16 * hex_value(digits.drop_last()) + hex_digit_value(digits.last())
    }
}

/// Whether no character of `text` is a hyphen.
pub open spec fn has_no_hyphen(text: Seq<char>) -> bool {
    forall|i: int| 0 <= i < text.len() ==> text[i] != '-'
}

/// A digit stands for its value, and is no hyphen.
pub proof fn lemma_hex_digit(d: int)
    requires
        0 <= d < 16,
    ensures
        hex_digit_value(hex_digit(d)) == d,
        hex_digit(d) != '-',
{
    reveal_strlit("0123456789ABCDEF");
}

/// The rendering of a number stands for that number, and holds no hyphen.
pub proof fn lemma_upper_hex_reads_back(n: nat)
    ensures
        hex_value(upper_hex(n)) == n,
        has_no_hyphen(upper_hex(n)),
        upper_hex(n).len() > 0,
    decreases n,
{
    lemma_hex_digit((n % 16) as int);
    if n < 16 {
        let digits = upper_hex(n);
        assert(digits.drop_last() =~= Seq::<char>::empty());
        assert(hex_value(digits.drop_last()) == 0);
    } else {
        lemma_upper_hex_reads_back(n / 16);
        let digits = upper_hex(n);
        assert(digits.drop_last() =~= upper_hex(n / 16));
    }
}

/// Zeros on the left change neither the number that a text stands for nor
/// whether it holds a hyphen.
pub proof fn lemma_zeros_on_the_left(zeros: nat, digits: Seq<char>)
    ensures
        hex_value(Seq::new(zeros, |i: int| '0') + digits) == hex_value(digits),
        has_no_hyphen(digits) ==> has_no_hyphen(Seq::new(zeros, |i: int| '0') + digits),
    decreases digits.len(), zeros,
{
    let padding = Seq::new(zeros, |i: int| '0');
    let whole = padding + digits;
    if digits.len() > 0 {
        lemma_zeros_on_the_left(zeros, digits.drop_last());
        assert(whole.drop_last() =~= padding + digits.drop_last());
    } else if zeros > 0 {
        let fewer = Seq::new((zeros - 1) as nat, |i: int| '0');
        lemma_zeros_on_the_left((zeros - 1) as nat, digits);
        assert(whole.drop_last() =~= fewer + digits);
    } else {
        assert(whole =~= Seq::<char>::empty());
    }
}

/// The padded rendering of a number stands for that number, and holds no
/// hyphen.
pub proof fn lemma_upper_hex_padded_reads_back(n: nat, width: nat)
    ensures
        hex_value(upper_hex_padded(n, width)) == n,
        has_no_hyphen(upper_hex_padded(n, width)),
{
    lemma_upper_hex_reads_back(n);
    let digits = upper_hex(n);
    if digits.len() < width {
        lemma_zeros_on_the_left((width - digits.len()) as nat, digits);
    }
}

/// A text has one tail after its last hyphen: where it ends in a hyphen and
/// a tail without hyphens in two ways, the two tails are the same.
pub proof fn lemma_tail_after_last_hyphen(
    head1: Seq<char>,
    tail1: Seq<char>,
    head2: Seq<char>,
    tail2: Seq<char>,
)
    requires
        head1 + seq!['-'] + tail1 == head2 + seq!['-'] + tail2,
        has_no_hyphen(tail1),
        has_no_hyphen(tail2),
    ensures
        tail1 == tail2,
        head1 == head2,
{
    let text1 = head1 + seq!['-'] + tail1;
    let text2 = head2 + seq!['-'] + tail2;
    assert(text1.len() == head1.len() + 1 + tail1.len());
    assert(text2.len() == head2.len() + 1 + tail2.len());
    if tail1.len() < tail2.len() {
        // The hyphen before the first tail would lie in the second one.
        let at = head1.len() as int;
        assert(text1[at] == '-');
        assert(text2[at] == tail2[at - head2.len() - 1]);
    } else if tail2.len() < tail1.len() {
        let at = head2.len() as int;
        assert(text2[at] == '-');
        assert(text1[at] == tail1[at - head1.len() - 1]);
    } else {
        assert forall|i: int| 0 <= i < tail1.len() implies tail1[i] == tail2[i] by {
            assert(text1[head1.len() + 1 + i] == tail1[i]);
            assert(text2[head2.len() + 1 + i] == tail2[i]);
        }
        assert(tail1 =~= tail2);
        assert forall|i: int| 0 <= i < head1.len() implies head1[i] == head2[i] by {
            assert(text1[i] == head1[i]);
            assert(text2[i] == head2[i]);
        }
        assert(head1 =~= head2);
    }
}

} // verus!
