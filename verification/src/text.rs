//! Text as sequences of characters: taking it apart, and writing numbers into
//! it.

use vstd::prelude::*;

verus! {

/// `String::push` puts the character at the end.
pub assume_specification[ String::push ](s: &mut String, c: char)
    ensures
        final(s)@ == old(s)@.push(c),
;

/// The characters of a text.
pub fn chars_of(text: &str) -> (chars: Vec<char>)
    ensures
        chars@ == text@,
{
    let mut chars: Vec<char> = Vec::new();
    for c in it: text.chars()
        invariant
            chars@ == text@.take(it.index()),
            it.seq() == text@,
    {
        chars.push(c);
        assert(chars@ =~= text@.take(it.index() + 1));
    }
    assert(text@.take(text@.len() as int) =~= text@);
    chars
}

/// The characters from `start` up to `end`, as a text.
pub fn text_of(chars: &Vec<char>, start: usize, end: usize) -> (text: String)
    requires
        start <= end <= chars@.len(),
    ensures
        text@ == chars@.subrange(start as int, end as int),
{
    let mut text = String::new();
    let mut i: usize = start;
    while i < end
        invariant
            start <= i <= end <= chars@.len(),
            text@ == chars@.subrange(start as int, i as int),
        decreases end - i,
    {
        text.push(chars[i]);
        i += 1;
        assert(text@ =~= chars@.subrange(start as int, i as int));
    }
    text
}

/// A digit as it is written.
pub open spec fn digit(d: int) -> char {
    (48 + d) as char
}

/// A number as it is written in base ten.
pub open spec fn decimal(n: nat) -> Seq<char>
    decreases n,
{
    if n < 10 {
        seq![digit(n as int)]
    } else {
        decimal(n / 10).push(digit((n % 10) as int))
    }
}

/// A number that may be negative, as it is written in base ten.
pub open spec fn signed_decimal(n: int) -> Seq<char> {
    if n < 0 {
        seq!['-'] + decimal((-n) as nat)
    } else {
        decimal(n as nat)
    }
}

/// A number written with at least `width` digits.
pub open spec fn padded(n: nat, width: nat) -> Seq<char> {
    let digits = decimal(n);
    if digits.len() < width {
        Seq::new((width - digits.len()) as nat, |i: int| '0') + digits
    } else {
        digits
    }
}

/// Appends a number in base ten.
pub fn push_decimal(out: &mut String, n: u128)
    ensures
        final(out)@ == old(out)@ + decimal(n as nat),
    decreases n,
{
    if n >= 10 {
        push_decimal(out, n / 10);
    }
    let d: u8 = (n % 10) as u8;
    out.push((48 + d) as char);
    assert(out@ =~= old(out)@ + decimal(n as nat));
}

/// Appends a number that may be negative, in base ten.
pub fn push_signed(out: &mut String, n: i64)
    ensures
        final(out)@ == old(out)@ + signed_decimal(n as int),
{
    if n < 0 {
        out.push('-');
        push_decimal(out, (-(n as i128)) as u128);
        assert(out@ =~= old(out)@ + signed_decimal(n as int));
    } else {
        push_decimal(out, n as u128);
    }
}

/// Appends a number with at least `width` digits.
pub fn push_padded(out: &mut String, n: u128, width: usize)
    ensures
        final(out)@ == old(out)@ + padded(n as nat, width as nat),
{
    let mut digits = String::new();
    push_decimal(&mut digits, n);
    let chars = chars_of(&digits);
    let mut missing: usize = if chars.len() < width {
        width - chars.len()
    } else {
        0
    };
    let ghost zeros = missing;
    assert(digits@ =~= decimal(n as nat));
    while missing > 0
        invariant
            missing <= zeros,
            out@ == old(out)@ + Seq::new((zeros - missing) as nat, |i: int| '0'),
        decreases missing,
    {
        out.push('0');
        missing -= 1;
        assert(out@ =~= old(out)@ + Seq::new((zeros - missing) as nat, |i: int| '0'));
    }
    out.append(&digits);
    assert(out@ =~= old(out)@ + padded(n as nat, width as nat));
}

/// Whether two texts are the same.
pub fn same_text(a: &str, b: &str) -> (same: bool)
    ensures
        same == (a@ == b@),
{
    let left = chars_of(a);
    let right = chars_of(b);
    same_chars(&left, &right)
}

/// Whether two sequences of characters are the same.
pub fn same_chars(a: &Vec<char>, b: &Vec<char>) -> (same: bool)
    ensures
        same == (a@ == b@),
{
    if a.len() != b.len() {
        return false;
    }
    let mut i: usize = 0;
    while i < a.len()
        invariant
            i <= a.len(),
            a.len() == b.len(),
            forall|k: int| 0 <= k < i ==> a@[k] == b@[k],
        decreases a.len() - i,
    {
        if a[i] != b[i] {
            return false;
        }
        i += 1;
    }
    assert(a@ =~= b@);
    true
}

// ---------------------------------------------------------------------------
// Laws.
// ---------------------------------------------------------------------------

/// The number some digits say, the last of them being the ones.
pub open spec fn number_said(digits: Seq<char>) -> int
    decreases digits.len(),
{
    if digits.len() == 0 {
        0
    } else {
        10 * number_said(digits.drop_last()) + (digits.last() as int - '0' as int)
    }
}

/// Whether a text is made of digits.
pub open spec fn all_digits(text: Seq<char>) -> bool {
    forall|i: int| 0 <= i < text.len() ==> '0' <= #[trigger] text[i] <= '9'
}

/// A number is written in digits that say it, and no longer than it has to be.
pub proof fn lemma_decimal_says_its_number(n: nat)
    ensures
        decimal(n).len() >= 1,
        all_digits(decimal(n)),
        number_said(decimal(n)) == n,
        n > 0 ==> decimal(n)[0] != '0',
        n == 0 ==> decimal(n).len() == 1,
    decreases n,
{
    let digits = decimal(n);
    if n < 10 {
        assert(digits.drop_last() =~= Seq::empty());
        assert(number_said(digits.drop_last()) == 0);
        assert(digits.last() as int == 48 + n);
    } else {
        lemma_decimal_says_its_number(n / 10);
        assert(digits.drop_last() =~= decimal(n / 10));
        assert(digits.last() as int == 48 + n % 10);
        assert forall|i: int| 0 <= i < digits.len() implies '0' <= #[trigger] digits[i] <= '9' by {
            if i < digits.len() - 1 {
                assert(digits[i] == decimal(n / 10)[i]);
            }
        }
        assert(digits[0] == decimal(n / 10)[0]);
    }
}

/// Zeros in front change nothing of what digits say.
proof fn lemma_zeros_in_front(count: nat, digits: Seq<char>)
    ensures
        number_said(Seq::new(count, |i: int| '0') + digits) == number_said(digits),
    decreases count + digits.len(),
{
    let zeros = Seq::new(count, |i: int| '0');
    let all = zeros + digits;
    if digits.len() > 0 {
        assert(all.drop_last() =~= zeros + digits.drop_last());
        lemma_zeros_in_front(count, digits.drop_last());
    } else if count > 0 {
        let fewer = Seq::new((count - 1) as nat, |i: int| '0');
        assert(all.drop_last() =~= fewer + digits);
        lemma_zeros_in_front((count - 1) as nat, digits);
    } else {
        assert(all =~= digits);
    }
}

/// Appending a number appends digits that say it, with no zero in front of them, and
/// leaves what was there.
pub proof fn law_a_number_reads_back(out: &mut String, n: u128)
    requires
        call_ensures(push_decimal, (out, n), ()),
    ensures
        ({
            let before = old(out)@;
            let after = final(out)@;
            let digits = after.skip(before.len() as int);
            &&& after == before + digits
            &&& digits.len() >= 1
            &&& all_digits(digits)
            &&& number_said(digits) == n
            &&& digits[0] == '0' ==> digits.len() == 1
        }),
{
    lemma_decimal_says_its_number(n as nat);
    assert(final(out)@.skip(old(out)@.len() as int) =~= decimal(n as nat));
}

/// A negative number is the number without its sign behind a minus, and no other has
/// one.
pub proof fn law_only_a_negative_number_has_a_sign(out: &mut String, n: i64)
    requires
        call_ensures(push_signed, (out, n), ()),
    ensures
        ({
            let before = old(out)@;
            let after = final(out)@;
            let written = after.skip(before.len() as int);
            &&& after == before + written
            &&& n < 0 ==> written.len() > 1 && written[0] == '-' && all_digits(written.skip(1))
                && number_said(written.skip(1)) == -n
            &&& n >= 0 ==> all_digits(written) && number_said(written) == n
        }),
{
    let written = final(out)@.skip(old(out)@.len() as int);
    assert(written =~= signed_decimal(n as int));
    if n < 0 {
        lemma_decimal_says_its_number((-n) as nat);
        assert(written.skip(1) =~= decimal((-n) as nat));
    } else {
        lemma_decimal_says_its_number(n as nat);
    }
}

/// A padded number has at least as many digits as were asked for, says the number, and
/// has a zero in front only to reach them.
pub proof fn law_a_padded_number_is_wide_enough(out: &mut String, n: u128, width: usize)
    requires
        call_ensures(push_padded, (out, n, width), ()),
    ensures
        ({
            let before = old(out)@;
            let after = final(out)@;
            let digits = after.skip(before.len() as int);
            &&& after == before + digits
            &&& digits.len() >= width
            &&& all_digits(digits)
            &&& number_said(digits) == n
            &&& digits.len() > width && digits.len() > 1 ==> digits[0] != '0'
        }),
{
    let digits = final(out)@.skip(old(out)@.len() as int);
    assert(digits =~= padded(n as nat, width as nat));
    lemma_decimal_says_its_number(n as nat);
    let plain = decimal(n as nat);
    if plain.len() < width {
        let missing = (width - plain.len()) as nat;
        lemma_zeros_in_front(missing, plain);
        assert(digits =~= Seq::new(missing, |i: int| '0') + plain);
    }
}

/// Two texts are the same exactly where they have the same characters.
pub proof fn law_the_same_text_has_the_same_characters(a: &str, b: &str, same: bool)
    requires
        call_ensures(same_text, (a, b), same),
    ensures
        same <==> a@.len() == b@.len() && forall|i: int|
            0 <= i < a@.len() ==> #[trigger] a@[i] == b@[i],
{
    if a@.len() == b@.len() && (forall|i: int| 0 <= i < a@.len() ==> #[trigger] a@[i] == b@[i]) {
        assert(a@ =~= b@);
    }
}

} // verus!
