//! Text helpers: decimal notation of integers, and sizes in binary units.
use vstd::prelude::*;

verus! {

/// The character of a decimal digit `d < 10`.
pub open spec fn digit_char(d: nat) -> char {
    (48 + d) as char
}

/// The decimal notation of `n`, with no sign and no leading zeros.
pub open spec fn decimal(n: nat) -> Seq<char>
    decreases n,
{
    if n < 10 {
        seq![digit_char(n)]
    } else {
        decimal(n / 10) + seq![digit_char(n % 10)]
    }
}

/// The number that a string of decimal digits reads as.
pub open spec fn digits_value(s: Seq<char>) -> int
    decreases s.len(),
{
    if s.len() == 0 {
        0
    } else {
        digits_value(s.drop_last()) * 10 + (s.last() as int - 48)
    }
}

/// The decimal notation of `n` is made of digits, has no leading zero
/// (but for 0 itself), and reads back as `n`.
pub proof fn lemma_decimal(n: nat)
    ensures
        decimal(n).len() >= 1,
        forall|i: int| 0 <= i < decimal(n).len() ==> '0' <= #[trigger] decimal(n)[i] <= '9',
        decimal(n)[0] == '0' ==> n == 0,
        digits_value(decimal(n)) == n,
    decreases n,
{
    let d = n % 10;
    assert(digit_char(d) as int == 48 + d);
    if n < 10 {
        let s = decimal(n);
        assert(s.drop_last() =~= Seq::<char>::empty());
        assert(digits_value(s.drop_last()) == 0);
        assert(s.last() == digit_char(d));
        assert(digits_value(s) == digits_value(s.drop_last()) * 10 + (s.last() as int - 48));
    } else {
        lemma_decimal(n / 10);
        let s = decimal(n);
        assert(s.drop_last() =~= decimal(n / 10));
        assert(s[0] == decimal(n / 10)[0]);
        assert forall|i: int| 0 <= i < s.len() implies '0' <= #[trigger] s[i] <= '9' by {
            if i < s.len() - 1 {
                assert(s[i] == decimal(n / 10)[i]);
            }
        }
        assert(s.last() == digit_char(d));
        assert(digits_value(s) == digits_value(s.drop_last()) * 10 + (s.last() as int - 48));
        assert(n == (n / 10) * 10 + n % 10);
    }
}

/// The one-character text of a decimal digit.
fn digit_text(d: u64) -> (s: String)
    requires
        d < 10,
    ensures
        s@ == seq![digit_char(d as nat)],
{
    proof {
        reveal_strlit("0");
        reveal_strlit("1");
        reveal_strlit("2");
        reveal_strlit("3");
        reveal_strlit("4");
        reveal_strlit("5");
        reveal_strlit("6");
        reveal_strlit("7");
        reveal_strlit("8");
        reveal_strlit("9");
    }
    let s = if d == 0 {
        String::from_str("0")
    } else if d == 1 {
        String::from_str("1")
    } else if d == 2 {
        String::from_str("2")
    } else if d == 3 {
        String::from_str("3")
    } else if d == 4 {
        String::from_str("4")
    } else if d == 5 {
        String::from_str("5")
    } else if d == 6 {
        String::from_str("6")
    } else if d == 7 {
        String::from_str("7")
    } else if d == 8 {
        String::from_str("8")
    } else {
        String::from_str("9")
    };
    assert(s@ =~= seq![digit_char(d as nat)]);
    s
}

/// The decimal notation of `n`.
pub fn decimal_text(n: u64) -> (s: String)
    ensures
        s@ == decimal(n as nat),
    decreases n,
{
    if n < 10 {
        digit_text(n)
    } else {
        let mut s = decimal_text(n / 10);
        let last = digit_text(n % 10);
        s.append(last.as_str());
        s
    }
}

/// What `size::SizeFormatter` with base 2 and the abbreviated style writes for
/// `bytes` (such as "1.51 KiB"); its digits come from floating-point division.
pub uninterp spec fn binary_abbreviated_size(bytes: i64) -> Seq<char>;

/// `size::SizeFormatter::new().with_base(Base::Base2).with_style(Style::Abbreviated)
/// .format(bytes)`. Its text is named by `binary_abbreviated_size`; the crate's
/// source shows further that a value under 1024 bytes is written in decimal
/// followed by " B", and that a negative value is written as "-" followed by
/// the text of its magnitude (`i64::MAX` for `i64::MIN`).
#[verifier::external_body]
fn size_formatter_format(bytes: i64) -> (s: String)
    ensures
        s@ == binary_abbreviated_size(bytes),
        0 <= bytes < 1024 ==> s@ == decimal(bytes as nat) + seq![' ', 'B'],
        bytes < 0 ==> s@ == seq!['-'] + binary_abbreviated_size(
            if bytes == i64::MIN { i64::MAX } else { (-bytes) as i64 },
        ),
{
    size::SizeFormatter::new().with_base(size::Base::Base2).with_style(size::Style::Abbreviated).format(bytes)
}

/// A size in bytes as the table writes it: base-2 units, abbreviated.
pub fn format_size(bytes: i64) -> (s: String)
    ensures
        s@ == binary_abbreviated_size(bytes),
        0 <= bytes < 1024 ==> s@ == decimal(bytes as nat) + seq![' ', 'B'],
        bytes < 0 ==> s@ == seq!['-'] + binary_abbreviated_size(
            if bytes == i64::MIN { i64::MAX } else { (-bytes) as i64 },
        ),
{
    size_formatter_format(bytes)
}

} // verus!
