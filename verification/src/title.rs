//! Decimal numerals and the window title.

use vstd::prelude::*;
use vstd::string::StringExecFns;

verus! {

/// The character of the decimal digit `d`.
pub open spec fn spec_digit(d: nat) -> char {
    if d == 0 { '0' }
    else if d == 1 { '1' }
    else if d == 2 { '2' }
    else if d == 3 { '3' }
    else if d == 4 { '4' }
    else if d == 5 { '5' }
    else if d == 6 { '6' }
    else if d == 7 { '7' }
    else if d == 8 { '8' }
    else { '9' }
}

/// The decimal numeral of `n`, without leading zeros.
pub open spec fn spec_decimal(n: nat) -> Seq<char>
    decreases n,
{
    if n < 10 {
        seq![spec_digit(n)]
    } else {
        spec_decimal(n / 10) + seq![spec_digit(n % 10)]
    }
}

/// The value of a decimal digit character.
pub open spec fn spec_digit_value(c: char) -> int {
    (c as int) - ('0' as int)
}

/// The number that a sequence of decimal digits reads as.
pub open spec fn spec_decimal_value(s: Seq<char>) -> int
    decreases s.len(),
{
    if s.len() == 0 {
        0
    } else {
        10 * spec_decimal_value(s.drop_last()) + spec_digit_value(s.last())
    }
}

/// The digit character of `d` has the value `d`.
pub proof fn lemma_digit_value(d: nat)
    requires
        d < 10,
    ensures
        spec_digit_value(spec_digit(d)) == d,
        '0' <= spec_digit(d) <= '9',
        d > 0 ==> spec_digit(d) != '0',
{
    assert(('1' as int) - ('0' as int) == 1);
    assert(('2' as int) - ('0' as int) == 2);
    assert(('3' as int) - ('0' as int) == 3);
    assert(('4' as int) - ('0' as int) == 4);
    assert(('5' as int) - ('0' as int) == 5);
    assert(('6' as int) - ('0' as int) == 6);
    assert(('7' as int) - ('0' as int) == 7);
    assert(('8' as int) - ('0' as int) == 8);
    assert(('9' as int) - ('0' as int) == 9);
}

/// The numeral of `n` is made of decimal digits, has no leading zero, and
/// reads back as `n`.
pub proof fn law_decimal_reads_back(n: nat)
    ensures
        spec_decimal(n).len() > 0,
        forall|i: int| 0 <= i < spec_decimal(n).len() ==> '0' <= #[trigger] spec_decimal(n)[i] <= '9',
        n > 0 ==> spec_decimal(n)[0] != '0',
        spec_decimal_value(spec_decimal(n)) == n,
    decreases n,
{
    if n < 10 {
        let s = seq![spec_digit(n)];
        lemma_digit_value(n);
        assert(s.drop_last() =~= Seq::<char>::empty());
        assert(spec_decimal_value(Seq::<char>::empty()) == 0);
        assert(s.last() == spec_digit(n));
    } else {
        let q = n / 10;
        let d = n % 10;
        law_decimal_reads_back(q);
        lemma_digit_value(d);
        let s = spec_decimal(n);
        let h = spec_decimal(q);
        assert(s == h + seq![spec_digit(d)]);
        assert(s.drop_last() =~= h);
        assert(s.last() == spec_digit(d));
        assert(s[0] == h[0]);
        assert forall|i: int| 0 <= i < s.len() implies '0' <= #[trigger] s[i] <= '9' by {
            if i < h.len() {
                assert(s[i] == h[i]);
            }
        }
        assert(n == 10 * q + d);
    }
}

/// The text of the window title for image `index` of `total`, read from `path`.
pub open spec fn spec_window_title(index: nat, total: nat, path: Seq<char>) -> Seq<char> {
    "wiev  ::  "@ + spec_decimal(index) + " / "@ + spec_decimal(total) + "  ::  "@ + path
}

fn digit_str(d: usize) -> (r: &'static str)
    requires
        d < 10,
    ensures
        r@ == seq![spec_digit(d as nat)],
{
    proof {
        reveal_strlit("0");
        reveal_strlit("1");
        reveal_strlit("2");
        reveal_strlit("3");
        reveal_strlit("4");
        reveal_strlit("5");
        reveal_strlit("6");
        reveal_strlit("7");
        reveal_strlit("8");
        reveal_strlit("9");
    }
    if d == 0 { "0" }
    else if d == 1 { "1" }
    else if d == 2 { "2" }
    else if d == 3 { "3" }
    else if d == 4 { "4" }
    else if d == 5 { "5" }
    else if d == 6 { "6" }
    else if d == 7 { "7" }
    else if d == 8 { "8" }
    else { "9" }
}

/// Appends the decimal numeral of `n` to `s`.
pub fn push_decimal(s: &mut String, n: usize)
    ensures
        final(s)@ == old(s)@ + spec_decimal(n as nat),
    decreases n,
{
    if n >= 10 {
        push_decimal(s, n / 10);
    }
    s.append(digit_str(n % 10));
    proof {
        if n < 10 {
            assert(n % 10 == n);
        }
    }
}

/// The window title: the viewer's name, the index of the image shown, the
/// number of images, and the path of the image shown.
pub fn window_title(index: usize, total: usize, path: &str) -> (r: String)
    ensures
        r@ == spec_window_title(index as nat, total as nat, path@),
{
    let mut title = String::from_str("wiev  ::  ");
    push_decimal(&mut title, index);
    title.append(" / ");
    push_decimal(&mut title, total);
    title.append("  ::  ");
    title.append(path);
    title
}

} // verus!
