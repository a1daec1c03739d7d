//! Building blocks for rendered text: decimal numerals and joined pieces.

use vstd::prelude::*;
use vstd::string::*;

verus! {

/// The one-character text of the decimal digit `d`.
pub open spec fn digit(d: nat) -> Seq<char>
    recommends
        d < 10,
{
    "0123456789"@.subrange(d as int, d as int + 1)
}

/// The decimal numeral of `n`, most significant digit first, without leading zeros.
pub open spec fn decimal(n: nat) -> Seq<char>
    decreases n,
{
    if n < 10 {
        digit(n)
    } else {
        decimal(n / 10) + digit(n % 10)
    }
}

/// The number that the digit character `c` stands for.
pub open spec fn digit_value(c: char) -> int {
    c as int - '0' as int
}

/// The number that the decimal numeral `s` stands for.
pub open spec fn numeral_value(s: Seq<char>) -> int
    decreases s.len(),
{
    if s.len() == 0 {
        0
    } else {
        numeral_value(s.drop_last()) * 10 + digit_value(s.last())
    }
}

/// A digit below ten is written as the one character that stands for it.
pub proof fn lemma_digit(d: nat)
    requires
        d < 10,
    ensures
        digit(d).len() == 1,
        '0' <= digit(d)[0] <= '9',
        digit_value(digit(d)[0]) == d,
{
    reveal_strlit("0123456789");
}

/// The decimal numeral of `n` is made of digits, stands for `n`, and begins with `0` only
/// where `n` is 0.
pub proof fn lemma_decimal(n: nat)
    ensures
        decimal(n).len() > 0,
        forall|i: int| 0 <= i < decimal(n).len() ==> '0' <= #[trigger] decimal(n)[i] <= '9',
        numeral_value(decimal(n)) == n,
        decimal(n)[0] == '0' <==> n == 0,
    decreases n,
{
    if n < 10 {
        lemma_digit(n);
        assert(numeral_value(decimal(n).drop_last()) == 0);
    } else {
        lemma_decimal(n / 10);
        lemma_digit(n % 10);
        assert(decimal(n).drop_last() =~= decimal(n / 10));
    }
}

/// Appends the decimal numeral of `n` to `s`.
pub fn push_decimal(s: &mut String, n: usize)
    ensures
        final(s)@ == old(s)@ + decimal(n as nat),
    decreases n,
{
    let digits = "0123456789";
    proof {
        reveal_strlit("0123456789");
    }
    if n >= 10 {
        push_decimal(s, n / 10);
    }
    let d: usize = n % 10;
    s.append(digits.substring_char(d, d + 1));
}

/// The pieces of `parts` one after another.
pub open spec fn concat(parts: Seq<Seq<char>>) -> Seq<char>
    decreases parts.len(),
{
    if parts.len() == 0 {
        Seq::empty()
    } else {
        concat(parts.drop_last()) + parts.last()
    }
}

/// The pieces of `parts` one after another, with `sep` between neighbours.
pub open spec fn join(parts: Seq<Seq<char>>, sep: Seq<char>) -> Seq<char>
    decreases parts.len(),
{
    if parts.len() == 0 {
        Seq::empty()
    } else if parts.len() == 1 {
        parts[0]
    } else {
        join(parts.drop_last(), sep) + sep + parts.last()
    }
}

/// Taking one more piece extends the concatenation by that piece.
pub proof fn lemma_concat_take(parts: Seq<Seq<char>>, i: int)
    requires
        0 <= i < parts.len(),
    ensures
        concat(parts.take(i + 1)) == concat(parts.take(i)) + parts[i],
{
    assert(parts.take(i + 1).drop_last() =~= parts.take(i));
}

/// Taking one more piece extends the joined text by the separator, unless the piece is the
/// first, and by that piece.
pub proof fn lemma_join_take(parts: Seq<Seq<char>>, sep: Seq<char>, i: int)
    requires
        0 <= i < parts.len(),
    ensures
        join(parts.take(i + 1), sep) == if i == 0 {
            parts[i]
        } else {
            join(parts.take(i), sep) + sep + parts[i]
        },
{
    assert(parts.take(i + 1).drop_last() =~= parts.take(i));
}

/// Where piece `k` begins in the concatenation of `parts`: the total length of the pieces
/// before it.
pub open spec fn offset(parts: Seq<Seq<char>>, k: int) -> int {
    concat(parts.take(k)).len() as int
}

/// The concatenation of the first `k` pieces is the beginning of the concatenation of all.
pub proof fn lemma_concat_prefix(parts: Seq<Seq<char>>, k: int)
    requires
        0 <= k <= parts.len(),
    ensures
        offset(parts, k) <= concat(parts).len(),
        concat(parts).subrange(0, offset(parts, k)) == concat(parts.take(k)),
    decreases parts.len(),
{
    if k == parts.len() {
        assert(parts.take(k) =~= parts);
    } else {
        let front = parts.drop_last();
        lemma_concat_prefix(front, k);
        assert(front.take(k) =~= parts.take(k));
    }
}

/// The pieces of a concatenation lie in it one after another, in the order of `parts`: piece
/// `k` fills exactly the span from its offset to the offset of the next piece, the first
/// offset is 0 and the last one is the end of the text.
pub proof fn lemma_concat_in_order(parts: Seq<Seq<char>>, k: int)
    requires
        0 <= k < parts.len(),
    ensures
        offset(parts, 0) == 0,
        offset(parts, parts.len() as int) == concat(parts).len(),
        offset(parts, k + 1) == offset(parts, k) + parts[k].len(),
        offset(parts, k + 1) <= concat(parts).len(),
        concat(parts).subrange(offset(parts, k), offset(parts, k + 1)) == parts[k],
{
    assert(parts.take(parts.len() as int) =~= parts);
    lemma_concat_take(parts, k);
    lemma_concat_prefix(parts, k + 1);
    assert(concat(parts).subrange(offset(parts, k), offset(parts, k + 1)) =~= concat(
        parts.take(k + 1),
    ).subrange(offset(parts, k), offset(parts, k + 1)));
}

} // verus!
