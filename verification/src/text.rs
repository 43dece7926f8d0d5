//! Text as sequences of characters: decimal numerals, joined parts, and what
//! it means for parts to stand in a text in a given order.

use vstd::prelude::*;

verus! {

/// The character that writes the digit `d`.
pub open spec fn digit(d: nat) -> char
    recommends
        d < 10,
{
    if d == 0 {
        '0'
    } else if d == 1 {
        '1'
    } else if d == 2 {
        '2'
    } else if d == 3 {
        '3'
    } else if d == 4 {
        '4'
    } else if d == 5 {
        '5'
    } else if d == 6 {
        '6'
    } else if d == 7 {
        '7'
    } else if d == 8 {
        '8'
    } else {
        '9'
    }
}

/// The decimal numeral of `n`: most significant digit first, no sign, and no
/// leading zero except for zero itself.
pub open spec fn decimal(n: nat) -> Seq<char>
    decreases n,
{
    if n < 10 {
        seq![digit(n)]
    } else {
        decimal(n / 10).push(digit(n % 10))
    }
}

/// The number that a sequence of decimal digits writes.
pub open spec fn decimal_value(digits: Seq<char>) -> nat
    decreases digits.len(),
{
    if digits.len() == 0 {
        0
    } else {
        10 * decimal_value(digits.drop_last()) + digit_value(digits.last())
    }
}

/// The digit that a character writes; zero for any other character.
pub open spec fn digit_value(c: char) -> nat {
    if c == '1' {
        1
    } else if c == '2' {
        2
    } else if c == '3' {
        3
    } else if c == '4' {
        4
    } else if c == '5' {
        5
    } else if c == '6' {
        6
    } else if c == '7' {
        7
    } else if c == '8' {
        8
    } else if c == '9' {
        9
    } else {
        0
    }
}

/// A numeral reads back as the number it was written for, so two numbers
/// with the same numeral are the same number.
pub proof fn lemma_decimal_reads_back(n: nat)
    ensures
        decimal_value(decimal(n)) == n,
        decimal(n).len() >= 1,
    decreases n,
{
    if n < 10 {
        let s = seq![digit(n)];
        assert(decimal_value(s.drop_last()) == 0);
    } else {
        lemma_decimal_reads_back(n / 10);
        let init = decimal(n / 10);
        let s = init.push(digit(n % 10));
        assert(s.drop_last() =~= init);
    }
}

/// The parts, each followed by `sep` except the last.
pub open spec fn join(parts: Seq<Seq<char>>, sep: Seq<char>) -> Seq<char>
    decreases parts.len(),
{
    if parts.len() == 0 {
        Seq::empty()
    } else if parts.len() == 1 {
        parts[0]
    } else {
        join(parts.drop_last(), sep) + sep + parts.last()
    }
}

/// `part` stands in `text` at offset `at`.
pub open spec fn occurs_at(text: Seq<char>, part: Seq<char>, at: int) -> bool {
    &&& 0 <= at
    &&& at + part.len() <= text.len()
    &&& text.subrange(at, at + part.len()) == part
}

/// Each part stands in `text` at its offset in `at`, and each ends before the
/// next begins.
pub open spec fn stand_in_order_at(text: Seq<char>, parts: Seq<Seq<char>>, at: Seq<int>) -> bool {
    &&& at.len() == parts.len()
    &&& forall|i: int| 0 <= i < parts.len() ==> occurs_at(text, #[trigger] parts[i], at[i])
    &&& forall|i: int, j: int|
        0 <= i < j < parts.len() ==> #[trigger] at[i] + parts[i].len() <= #[trigger] at[j]
}

/// `text` contains the parts, in the order given and without overlap.
pub open spec fn contains_in_order(text: Seq<char>, parts: Seq<Seq<char>>) -> bool {
    exists|at: Seq<int>| stand_in_order_at(text, parts, at)
}

/// Where each part begins in `join(parts, sep)`.
pub open spec fn offsets(parts: Seq<Seq<char>>, sep: Seq<char>) -> Seq<int>
    decreases parts.len(),
{
    if parts.len() == 0 {
        Seq::empty()
    } else if parts.len() == 1 {
        seq![0int]
    } else {
        offsets(parts.drop_last(), sep).push(
            (join(parts.drop_last(), sep).len() + sep.len()) as int,
        )
    }
}

/// A joined text contains its parts in order, at the offsets that `offsets`
/// gives.
pub proof fn lemma_join_stands_in_order(parts: Seq<Seq<char>>, sep: Seq<char>)
    ensures
        stand_in_order_at(join(parts, sep), parts, offsets(parts, sep)),
        contains_in_order(join(parts, sep), parts),
    decreases parts.len(),
{
    let text = join(parts, sep);
    let at = offsets(parts, sep);
    if parts.len() == 0 {
    } else if parts.len() == 1 {
        assert(text.subrange(0, parts[0].len() as int) =~= parts[0]);
    } else {
        let init = parts.drop_last();
        let before = join(init, sep);
        let at_init = offsets(init, sep);
        lemma_join_stands_in_order(init, sep);
        assert forall|i: int| 0 <= i < parts.len() implies occurs_at(
            text,
            #[trigger] parts[i],
            at[i],
        ) by {
            if i < init.len() {
                assert(text.subrange(at[i], at[i] + parts[i].len()) =~= before.subrange(
                    at_init[i],
                    at_init[i] + init[i].len(),
                ));
            } else {
                assert(text.subrange(at[i], at[i] + parts[i].len()) =~= parts[i]);
            }
        }
        assert forall|i: int, j: int| 0 <= i < j < parts.len() implies #[trigger] at[i]
            + parts[i].len() <= #[trigger] at[j] by {
            assert(occurs_at(before, init[i], at_init[i]));
        }
    }
    assert(stand_in_order_at(text, parts, at));
}

/// The one-character text of a digit.
fn digit_str(d: usize) -> (r: &'static str)
    requires
        d < 10,
    ensures
        r@ == seq![digit(d as nat)],
{
    proof {
        reveal_strlit("0");
        reveal_strlit("1");
        reveal_strlit("2");
        reveal_strlit("3");
        reveal_strlit("4");
        reveal_strlit("5");
        reveal_strlit("6");
        reveal_strlit("7");
        reveal_strlit("8");
        reveal_strlit("9");
    }
    if d == 0 {
        "0"
    } else if d == 1 {
        "1"
    } else if d == 2 {
        "2"
    } else if d == 3 {
        "3"
    } else if d == 4 {
        "4"
    } else if d == 5 {
        "5"
    } else if d == 6 {
        "6"
    } else if d == 7 {
        "7"
    } else if d == 8 {
        "8"
    } else {
        "9"
    }
}

/// Writes `n` as a decimal numeral.
pub fn decimal_string(n: usize) -> (r: String)
    ensures
        r@ == decimal(n as nat),
    decreases n,
{
    if n < 10 {
        String::from_str(digit_str(n))
    } else {
        let mut r = decimal_string(n / 10);
        r.append(digit_str(n % 10));
        r
    }
}

} // verus!
