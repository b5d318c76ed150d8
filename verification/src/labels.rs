//! Cell and column labels: the bijective base-26 column-letter codec and
//! decimal rendering of row numbers.

use vstd::prelude::*;
use vstd::arithmetic::div_mod::{
    lemma_div_decreases, lemma_div_pos_is_pos, lemma_fundamental_div_mod,
    lemma_mod_division_less_than_divisor,
};

verus! {

/// The `r`-th letter of the alphabet: `0 -> 'A'`, ..., `25 -> 'Z'`.
pub open spec fn letter_char(r: int) -> char {
    ((65 + r) as u8) as char
}

/// The spreadsheet-style letter label of a 0-based column index, in the
/// bijective base-26 scheme: `0 -> "A"`, `25 -> "Z"`, `26 -> "AA"`, ...
pub open spec fn col_letters(i: nat) -> Seq<char>
    decreases i,
{
    if i < 26 {
        seq![letter_char(i as int)]
    } else {
        col_letters((i / 26 - 1) as nat) + seq![letter_char((i % 26) as int)]
    }
}

/// The `d`-th decimal digit character: `0 -> '0'`, ..., `9 -> '9'`.
pub open spec fn digit_char(d: int) -> char {
    ((48 + d) as u8) as char
}

/// The decimal rendering of a natural number, most significant digit first.
pub open spec fn dec_chars(n: nat) -> Seq<char>
    decreases n,
{
    if n < 10 {
        seq![digit_char(n as int)]
    } else {
        dec_chars(n / 10) + seq![digit_char((n % 10) as int)]
    }
}

/// The synthesized display text of the cell at 1-based row `row1` and
/// 0-based column `col`.
pub open spec fn cell_label(row1: nat, col: nat) -> Seq<char> {
    "R"@ + dec_chars(row1) + "C "@ + col_letters(col)
}

/// The 0-based column index a letter label denotes: the inverse of the
/// bijective base-26 encoding (an empty label denotes 0 by convention).
pub open spec fn letters_val(s: Seq<char>) -> int
    decreases s.len(),
{
    if s.len() == 0 {
        0
    } else if s.len() == 1 {
        s[0] as int - 65
    } else {
        (letters_val(s.drop_last()) + 1) * 26 + (s.last() as int - 65)
    }
}

/// A column-letter label always has at least one letter.
pub proof fn lemma_col_letters_nonempty(i: nat)
    ensures
        col_letters(i).len() >= 1,
    decreases i,
{
    if i >= 26 {
        lemma_col_letters_nonempty((i / 26 - 1) as nat);
    }
}

/// Decoding inverts encoding: `letters_val` recovers the index every
/// column-letter label was built from.
pub proof fn lemma_col_letters_val(i: nat)
    ensures
        letters_val(col_letters(i)) == i,
    decreases i,
{
    if i < 26 {
        assert(col_letters(i) == seq![letter_char(i as int)]);
        assert(col_letters(i)[0] == letter_char(i as int));
    } else {
        lemma_div_pos_is_pos(i as int, 26);
        lemma_div_decreases(i as int, 26);
        let j = (i / 26 - 1) as nat;
        lemma_col_letters_val(j);
        lemma_col_letters_nonempty(j);
        let s = col_letters(i);
        assert(s == col_letters(j) + seq![letter_char((i % 26) as int)]);
        assert(s.drop_last() =~= col_letters(j));
        assert(s.last() == letter_char((i % 26) as int));
        lemma_mod_division_less_than_divisor(i as int, 26);
        assert(s.last() as int - 65 == i % 26);
        lemma_fundamental_div_mod(i as int, 26);
        assert(letters_val(s) == (j + 1) * 26 + i % 26);
        assert((j + 1) * 26 == (i / 26) * 26);
    }
}

/// The column-letter encoding is a bijection onto its image: no two
/// column indices share a letter label.
pub proof fn lemma_col_letters_injective(i: nat, j: nat)
    ensures
        col_letters(i) == col_letters(j) ==> i == j,
{
    if col_letters(i) == col_letters(j) {
        lemma_col_letters_val(i);
        lemma_col_letters_val(j);
    }
}

/// Relies on `String::push`: appends the given character to the end of
/// the string.
#[verifier::external_body]
fn push_char(s: &mut String, c: char)
    ensures
        final(s)@ == old(s)@ + seq![c],
{
    s.push(c);
}

/// Appends the column-letter label of `index` to `s`.
fn push_col_letters(s: &mut String, index: u32)
    ensures
        final(s)@ == old(s)@ + col_letters(index as nat),
    decreases index,
{
    if index >= 26 {
        proof {
            lemma_div_pos_is_pos(index as int, 26);
            lemma_div_decreases(index as int, 26);
        }
        push_col_letters(s, index / 26 - 1);
    }
    let rem: u8 = (index % 26) as u8;
    proof {
        lemma_mod_division_less_than_divisor(index as int, 26);
    }
    push_char(s, (65 + rem) as char);
    proof {
        assert(s@ =~= old(s)@ + col_letters(index as nat));
    }
}

/// The letter label of a 0-based column index, as the grid's protocol
/// spells it: `0 -> "A"`, `25 -> "Z"`, `26 -> "AA"`, `27 -> "AB"`, ...
pub fn col_index_to_letters(index: u32) -> (r: String)
    ensures
        r@ == col_letters(index as nat),
{
    let mut s = String::new();
    push_col_letters(&mut s, index);
    proof {
        assert(s@ =~= col_letters(index as nat));
    }
    s
}

/// Appends the decimal rendering of `n` to `s`.
fn push_dec(s: &mut String, n: u64)
    ensures
        final(s)@ == old(s)@ + dec_chars(n as nat),
    decreases n,
{
    if n >= 10 {
        proof {
            lemma_div_decreases(n as int, 10);
        }
        push_dec(s, n / 10);
    }
    let d: u8 = (n % 10) as u8;
    proof {
        lemma_mod_division_less_than_divisor(n as int, 10);
    }
    push_char(s, (48 + d) as char);
    proof {
        assert(s@ =~= old(s)@ + dec_chars(n as nat));
    }
}

/// The decimal rendering of `n` as a string.
pub fn u64_to_dec_string(n: u64) -> (r: String)
    ensures
        r@ == dec_chars(n as nat),
{
    let mut s = String::new();
    push_dec(&mut s, n);
    proof {
        assert(s@ =~= dec_chars(n as nat));
    }
    s
}

/// Builds the display text of the cell at 1-based row `row1` with the
/// already-rendered column letters `letters`.
pub fn make_cell_label(row1: u64, letters: &String) -> (r: String)
    ensures
        r@ == "R"@ + dec_chars(row1 as nat) + "C "@ + letters@,
{
    let mut s = String::from_str("R");
    push_dec(&mut s, row1);
    s.append("C ");
    s.append(letters.as_str());
    s
}

} // verus!
