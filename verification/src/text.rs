//! Decimal text of integers, as std's `Display` and `Debug` write them.
use vstd::prelude::*;

verus! {

pub open spec fn digit_char(d: int) -> char {
    if d == 0 {
        '0'
    } else if d == 1 {
        '1'
    } else if d == 2 {
        '2'
    } else if d == 3 {
        '3'
    } else if d == 4 {
        '4'
    } else if d == 5 {
        '5'
    } else if d == 6 {
        '6'
    } else if d == 7 {
        '7'
    } else if d == 8 {
        '8'
    } else {
        '9'
    }
}

/// The decimal digits of `n`, most significant first, without leading zeros.
pub open spec fn decimal(n: nat) -> Seq<char>
    decreases n,
{
    if n < 10 {
        seq![digit_char(n as int)]
    } else {
        decimal(n / 10).push(digit_char((n % 10) as int))
    }
}

/// Ten to the power `k`.
pub open spec fn pow10(k: nat) -> nat
    decreases k,
{
    if k == 0 {
        1
    } else {
        10 * pow10((k - 1) as nat)
    }
}

/// The digits of `n`, left-padded with `0` up to `width` characters.
pub open spec fn zero_padded(n: nat, width: nat) -> Seq<char> {
    let d = decimal(n);
    if d.len() >= width {
        d
    } else {
        Seq::new((width - d.len()) as nat, |_i: int| '0') + d
    }
}

/// The text that `Display` gives an integer: a `-` before negative values.
pub open spec fn signed_decimal(i: int) -> Seq<char> {
    if i < 0 {
        seq!['-'] + decimal((-i) as nat)
    } else {
        decimal(i as nat)
    }
}

/// The items of `s` in decimal, separated by `, `.
pub open spec fn joined_decimals(s: Seq<i32>) -> Seq<char>
    decreases s.len(),
{
    if s.len() == 0 {
        Seq::empty()
    } else if s.len() == 1 {
        signed_decimal(s[0] as int)
    } else {
        joined_decimals(s.drop_last()) + ", "@ + signed_decimal(s.last() as int)
    }
}

/// The text that `Debug` gives a `Vec<i32>`: `[1, 2, 3]`.
pub open spec fn debug_list(s: Seq<i32>) -> Seq<char> {
    "["@ + joined_decimals(s) + "]"@
}

/// How many times `c` occurs in `t`.
pub open spec fn count_char(t: Seq<char>, c: char) -> nat
    decreases t.len(),
{
    if t.len() == 0 {
        0
    } else {
        (if t.last() == c { 1nat } else { 0nat }) + count_char(t.drop_last(), c)
    }
}

proof fn lemma_count_concat(a: Seq<char>, b: Seq<char>, c: char)
    ensures
        count_char(a + b, c) == count_char(a, c) + count_char(b, c),
    decreases b.len(),
{
    if b.len() == 0 {
        assert(a + b =~= a);
    } else {
        assert((a + b).drop_last() =~= a + b.drop_last());
        lemma_count_concat(a, b.drop_last(), c);
    }
}

proof fn lemma_count_single(ch: char, c: char)
    ensures
        count_char(seq![ch], c) == (if ch == c { 1nat } else { 0nat }),
{
    assert(seq![ch].last() == ch);
    assert(seq![ch].drop_last() =~= Seq::<char>::empty());
    assert(count_char(Seq::<char>::empty(), c) == 0);
}

proof fn lemma_digit_not_comma(d: int)
    ensures
        digit_char(d) != ',',
{
}

proof fn lemma_decimal_no_comma(n: nat)
    ensures
        count_char(decimal(n), ',') == 0,
    decreases n,
{
    if n >= 10 {
        lemma_decimal_no_comma(n / 10);
        let t = decimal(n);
        assert(t == decimal(n / 10).push(digit_char((n % 10) as int)));
        assert(t.drop_last() =~= decimal(n / 10));
        assert(t.last() == digit_char((n % 10) as int));
        lemma_digit_not_comma((n % 10) as int);
    } else {
        lemma_digit_not_comma(n as int);
        lemma_count_single(digit_char(n as int), ',');
    }
}

proof fn lemma_signed_no_comma(i: int)
    ensures
        count_char(signed_decimal(i), ',') == 0,
{
    if i < 0 {
        lemma_decimal_no_comma((-i) as nat);
        lemma_count_concat(seq!['-'], decimal((-i) as nat), ',');
        lemma_count_single('-', ',');
    } else {
        lemma_decimal_no_comma(i as nat);
    }
}

/// The list text of no id is `[]`; of one id, that id in brackets.
pub proof fn lemma_debug_list_short(x: i32)
    ensures
        debug_list(Seq::empty()) == seq!['[', ']'],
        debug_list(seq![x]) == seq!['['] + signed_decimal(x as int) + seq![']'],
{
    reveal_strlit("[");
    reveal_strlit("]");
    assert(debug_list(Seq::empty()) =~= seq!['[', ']']);
}

/// Adding an id to a non-empty list adds `, ` and that id before the `]`:
/// every id of the list is written, in order.
pub proof fn lemma_debug_list_push(s: Seq<i32>, x: i32)
    requires
        s.len() > 0,
    ensures
        debug_list(s.push(x)) == debug_list(s).drop_last() + seq![',', ' '] + signed_decimal(x as int)
            + seq![']'],
{
    reveal_strlit("[");
    reveal_strlit("]");
    reveal_strlit(", ");
    assert(s.push(x).drop_last() =~= s);
    assert(debug_list(s).drop_last() =~= "["@ + joined_decimals(s));
    assert(debug_list(s.push(x)) =~= debug_list(s).drop_last() + seq![',', ' '] + signed_decimal(
        x as int,
    ) + seq![']']);
}

/// The list text of `n` ids holds exactly `n - 1` separators `,` (none for
/// an empty list): one item per id.
pub proof fn lemma_debug_list_items(s: Seq<i32>)
    ensures
        count_char(debug_list(s), ',') == if s.len() == 0 { 0 } else { (s.len() - 1) as nat },
    decreases s.len(),
{
    reveal_strlit("[");
    reveal_strlit("]");
    reveal_strlit(", ");
    lemma_count_concat(seq!['['], joined_decimals(s), ',');
    lemma_count_concat(seq!['['] + joined_decimals(s), seq![']'], ',');
    assert(debug_list(s) =~= seq!['['] + joined_decimals(s) + seq![']']);
    lemma_count_single('[', ',');
    lemma_count_single(']', ',');
    lemma_joined_items(s);
}

proof fn lemma_joined_items(s: Seq<i32>)
    ensures
        count_char(joined_decimals(s), ',') == if s.len() == 0 { 0 } else { (s.len() - 1) as nat },
    decreases s.len(),
{
    reveal_strlit(", ");
    if s.len() == 0 {
    } else if s.len() == 1 {
        lemma_signed_no_comma(s[0] as int);
    } else {
        lemma_joined_items(s.drop_last());
        lemma_signed_no_comma(s.last() as int);
        let a = joined_decimals(s.drop_last());
        lemma_count_concat(a, seq![',', ' '], ',');
        lemma_count_concat(a + seq![',', ' '], signed_decimal(s.last() as int), ',');
        lemma_count_concat(seq![','], seq![' '], ',');
        assert(seq![','] + seq![' '] =~= seq![',', ' ']);
        lemma_count_single(',', ',');
        lemma_count_single(' ', ',');
        assert(", "@ =~= seq![',', ' ']);
        assert(joined_decimals(s) =~= a + seq![',', ' '] + signed_decimal(s.last() as int));
    }
}

fn digit_str(d: u64) -> (res: &'static str)
    requires
        d < 10,
    ensures
        res@ == seq![digit_char(d as int)],
{
    proof {
        reveal_strlit("0");
        reveal_strlit("1");
        reveal_strlit("2");
        reveal_strlit("3");
        reveal_strlit("4");
        reveal_strlit("5");
        reveal_strlit("6");
        reveal_strlit("7");
        reveal_strlit("8");
        reveal_strlit("9");
    }
    if d == 0 {
        "0"
    } else if d == 1 {
        "1"
    } else if d == 2 {
        "2"
    } else if d == 3 {
        "3"
    } else if d == 4 {
        "4"
    } else if d == 5 {
        "5"
    } else if d == 6 {
        "6"
    } else if d == 7 {
        "7"
    } else if d == 8 {
        "8"
    } else {
        "9"
    }
}

/// The decimal digits of `n`.
pub fn decimal_text(n: u64) -> (res: String)
    ensures
        res@ == decimal(n as nat),
    decreases n,
{
    if n < 10 {
        digit_str(n).to_string()
    } else {
        let mut s = decimal_text(n / 10);
        s.append(digit_str(n % 10));
        s
    }
}

/// The text that `Display` gives `i`.
pub fn int_text(i: i64) -> (res: String)
    ensures
        res@ == signed_decimal(i as int),
{
    if i < 0 {
        let magnitude: u64 = (0i128 - i as i128) as u64;
        let mut s = "-".to_string();
        proof {
            reveal_strlit("-");
        }
        s.append(decimal_text(magnitude).as_str());
        s
    } else {
        decimal_text(i as u64)
    }
}

/// The text that `Debug` gives a list of identifiers, e.g. `[3, 7]`.
pub fn ids_debug_text(ids: &Vec<i32>) -> (res: String)
    ensures
        res@ == debug_list(ids@),
{
    let mut body = String::new();
    let mut i: usize = 0;
    while i < ids.len()
        invariant
            i <= ids.len(),
            body@ == joined_decimals(ids@.take(i as int)),
        decreases ids.len() - i,
    {
        let t = int_text(ids[i] as i64);
        if i > 0 {
            body.append(", ");
        }
        body.append(t.as_str());
        assert(ids@.take(i + 1).drop_last() =~= ids@.take(i as int));
        i = i + 1;
    }
    assert(ids@.take(ids.len() as int) =~= ids@);
    let mut res = "[".to_string();
    res.append(body.as_str());
    res.append("]");
    res
}

} // verus!
