//! Text building blocks: decimal numerals, comparison and concatenation of strings.

use vstd::prelude::*;

verus! {

/// The decimal digit of `d`.
pub open spec fn digit_char(d: nat) -> char {
    (('0' as u32) + d) as char
}

/// The decimal numeral of `n`, without leading zeros.
pub open spec fn decimal(n: nat) -> Seq<char>
    decreases n,
{
    if n < 10 {
        seq![digit_char(n)]
    } else {
        decimal(n / 10).push(digit_char(n % 10))
    }
}

/// The decimal numeral of `n`, with a leading `-` when it is negative.
pub open spec fn signed_decimal(n: int) -> Seq<char> {
    if n < 0 {
        seq!['-'] + decimal((-n) as nat)
    } else {
        decimal(n as nat)
    }
}

/// The characters of each text.
pub open spec fn texts_of(texts: Seq<String>) -> Seq<Seq<char>> {
    texts.map_values(|s: String| s@)
}

/// Whether text `a` sorts before text `b`: at the first place where they differ it has the
/// smaller character, or it ends there.
pub open spec fn text_before(a: Seq<char>, b: Seq<char>) -> bool
    decreases a.len(),
{
    if b.len() == 0 {
        false
    } else if a.len() == 0 {
        true
    } else if a[0] != b[0] {
        a[0] < b[0]
    } else {
        text_before(a.skip(1), b.skip(1))
    }
}

/// Whether `text` consists of exactly these parts, one behind the other.
pub open spec fn made_of(text: Seq<char>, parts: Seq<Seq<char>>) -> bool
    decreases parts.len(),
{
    if parts.len() == 0 {
        text.len() == 0
    } else {
        &&& parts[0].is_prefix_of(text)
        &&& made_of(text.skip(parts[0].len() as int), parts.skip(1))
    }
}

/// A part in front of a text that is made of parts.
pub proof fn lemma_made_of(first: Seq<char>, rest: Seq<char>, parts: Seq<Seq<char>>)
    requires
        made_of(rest, parts),
    ensures
        made_of(first + rest, seq![first] + parts),
{
    let text = first + rest;
    let all = seq![first] + parts;
    assert(all.skip(1) =~= parts);
    assert(text.skip(first.len() as int) =~= rest);
    assert(text.subrange(0, first.len() as int) =~= first);
}

/// A text is made of itself.
pub proof fn lemma_made_of_one(text: Seq<char>)
    ensures
        made_of(text, seq![text]),
{
    let none = Seq::<Seq<char>>::empty();
    lemma_made_of(text, Seq::empty(), none);
    assert(text + Seq::<char>::empty() =~= text);
    assert(seq![text] + none =~= seq![text]);
}

/// Two texts, one behind the other.
pub proof fn lemma_made_of_two(a: Seq<char>, b: Seq<char>)
    ensures
        made_of(a + b, seq![a, b]),
{
    lemma_made_of_one(b);
    lemma_made_of(a, b, seq![b]);
    assert(seq![a] + seq![b] =~= seq![a, b]);
}

/// Three texts, one behind the other.
pub proof fn lemma_made_of_three(a: Seq<char>, b: Seq<char>, c: Seq<char>)
    ensures
        made_of(a + b + c, seq![a, b, c]),
{
    lemma_made_of_two(b, c);
    lemma_made_of(a, b + c, seq![b, c]);
    assert(a + (b + c) =~= a + b + c);
    assert(seq![a] + seq![b, c] =~= seq![a, b, c]);
}

/// Four texts, one behind the other.
pub proof fn lemma_made_of_four(a: Seq<char>, b: Seq<char>, c: Seq<char>, d: Seq<char>)
    ensures
        made_of(a + b + c + d, seq![a, b, c, d]),
{
    lemma_made_of_three(b, c, d);
    lemma_made_of(a, b + c + d, seq![b, c, d]);
    assert(a + (b + c + d) =~= a + b + c + d);
    assert(seq![a] + seq![b, c, d] =~= seq![a, b, c, d]);
}

/// Five texts, one behind the other.
pub proof fn lemma_made_of_five(
    a: Seq<char>,
    b: Seq<char>,
    c: Seq<char>,
    d: Seq<char>,
    e: Seq<char>,
)
    ensures
        made_of(a + b + c + d + e, seq![a, b, c, d, e]),
{
    lemma_made_of_four(b, c, d, e);
    lemma_made_of(a, b + c + d + e, seq![b, c, d, e]);
    assert(a + (b + c + d + e) =~= a + b + c + d + e);
    assert(seq![a] + seq![b, c, d, e] =~= seq![a, b, c, d, e]);
}

fn digit_text(d: u64) -> (r: &'static str)
    requires
        d < 10,
    ensures
        r@ == seq![digit_char(d as nat)],
{
    proof {
        reveal_strlit("0");
        reveal_strlit("1");
        reveal_strlit("2");
        reveal_strlit("3");
        reveal_strlit("4");
        reveal_strlit("5");
        reveal_strlit("6");
        reveal_strlit("7");
        reveal_strlit("8");
        reveal_strlit("9");
    }
    if d == 0 {
        "0"
    } else if d == 1 {
        "1"
    } else if d == 2 {
        "2"
    } else if d == 3 {
        "3"
    } else if d == 4 {
        "4"
    } else if d == 5 {
        "5"
    } else if d == 6 {
        "6"
    } else if d == 7 {
        "7"
    } else if d == 8 {
        "8"
    } else {
        "9"
    }
}

/// Writes `n` in decimal.
pub fn decimal_text(n: u64) -> (r: String)
    ensures
        r@ == decimal(n as nat),
    decreases n,
{
    if n < 10 {
        digit_text(n).to_owned()
    } else {
        let mut text = decimal_text(n / 10);
        text.append(digit_text(n % 10));
        text
    }
}

/// Writes `n` in decimal, with a sign when it is negative.
pub fn signed_decimal_text(n: i64) -> (r: String)
    ensures
        r@ == signed_decimal(n as int),
{
    if n < 0 {
        proof {
            reveal_strlit("-");
        }
        let magnitude: u64 = (-(n as i128)) as u64;
        let mut text = "-".to_owned();
        text.append(decimal_text(magnitude).as_str());
        text
    } else {
        decimal_text(n as u64)
    }
}

/// Whether the two texts are the same.
pub fn same_text(a: &str, b: &str) -> (r: bool)
    ensures
        r == (a@ == b@),
{
    a.to_owned() == b.to_owned()
}

/// Whether `text` begins with `prefix`.
pub fn begins_with(text: &str, prefix: &str) -> (r: bool)
    ensures
        r == prefix@.is_prefix_of(text@),
{
    let n: usize = prefix.unicode_len();
    if text.unicode_len() < n {
        return false;
    }
    let mut i: usize = 0;
    while i < n
        invariant
            n == prefix@.len(),
            n <= text@.len(),
            i <= n,
            forall|k: int| 0 <= k < i ==> prefix@[k] == text@[k],
        decreases n - i,
    {
        if prefix.get_char(i) != text.get_char(i) {
            return false;
        }
        i += 1;
    }
    assert(prefix@ =~= text@.subrange(0, n as int));
    true
}

/// Of two different texts exactly one sorts before the other, and none sorts before itself.
pub proof fn law_texts_are_ordered(a: Seq<char>, b: Seq<char>)
    ensures
        a == b ==> !text_before(a, b),
        a != b ==> text_before(a, b) != text_before(b, a),
    decreases a.len(),
{
    if a.len() > 0 && b.len() > 0 && a[0] == b[0] {
        law_texts_are_ordered(a.skip(1), b.skip(1));
        if a != b && a.skip(1) == b.skip(1) {
            assert(a =~= seq![a[0]] + a.skip(1));
            assert(b =~= seq![b[0]] + b.skip(1));
        }
    } else if a.len() == 0 && b.len() == 0 {
        assert(a =~= b);
    }
}

/// What decides between two texts is the first character at which they differ.
pub proof fn law_first_difference_decides(
    front: Seq<char>,
    c: char,
    d: char,
    x: Seq<char>,
    y: Seq<char>,
)
    requires
        c < d,
    ensures
        text_before(front + seq![c] + x, front + seq![d] + y),
        text_before(front, front + seq![d] + y),
    decreases front.len(),
{
    let a = front + seq![c] + x;
    let b = front + seq![d] + y;
    if front.len() > 0 {
        let rest = front.skip(1);
        law_first_difference_decides(rest, c, d, x, y);
        assert(a.skip(1) =~= rest + seq![c] + x);
        assert(b.skip(1) =~= rest + seq![d] + y);
    }
}

} // verus!
