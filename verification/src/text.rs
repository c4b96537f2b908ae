//! Text building blocks shared by the request builders, the tables and the
//! tool replies: decimal rendering of integers, joining of strings with a
//! separator, and the order of texts by their UTF-8 bytes.

use vstd::prelude::*;

verus! {

/// The character that writes the decimal digit `d`.
pub open spec fn digit_char(d: nat) -> char {
    if d == 0 {
        '0'
    } else if d == 1 {
        '1'
    } else if d == 2 {
        '2'
    } else if d == 3 {
        '3'
    } else if d == 4 {
        '4'
    } else if d == 5 {
        '5'
    } else if d == 6 {
        '6'
    } else if d == 7 {
        '7'
    } else if d == 8 {
        '8'
    } else {
        '9'
    }
}

/// The decimal numeral of `n`: no sign, no leading zero, `"0"` for zero.
pub open spec fn decimal(n: nat) -> Seq<char>
    decreases n,
{
    if n < 10 {
        seq![digit_char(n)]
    } else {
        decimal(n / 10).push(digit_char(n % 10))
    }
}

/// The texts held by a sequence of strings.
pub open spec fn texts(strings: Seq<String>) -> Seq<Seq<char>> {
    Seq::new(strings.len(), |i: int| strings[i]@)
}

/// `parts` written one after another with `separator` between neighbours.
pub open spec fn joined(parts: Seq<Seq<char>>, separator: Seq<char>) -> Seq<char>
    decreases parts.len(),
{
    if parts.len() == 0 {
        Seq::empty()
    } else if parts.len() == 1 {
        parts[0]
    } else {
        joined(parts.drop_last(), separator) + separator + parts.last()
    }
}

fn digit_str(d: u32) -> (s: &'static str)
    requires
        d < 10,
    ensures
        s@ == seq![digit_char(d as nat)],
{
    proof {
        reveal_strlit("0");
        reveal_strlit("1");
        reveal_strlit("2");
        reveal_strlit("3");
        reveal_strlit("4");
        reveal_strlit("5");
        reveal_strlit("6");
        reveal_strlit("7");
        reveal_strlit("8");
        reveal_strlit("9");
    }
    let s = if d == 0 {
        "0"
    } else if d == 1 {
        "1"
    } else if d == 2 {
        "2"
    } else if d == 3 {
        "3"
    } else if d == 4 {
        "4"
    } else if d == 5 {
        "5"
    } else if d == 6 {
        "6"
    } else if d == 7 {
        "7"
    } else if d == 8 {
        "8"
    } else {
        "9"
    };
    assert(s@ =~= seq![digit_char(d as nat)]);
    s
}

/// Appends the decimal numeral of `n` to `out`.
pub fn push_decimal(out: &mut String, n: u32)
    ensures
        final(out)@ == old(out)@ + decimal(n as nat),
    decreases n,
{
    if n >= 10 {
        push_decimal(out, n / 10);
    }
    out.append(digit_str(n % 10));
    assert(out@ =~= old(out)@ + decimal(n as nat));
}

/// The decimal numeral of `n` as a string of its own.
pub fn decimal_string(n: u32) -> (s: String)
    ensures
        s@ == decimal(n as nat),
{
    let mut s = String::new();
    push_decimal(&mut s, n);
    assert(s@ =~= decimal(n as nat));
    s
}

/// Appends `parts`, joined by `separator`, to `out`.
pub fn push_joined(out: &mut String, parts: &[String], separator: &str)
    ensures
        final(out)@ == old(out)@ + joined(texts(parts@), separator@),
{
    let ghost all = texts(parts@);
    let mut i: usize = 0;
    assert(all.take(0) =~= Seq::<Seq<char>>::empty());
    assert(out@ =~= old(out)@ + joined(all.take(0), separator@));
    while i < parts.len()
        invariant
            i <= parts.len(),
            all == texts(parts@),
            out@ == old(out)@ + joined(all.take(i as int), separator@),
        decreases parts.len() - i,
    {
        if i > 0 {
            out.append(separator);
        }
        out.append(parts[i].as_str());
        proof {
            let before = all.take(i as int);
            let after = all.take(i + 1);
            assert(after.drop_last() =~= before);
            assert(after.last() == parts@[i as int]@);
            assert(out@ =~= old(out)@ + joined(after, separator@));
        }
        i += 1;
    }
    assert(all.take(i as int) =~= all);
}

/// `parts` joined by `separator`, as `[String]::join` gives it.
pub fn join(parts: &[String], separator: &str) -> (s: String)
    ensures
        s@ == joined(texts(parts@), separator@),
{
    let mut s = String::new();
    push_joined(&mut s, parts, separator);
    assert(s@ =~= joined(texts(parts@), separator@));
    s
}

/// A vector that owns copies of `strings`, in their order.
pub fn copy_strings(strings: &[String]) -> (copies: Vec<String>)
    ensures
        copies@ == strings@,
{
    let mut copies: Vec<String> = Vec::new();
    let mut i: usize = 0;
    while i < strings.len()
        invariant
            i <= strings.len(),
            copies@ == strings@.take(i as int),
        decreases strings.len() - i,
    {
        copies.push(strings[i].clone());
        assert(copies@ =~= strings@.take(i + 1));
        i += 1;
    }
    assert(strings@.take(i as int) =~= strings@);
    copies
}

/// Whether `first` comes before `second` in the lexicographic order of
/// bytes: at the first place where they differ `first` has the smaller
/// byte, or `first` ends there and `second` goes on.
pub open spec fn bytes_precede(first: Seq<u8>, second: Seq<u8>) -> bool
    decreases first.len(),
{
    if second.len() == 0 {
        false
    } else if first.len() == 0 {
        true
    } else if first[0] != second[0] {
        first[0] < second[0]
    } else {
        bytes_precede(first.drop_first(), second.drop_first())
    }
}

/// Whether the text `first` comes before the text `second`: the order of
/// their UTF-8 bytes, which is the order a binary collation sorts by.
pub open spec fn precedes(first: Seq<char>, second: Seq<char>) -> bool {
    bytes_precede(vstd::utf8::encode_utf8(first), vstd::utf8::encode_utf8(second))
}

/// No byte string comes before itself.
pub proof fn lemma_bytes_irreflexive(bytes: Seq<u8>)
    ensures
        !bytes_precede(bytes, bytes),
    decreases bytes.len(),
{
    if bytes.len() > 0 {
        lemma_bytes_irreflexive(bytes.drop_first());
    }
}

/// What comes before something that comes before a third comes before the
/// third.
pub proof fn lemma_bytes_transitive(first: Seq<u8>, second: Seq<u8>, third: Seq<u8>)
    requires
        bytes_precede(first, second),
        bytes_precede(second, third),
    ensures
        bytes_precede(first, third),
    decreases first.len(),
{
    if first.len() > 0 && first[0] == second[0] && second[0] == third[0] {
        lemma_bytes_transitive(first.drop_first(), second.drop_first(), third.drop_first());
    }
}

/// Of two different byte strings one comes before the other.
pub proof fn lemma_bytes_total(first: Seq<u8>, second: Seq<u8>)
    requires
        !bytes_precede(first, second),
        !bytes_precede(second, first),
    ensures
        first == second,
    decreases first.len(),
{
    if first.len() == 0 || second.len() == 0 {
        assert(first =~= second);
    } else {
        lemma_bytes_total(first.drop_first(), second.drop_first());
        assert(first =~= seq![first[0]] + first.drop_first());
        assert(second =~= seq![second[0]] + second.drop_first());
    }
}

/// The order of texts is a strict total order: no text comes before
/// itself, the order is transitive, and of two different texts one comes
/// before the other.
pub proof fn law_texts_are_ordered(first: Seq<char>, second: Seq<char>, third: Seq<char>)
    ensures
        !precedes(first, first),
        precedes(first, second) && precedes(second, third) ==> precedes(first, third),
        first != second ==> precedes(first, second) || precedes(second, first),
        !(precedes(first, second) && precedes(second, first)),
{
    let a = vstd::utf8::encode_utf8(first);
    let b = vstd::utf8::encode_utf8(second);
    let c = vstd::utf8::encode_utf8(third);
    lemma_bytes_irreflexive(a);
    if bytes_precede(a, b) && bytes_precede(b, c) {
        lemma_bytes_transitive(a, b, c);
    }
    if bytes_precede(a, b) && bytes_precede(b, a) {
        lemma_bytes_transitive(a, b, a);
    }
    if !bytes_precede(a, b) && !bytes_precede(b, a) {
        lemma_bytes_total(a, b);
        vstd::utf8::encode_utf8_decode_utf8(first);
        vstd::utf8::encode_utf8_decode_utf8(second);
    }
}

/// Whether `first` comes before `second` in the order of texts.
pub fn comes_before(first: &str, second: &str) -> (before: bool)
    ensures
        before == precedes(first@, second@),
{
    let a = first.as_bytes();
    let b = second.as_bytes();
    let mut i: usize = 0;
    assert(a@.skip(0) =~= a@);
    assert(b@.skip(0) =~= b@);
    while i < a.len() && i < b.len()
        invariant
            i <= a.len(),
            i <= b.len(),
            a@ == vstd::utf8::encode_utf8(first@),
            b@ == vstd::utf8::encode_utf8(second@),
            precedes(first@, second@) == bytes_precede(a@.skip(i as int), b@.skip(i as int)),
        decreases a.len() - i,
    {
        if a[i] != b[i] {
            return a[i] < b[i];
        }
        assert(a@.skip(i as int).drop_first() =~= a@.skip(i + 1));
        assert(b@.skip(i as int).drop_first() =~= b@.skip(i + 1));
        i += 1;
    }
    i < b.len()
}

} // verus!
