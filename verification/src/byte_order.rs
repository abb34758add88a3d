//! Lexicographic order on byte strings, the order in which Rust compares
//! strings (byte by byte over their UTF-8 encoding).

use vstd::prelude::*;

verus! {

/// Three-way lexicographic comparison of two byte strings: `-1` when `a`
/// comes first, `0` when they are equal, `1` when `b` comes first. A proper
/// prefix comes before the longer string.
pub open spec fn byte_order(a: Seq<u8>, b: Seq<u8>) -> int
    decreases a.len(),
{
    if a.len() == 0 {
        if b.len() == 0 {
            0
        } else {
            -1
        }
    } else if b.len() == 0 {
        1
    } else if a[0] < b[0] {
        -1
    } else if a[0] > b[0] {
        1
    } else {
        byte_order(a.drop_first(), b.drop_first())
    }
}

/// The position of a string in the order: the bytes of its UTF-8 encoding.
pub open spec fn utf8_key(s: Seq<char>) -> Seq<u8> {
    vstd::utf8::encode_utf8(s)
}

/// `a` does not come after `b` when both are compared as Rust compares strings.
pub open spec fn str_le(a: Seq<char>, b: Seq<char>) -> bool {
    byte_order(utf8_key(a), utf8_key(b)) <= 0
}

/// `a` and `b` hold the same place in the order.
pub open spec fn str_same_place(a: Seq<char>, b: Seq<char>) -> bool {
    byte_order(utf8_key(a), utf8_key(b)) == 0
}

pub proof fn lemma_byte_order_range(a: Seq<u8>, b: Seq<u8>)
    ensures
        -1 <= byte_order(a, b) <= 1,
        byte_order(a, b) == -byte_order(b, a),
    decreases a.len(),
{
    if a.len() > 0 && b.len() > 0 && a[0] == b[0] {
        lemma_byte_order_range(a.drop_first(), b.drop_first());
    }
}

pub proof fn lemma_byte_order_equal(a: Seq<u8>, b: Seq<u8>)
    ensures
        byte_order(a, b) == 0 <==> a == b,
    decreases a.len(),
{
    if a.len() > 0 && b.len() > 0 && a[0] == b[0] {
        lemma_byte_order_equal(a.drop_first(), b.drop_first());
        if a.drop_first() == b.drop_first() {
            assert(a =~= seq![a[0]] + a.drop_first());
            assert(b =~= seq![b[0]] + b.drop_first());
        }
        if a == b {
            assert(a.drop_first() =~= b.drop_first());
        }
    } else if a.len() == 0 && b.len() == 0 {
        assert(a =~= b);
    } else if a == b {
        assert(a.len() > 0 && a[0] == b[0]);
    }
}

pub proof fn lemma_byte_order_transitive(a: Seq<u8>, b: Seq<u8>, c: Seq<u8>)
    requires
        byte_order(a, b) <= 0,
        byte_order(b, c) <= 0,
    ensures
        byte_order(a, c) <= 0,
        byte_order(a, b) < 0 || byte_order(b, c) < 0 ==> byte_order(a, c) < 0,
    decreases a.len(),
{
    if a.len() > 0 && b.len() > 0 && c.len() > 0 && a[0] == b[0] && b[0] == c[0] {
        lemma_byte_order_transitive(a.drop_first(), b.drop_first(), c.drop_first());
    }
}

/// The order of two empty strings is a tie; the empty string comes before
/// every other string.
pub proof fn lemma_byte_order_empty(s: Seq<u8>)
    ensures
        byte_order(Seq::<u8>::empty(), Seq::<u8>::empty()) == 0,
        s.len() > 0 ==> byte_order(Seq::<u8>::empty(), s) == -1,
        s.len() > 0 ==> byte_order(s, Seq::<u8>::empty()) == 1,
{
}

/// Strings are compared from their first byte: a shared first byte is
/// passed over, and the first differing byte decides.
pub proof fn lemma_byte_order_first_byte(c: u8, d: u8, s: Seq<u8>, t: Seq<u8>)
    ensures
        c == d ==> byte_order(seq![c] + s, seq![d] + t) == byte_order(s, t),
        c < d ==> byte_order(seq![c] + s, seq![d] + t) == -1,
        c > d ==> byte_order(seq![c] + s, seq![d] + t) == 1,
{
    assert((seq![c] + s).drop_first() =~= s);
    assert((seq![d] + t).drop_first() =~= t);
    assert((seq![c] + s)[0] == c);
    assert((seq![d] + t)[0] == d);
}

/// A common beginning does not change the order of two strings.
pub proof fn lemma_byte_order_common_prefix(p: Seq<u8>, s: Seq<u8>, t: Seq<u8>)
    ensures
        byte_order(p + s, p + t) == byte_order(s, t),
    decreases p.len(),
{
    if p.len() == 0 {
        assert(p + s =~= s);
        assert(p + t =~= t);
    } else {
        lemma_byte_order_common_prefix(p.drop_first(), s, t);
        assert((p + s).drop_first() =~= p.drop_first() + s);
        assert((p + t).drop_first() =~= p.drop_first() + t);
        assert((p + s)[0] == p[0]);
        assert((p + t)[0] == p[0]);
    }
}

/// A string comes before every longer string that begins with it.
pub proof fn lemma_byte_order_proper_prefix(p: Seq<u8>, t: Seq<u8>)
    requires
        t.len() > 0,
    ensures
        byte_order(p, p + t) == -1,
        byte_order(p + t, p) == 1,
{
    lemma_byte_order_common_prefix(p, Seq::<u8>::empty(), t);
    lemma_byte_order_common_prefix(p, t, Seq::<u8>::empty());
    assert(p + Seq::<u8>::empty() =~= p);
}

/// Any two strings are ordered one way or the other, and a string holds
/// the same place as itself.
pub proof fn lemma_byte_order_total(a: Seq<u8>, b: Seq<u8>)
    ensures
        byte_order(a, b) <= 0 || byte_order(b, a) <= 0,
        byte_order(a, a) == 0,
{
    lemma_byte_order_range(a, b);
    lemma_byte_order_equal(a, a);
}

/// The UTF-8 text of two strings put together is the text of the first
/// followed by the text of the second.
pub proof fn lemma_utf8_key_concat(a: Seq<char>, b: Seq<char>)
    ensures
        utf8_key(a + b) == utf8_key(a) + utf8_key(b),
    decreases a.len(),
{
    if a.len() == 0 {
        assert(a + b =~= b);
        assert(utf8_key(a) =~= Seq::<u8>::empty());
        assert(utf8_key(a) + utf8_key(b) =~= utf8_key(b));
    } else {
        lemma_utf8_key_concat(a.drop_first(), b);
        assert((a + b).drop_first() =~= a.drop_first() + b);
        assert((a + b)[0] == a[0]);
        let e = vstd::utf8::encode_scalar(a[0] as u32);
        assert(utf8_key(a + b) == e + utf8_key(a.drop_first() + b));
        assert(e + (utf8_key(a.drop_first()) + utf8_key(b)) =~= (e + utf8_key(a.drop_first())) + utf8_key(b));
    }
}

/// A name comes no later than any name that begins with it.
pub proof fn lemma_str_le_prefix(a: Seq<char>, b: Seq<char>)
    ensures
        str_le(a, a + b),
{
    lemma_utf8_key_concat(a, b);
    lemma_byte_order_common_prefix(utf8_key(a), Seq::<u8>::empty(), utf8_key(b));
    assert(utf8_key(a) + Seq::<u8>::empty() =~= utf8_key(a));
    lemma_byte_order_range(Seq::<u8>::empty(), utf8_key(b));
}

/// Names in ASCII are ordered by their first characters: a name whose
/// first character has the lower code comes first, whatever follows.
pub proof fn lemma_str_le_ascii_first_char(a: Seq<char>, b: Seq<char>)
    requires
        a.len() > 0,
        b.len() > 0,
        vstd::utf8::is_ascii_chars(a),
        vstd::utf8::is_ascii_chars(b),
        (a[0] as u32) < (b[0] as u32),
    ensures
        str_le(a, b),
        !str_le(b, a),
        byte_order(utf8_key(a), utf8_key(b)) == -1,
{
    vstd::utf8::is_ascii_chars_encode_utf8(a);
    vstd::utf8::is_ascii_chars_encode_utf8(b);
    let x = utf8_key(a);
    let y = utf8_key(b);
    assert(x[0] == a[0] as u8);
    assert(y[0] == b[0] as u8);
    assert('\0' <= a[0] <= '\u{7f}');
    assert('\0' <= b[0] <= '\u{7f}');
    assert((a[0] as u8) < (b[0] as u8));
    lemma_byte_order_range(x, y);
}

/// Two names hold the same place in the order exactly when they are the
/// same name.
pub proof fn lemma_same_place_is_equal(a: Seq<char>, b: Seq<char>)
    ensures
        str_same_place(a, b) <==> a == b,
{
    lemma_byte_order_equal(utf8_key(a), utf8_key(b));
    vstd::utf8::encode_utf8_decode_utf8(a);
    vstd::utf8::encode_utf8_decode_utf8(b);
}

/// Compares the UTF-8 encodings of two strings, byte by byte.
pub fn compare_str(a: &str, b: &str) -> (r: i8)
    ensures
        r as int == byte_order(utf8_key(a@), utf8_key(b@)),
{
    let x = a.as_bytes();
    let y = b.as_bytes();
    let ghost xs = x@;
    let ghost ys = y@;
    let mut i: usize = 0;
    assert(xs.skip(0) =~= xs);
    assert(ys.skip(0) =~= ys);
    while i < x.len() && i < y.len()
        invariant
            x@ == xs,
            y@ == ys,
            i <= xs.len(),
            i <= ys.len(),
            xs == utf8_key(a@),
            ys == utf8_key(b@),
            byte_order(xs, ys) == byte_order(xs.skip(i as int), ys.skip(i as int)),
        decreases xs.len() - i,
    {
        assert(xs.skip(i as int)[0] == x[i as int]);
        assert(ys.skip(i as int)[0] == y[i as int]);
        if x[i] < y[i] {
            return -1;
        }
        if x[i] > y[i] {
            return 1;
        }
        assert(xs.skip(i as int).drop_first() =~= xs.skip(i + 1));
        assert(ys.skip(i as int).drop_first() =~= ys.skip(i + 1));
        i = i + 1;
    }
    if i < x.len() {
        1
    } else if i < y.len() {
        -1
    } else {
        0
    }
}

/// `a` does not come after `b` in the order of Rust strings.
pub fn str_le_exec(a: &str, b: &str) -> (r: bool)
    ensures
        r == str_le(a@, b@),
{
    compare_str(a, b) <= 0
}

} // verus!
