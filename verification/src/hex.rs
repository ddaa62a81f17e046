//! Lower-case hexadecimal rendering of byte strings.

use vstd::prelude::*;

verus! {

/// The lower-case hex digit for a nibble `n` (`0 <= n < 16`).
pub open spec fn hex_digit(n: int) -> char {
    if n < 10 {
        (48 + n) as char
    } else {
        (87 + n) as char
    }
}

/// Two lower-case hex digits per byte, most significant nibble first.
pub open spec fn lower_hex(bytes: Seq<u8>) -> Seq<char>
    decreases bytes.len(),
{
    if bytes.len() == 0 {
        Seq::empty()
    } else {
        seq![hex_digit((bytes[0] / 16) as int), hex_digit((bytes[0] % 16) as int)] + lower_hex(bytes.drop_first())
    }
}

/// A character that `lower_hex` may produce.
pub open spec fn is_lower_hex_char(c: char) -> bool {
    ('0' <= c && c <= '9') || ('a' <= c && c <= 'f')
}

/// Calls `String::push` from std. Trusted: it appends `c` to `s`.
#[verifier::external_body]
fn push_char(s: &mut String, c: char)
    ensures
        final(s)@ == old(s)@.push(c),
{
    s.push(c);
}

fn nibble_digit(n: u8) -> (c: char)
    requires
        n < 16,
    ensures
        c == hex_digit(n as int),
{
    if n < 10 {
        (n + 48) as char
    } else {
        (n + 87) as char
    }
}

/// Renders `digest` as lower-case hex, two digits per byte.
pub fn digest_to_hex(digest: &[u8]) -> (res: String)
    ensures
        res@ == lower_hex(digest@),
{
    let mut res = String::new();
    let n: usize = digest.len();
    let mut i: usize = 0;
    assert(digest@.skip(0) =~= digest@);
    while i < n
        invariant
            n == digest@.len(),
            i <= n,
            lower_hex(digest@) =~= res@ + lower_hex(digest@.skip(i as int)),
        decreases n - i,
    {
        let b: u8 = digest[i];
        push_char(&mut res, nibble_digit(b / 16));
        push_char(&mut res, nibble_digit(b % 16));
        assert(digest@.skip(i as int).drop_first() =~= digest@.skip(i + 1));
        i = i + 1;
    }
    assert(digest@.skip(n as int) =~= Seq::<u8>::empty());
    res
}

/// The hex rendering has exactly two characters per byte.
pub proof fn lemma_lower_hex_len(bytes: Seq<u8>)
    ensures
        lower_hex(bytes).len() == 2 * bytes.len(),
    decreases bytes.len(),
{
    if bytes.len() > 0 {
        lemma_lower_hex_len(bytes.drop_first());
    }
}

/// Every character of the rendering is a lower-case hex digit.
pub proof fn lemma_lower_hex_chars(bytes: Seq<u8>)
    ensures
        forall|i: int| 0 <= i < lower_hex(bytes).len() ==> is_lower_hex_char(#[trigger] lower_hex(bytes)[i]),
    decreases bytes.len(),
{
    if bytes.len() > 0 {
        lemma_lower_hex_chars(bytes.drop_first());
        let head = seq![hex_digit((bytes[0] / 16) as int), hex_digit((bytes[0] % 16) as int)];
        let tail = lower_hex(bytes.drop_first());
        assert forall|i: int| 0 <= i < lower_hex(bytes).len() implies is_lower_hex_char(#[trigger] lower_hex(bytes)[i]) by {
            if i >= 2 {
                assert(lower_hex(bytes)[i] == tail[i - 2]);
            }
        }
    }
}


/// The digits are those of `0123456789abcdef`, in that order: nibble `n`
/// is rendered as the `n`-th of them.
pub proof fn lemma_hex_digit_alphabet(n: int)
    requires
        0 <= n < 16,
    ensures
        hex_digit(n) == "0123456789abcdef"@[n],
{
    reveal_strlit("0123456789abcdef");
}

/// Byte `i` is rendered at positions `2i` and `2i + 1`, high nibble first.
pub proof fn lemma_lower_hex_index(bytes: Seq<u8>, i: int)
    requires
        0 <= i < bytes.len(),
    ensures
        lower_hex(bytes).len() == 2 * bytes.len(),
        lower_hex(bytes)[2 * i] == hex_digit((bytes[i] / 16) as int),
        lower_hex(bytes)[2 * i + 1] == hex_digit((bytes[i] % 16) as int),
    decreases i,
{
    lemma_lower_hex_len(bytes);
    if i > 0 {
        let rest = bytes.drop_first();
        lemma_lower_hex_index(rest, i - 1);
        assert(rest[i - 1] == bytes[i]);
        let head = seq![hex_digit((bytes[0] / 16) as int), hex_digit((bytes[0] % 16) as int)];
        assert(lower_hex(bytes) == head + lower_hex(rest));
        assert(lower_hex(bytes)[2 * i] == lower_hex(rest)[2 * (i - 1)]);
        assert(lower_hex(bytes)[2 * i + 1] == lower_hex(rest)[2 * (i - 1) + 1]);
    }
}

/// Every byte is rendered as its two digits, high nibble first, in the order
/// of the bytes.
pub proof fn lemma_lower_hex_bytes(bytes: Seq<u8>)
    ensures
        lower_hex(bytes).len() == 2 * bytes.len(),
        forall|i: int|
            0 <= i < bytes.len() ==> #[trigger] lower_hex(bytes)[2 * i] == "0123456789abcdef"@[(bytes[i] / 16) as int]
                && lower_hex(bytes)[2 * i + 1] == "0123456789abcdef"@[(bytes[i] % 16) as int],
{
    lemma_lower_hex_len(bytes);
    assert forall|i: int| 0 <= i < bytes.len() implies #[trigger] lower_hex(bytes)[2 * i]
        == "0123456789abcdef"@[(bytes[i] / 16) as int] && lower_hex(bytes)[2 * i + 1]
        == "0123456789abcdef"@[(bytes[i] % 16) as int] by {
        lemma_lower_hex_index(bytes, i);
        lemma_hex_digit_alphabet((bytes[i] / 16) as int);
        lemma_hex_digit_alphabet((bytes[i] % 16) as int);
    }
}

proof fn lemma_hex_digit_injective(a: int, b: int)
    requires
        0 <= a < 16,
        0 <= b < 16,
        hex_digit(a) == hex_digit(b),
    ensures
        a == b,
{
}

/// Distinct byte strings have distinct renderings: the rendering loses nothing.
pub proof fn lemma_lower_hex_injective(a: Seq<u8>, b: Seq<u8>)
    requires
        lower_hex(a) == lower_hex(b),
    ensures
        a == b,
    decreases a.len(),
{
    lemma_lower_hex_len(a);
    lemma_lower_hex_len(b);
    if a.len() > 0 {
        let la = lower_hex(a);
        let lb = lower_hex(b);
        assert(la[0] == lb[0] && la[1] == lb[1]);
        lemma_hex_digit_injective((a[0] / 16) as int, (b[0] / 16) as int);
        lemma_hex_digit_injective((a[0] % 16) as int, (b[0] % 16) as int);
        assert(a[0] == b[0]);
        assert(lower_hex(a.drop_first()) =~= la.skip(2));
        assert(lower_hex(b.drop_first()) =~= lb.skip(2));
        lemma_lower_hex_injective(a.drop_first(), b.drop_first());
        assert(a =~= seq![a[0]] + a.drop_first());
        assert(b =~= seq![b[0]] + b.drop_first());
    } else {
        assert(a =~= b);
    }
}

} // verus!
