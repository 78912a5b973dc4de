//! Text operations the planners share: comparison, affix tests, and the
//! decimal forms that appear in symbols and diagnostics.
//!
//! Everything here is stated over a string's characters and proved from its
//! UTF-8 bytes.

use vstd::prelude::*;
use vstd::string::*;
use vstd::utf8::*;

verus! {

/// `text` ends with `tail`.
pub open spec fn is_suffix(text: Seq<char>, tail: Seq<char>) -> bool {
    tail.len() <= text.len() && text.skip(text.len() - tail.len()) == tail
}

/// `text` starts with `head`.
pub open spec fn is_prefix(text: Seq<char>, head: Seq<char>) -> bool {
    head.len() <= text.len() && text.take(head.len() as int) == head
}

/// Two texts with the same encoding are the same text.
pub proof fn lemma_encoding_is_injective(a: Seq<char>, b: Seq<char>)
    requires
        encode_utf8(a) == encode_utf8(b),
    ensures
        a == b,
{
    encode_utf8_decode_utf8(a);
    encode_utf8_decode_utf8(b);
}

/// The encoding of a concatenation is the concatenation of the encodings.
proof fn lemma_encoding_concat(a: Seq<char>, b: Seq<char>)
    ensures
        encode_utf8(a + b) == encode_utf8(a) + encode_utf8(b),
    decreases a.len(),
{
    if a.len() == 0 {
        assert(a + b =~= b);
        assert(encode_utf8(a) + encode_utf8(b) =~= encode_utf8(b));
    } else {
        lemma_encoding_concat(a.drop_first(), b);
        assert((a + b).drop_first() =~= a.drop_first() + b);
        assert((a + b)[0] == a[0]);
        assert(encode_utf8(a + b) =~= encode_utf8(a) + encode_utf8(b));
    }
}

/// Do two byte slices agree on `n` bytes, from `at` in the first and from the
/// start of the second?
fn bytes_match(a: &[u8], at: usize, b: &[u8]) -> (same: bool)
    requires
        at + b@.len() <= a@.len(),
    ensures
        same == (a@.subrange(at as int, at + b@.len()) == b@),
{
    let n: usize = a.len();
    let mut i: usize = 0;
    while i < b.len()
        invariant
            i <= b@.len(),
            n == a@.len(),
            at + b@.len() <= n,
            forall|j: int| 0 <= j < i ==> a@[at + j] == b@[j],
        decreases b@.len() - i,
    {
        if a[at + i] != b[i] {
            assert(a@.subrange(at as int, at + b@.len())[i as int] == a@[at + i]);
            return false;
        }
        i += 1;
    }
    assert(a@.subrange(at as int, at + b@.len()) =~= b@);
    true
}

/// Are two texts the same?
pub fn str_eq(a: &str, b: &str) -> (same: bool)
    ensures
        same == (a@ == b@),
{
    let x = a.as_bytes();
    let y = b.as_bytes();
    if x.len() != y.len() {
        return false;
    }
    let same = bytes_match(x, 0, y);
    proof {
        assert(x@.subrange(0, y@.len() as int) =~= x@);
        if same {
            lemma_encoding_is_injective(a@, b@);
        }
    }
    same
}

/// Does `text` start with `head`?
pub fn has_prefix(text: &str, head: &str) -> (yes: bool)
    ensures
        yes == is_prefix(text@, head@),
{
    let x = text.as_bytes();
    let y = head.as_bytes();
    proof {
        if is_prefix(text@, head@) {
            let rest = text@.skip(head@.len() as int);
            assert(text@ =~= head@ + rest);
            lemma_encoding_concat(head@, rest);
            assert(x@.subrange(0, y@.len() as int) =~= y@);
        }
    }
    if x.len() < y.len() {
        return false;
    }
    let yes = bytes_match(x, 0, y);
    proof {
        if yes {
            lemma_split_prefix(text@, head@);
        }
    }
    yes
}

/// `text` without `tail`, when it ends with it.
pub fn without_suffix<'a>(text: &'a str, tail: &str) -> (rest: Option<&'a str>)
    ensures
        rest is Some <==> is_suffix(text@, tail@),
        rest matches Some(r) ==> r@ == text@.take(text@.len() - tail@.len()),
{
    let x = text.as_bytes();
    let y = tail.as_bytes();
    proof {
        if is_suffix(text@, tail@) {
            let head = text@.take(text@.len() - tail@.len());
            assert(text@ =~= head + tail@);
            lemma_encoding_concat(head, tail@);
            assert(x@.subrange(x@.len() - y@.len(), x@.len() as int) =~= y@);
        }
    }
    if x.len() < y.len() {
        return None;
    }
    let at: usize = x.len() - y.len();
    if !bytes_match(x, at, y) {
        return None;
    }
    proof {
        lemma_split_suffix(text@, tail@);
        encode_utf8_valid_utf8(text@);
        lemma_suffix_boundary(text@, tail@);
    }
    let parts = text.split_at(at);
    proof {
        let head = text@.take(text@.len() - tail@.len());
        assert(text@ =~= head + tail@);
        lemma_encoding_concat(head, tail@);
        assert(parts.0.spec_bytes() =~= encode_utf8(head));
        lemma_encoding_is_injective(parts.0@, head);
    }
    Some(parts.0)
}

/// `text` without `head`, when it starts with it.
pub fn without_prefix<'a>(text: &'a str, head: &str) -> (rest: Option<&'a str>)
    ensures
        rest is Some <==> is_prefix(text@, head@),
        rest matches Some(r) ==> r@ == text@.skip(head@.len() as int),
{
    if !has_prefix(text, head) {
        return None;
    }
    let at: usize = head.as_bytes().len();
    proof {
        let rest = text@.skip(head@.len() as int);
        assert(text@ =~= head@ + rest);
        lemma_encoding_concat(head@, rest);
        encode_utf8_valid_utf8(text@);
        encode_utf8_valid_utf8(rest);
        lemma_concat_boundary(head@, rest);
    }
    let parts = text.split_at(at);
    proof {
        let rest = text@.skip(head@.len() as int);
        assert(parts.1.spec_bytes() =~= encode_utf8(rest));
        lemma_encoding_is_injective(parts.1@, rest);
    }
    Some(parts.1)
}

/// Where one encoding ends inside a concatenation is a character boundary.
proof fn lemma_concat_boundary(a: Seq<char>, b: Seq<char>)
    ensures
        is_char_boundary(encode_utf8(a + b), encode_utf8(a).len() as int),
{
    let bytes = encode_utf8(a + b);
    let at = encode_utf8(a).len() as int;
    lemma_encoding_concat(a, b);
    encode_utf8_valid_utf8(a + b);
    is_char_boundary_start_end_of_seq(bytes);
    if encode_utf8(b).len() > 0 {
        lemma_first_byte_leads(b);
        assert(bytes[at] == encode_utf8(b)[0]);
        is_char_boundary_iff_not_is_continuation_byte(bytes, at);
    } else {
        assert(at == bytes.len());
    }
}

/// The first byte of a text's encoding is not a continuation byte.
proof fn lemma_first_byte_leads(b: Seq<char>)
    requires
        encode_utf8(b).len() > 0,
    ensures
        !is_continuation_byte(encode_utf8(b)[0]),
{
    encode_utf8_valid_utf8(b);
    is_char_boundary_start_end_of_seq(encode_utf8(b));
    is_char_boundary_iff_not_is_continuation_byte(encode_utf8(b), 0);
}

/// A byte suffix that is itself an encoding starts at a character boundary.
proof fn lemma_suffix_boundary(text: Seq<char>, tail: Seq<char>)
    requires
        encode_utf8(tail).len() <= encode_utf8(text).len(),
        encode_utf8(text).skip(encode_utf8(text).len() - encode_utf8(tail).len()) == encode_utf8(
            tail,
        ),
    ensures
        is_char_boundary(
            encode_utf8(text),
            encode_utf8(text).len() - encode_utf8(tail).len(),
        ),
{
    let bytes = encode_utf8(text);
    let at = bytes.len() - encode_utf8(tail).len();
    encode_utf8_valid_utf8(text);
    is_char_boundary_start_end_of_seq(bytes);
    if encode_utf8(tail).len() > 0 {
        lemma_first_byte_leads(tail);
        assert(bytes[at] == bytes.skip(at)[0]);
        is_char_boundary_iff_not_is_continuation_byte(bytes, at);
    }
}

/// A byte suffix that is itself an encoding is a suffix of characters.
proof fn lemma_split_suffix(text: Seq<char>, tail: Seq<char>)
    requires
        encode_utf8(tail).len() <= encode_utf8(text).len(),
        encode_utf8(text).subrange(
            encode_utf8(text).len() - encode_utf8(tail).len(),
            encode_utf8(text).len() as int,
        ) == encode_utf8(tail),
    ensures
        is_suffix(text, tail),
        encode_utf8(text).skip(encode_utf8(text).len() - encode_utf8(tail).len()) == encode_utf8(
            tail,
        ),
{
    let bytes = encode_utf8(text);
    let at = bytes.len() - encode_utf8(tail).len();
    assert(bytes.skip(at) =~= bytes.subrange(at, bytes.len() as int));
    lemma_suffix_boundary(text, tail);
    encode_utf8_valid_utf8(text);
    decode_utf8_split(bytes, at);
    encode_utf8_decode_utf8(text);
    encode_utf8_decode_utf8(tail);
    assert(bytes.subrange(at, bytes.len() as int) == encode_utf8(tail));
    let head = decode_utf8(bytes.subrange(0, at));
    assert(text == head + tail);
    assert(text.skip(text.len() - tail.len()) =~= tail);
}

/// A byte prefix that is itself an encoding is a prefix of characters.
proof fn lemma_split_prefix(text: Seq<char>, head: Seq<char>)
    requires
        encode_utf8(head).len() <= encode_utf8(text).len(),
        encode_utf8(text).subrange(0, encode_utf8(head).len() as int) == encode_utf8(head),
    ensures
        is_prefix(text, head),
    decreases head.len(),
{
    if head.len() > 0 {
        lemma_first_char(text, head);
        let t = text.drop_first();
        let h = head.drop_first();
        lemma_encoding_concat(seq![head[0]], h);
        lemma_encoding_concat(seq![text[0]], t);
        assert(head =~= seq![head[0]] + h);
        assert(text =~= seq![text[0]] + t);
        let lead = encode_utf8(seq![head[0]]);
        assert(encode_utf8(head) == lead + encode_utf8(h));
        assert(encode_utf8(text) == lead + encode_utf8(t));
        assert(encode_utf8(t).subrange(0, encode_utf8(h).len() as int) =~= encode_utf8(
            text,
        ).subrange(0, encode_utf8(head).len() as int).skip(lead.len() as int));
        assert(encode_utf8(h) =~= encode_utf8(head).skip(lead.len() as int));
        lemma_split_prefix(t, h);
        assert(text.take(head.len() as int) =~= head) by {
            assert forall|i: int| 0 <= i < head.len() implies text[i] == head[i] by {
                if i > 0 {
                    assert(t.take(h.len() as int)[i - 1] == h[i - 1]);
                }
            }
        }
    } else {
        assert(text.take(0) =~= head);
    }
}

/// Two texts whose encodings start alike start with the same character.
proof fn lemma_first_char(text: Seq<char>, head: Seq<char>)
    requires
        head.len() > 0,
        encode_utf8(head).len() <= encode_utf8(text).len(),
        encode_utf8(text).subrange(0, encode_utf8(head).len() as int) == encode_utf8(head),
    ensures
        text.len() > 0,
        text[0] == head[0],
{
    encode_utf8_first_scalar(head);
    encode_utf8_valid_utf8(head);
    encode_utf8_valid_utf8(text);
    assert(encode_utf8(head).len() > 0);
    assert(text.len() > 0) by {
        if text.len() == 0 {
            assert(encode_utf8(text).len() == 0);
        }
    }
    encode_utf8_first_scalar(text);
    let b = encode_utf8(head);
    let t = encode_utf8(text);
    assert(forall|i: int| 0 <= i < b.len() ==> t.subrange(0, b.len() as int)[i] == b[i]);
    assert(t[0] == b[0]);
    char_is_scalar(text[0]);
    char_is_scalar(head[0]);
    char_u32_cast(text[0], text[0] as u32);
    char_u32_cast(head[0], head[0] as u32);
}

/// The character of a decimal digit.
pub open spec fn digit(d: nat) -> char {
    if d == 0 {
        '0'
    } else if d == 1 {
        '1'
    } else if d == 2 {
        '2'
    } else if d == 3 {
        '3'
    } else if d == 4 {
        '4'
    } else if d == 5 {
        '5'
    } else if d == 6 {
        '6'
    } else if d == 7 {
        '7'
    } else if d == 8 {
        '8'
    } else {
        '9'
    }
}

/// `n` written in base ten, with no leading zero.
pub open spec fn decimal(n: nat) -> Seq<char>
    decreases n,
{
    if n < 10 {
        seq![digit(n)]
    } else {
        decimal(n / 10).push(digit(n % 10))
    }
}

/// Append one decimal digit.
fn push_digit(out: &mut String, d: u64)
    requires
        d < 10,
    ensures
        final(out)@ == old(out)@.push(digit(d as nat)),
{
    proof {
        reveal_strlit("0");
        reveal_strlit("1");
        reveal_strlit("2");
        reveal_strlit("3");
        reveal_strlit("4");
        reveal_strlit("5");
        reveal_strlit("6");
        reveal_strlit("7");
        reveal_strlit("8");
        reveal_strlit("9");
    }
    let c: &str = match d {
        0 => "0",
        1 => "1",
        2 => "2",
        3 => "3",
        4 => "4",
        5 => "5",
        6 => "6",
        7 => "7",
        8 => "8",
        _ => "9",
    };
    assert(c@ =~= seq![digit(d as nat)]);
    out.append(c);
    assert(out@ =~= old(out)@.push(digit(d as nat)));
}

/// Append `n` in base ten.
pub fn push_decimal(out: &mut String, n: u64)
    ensures
        final(out)@ == old(out)@ + decimal(n as nat),
    decreases n,
{
    if n < 10 {
        push_digit(out, n);
        assert(out@ =~= old(out)@ + decimal(n as nat));
    } else {
        push_decimal(out, n / 10);
        let ghost mid = out@;
        push_digit(out, n % 10);
        assert(out@ =~= old(out)@ + decimal(n as nat)) by {
            assert(mid == old(out)@ + decimal((n / 10) as nat));
            assert(decimal(n as nat) == decimal((n as nat) / 10).push(digit((n as nat) % 10)));
        }
    }
}

/// Every character is a decimal digit.
pub open spec fn all_digits(s: Seq<char>) -> bool {
    forall|i: int| 0 <= i < s.len() ==> '0' <= #[trigger] s[i] <= '9'
}

/// The number a run of decimal digits writes.
pub open spec fn digits_value(s: Seq<char>) -> nat
    decreases s.len(),
{
    if s.len() == 0 {
        0
    } else {
        (digits_value(s.drop_last()) * 10 + (s.last() as int - '0' as int)) as nat
    }
}

/// The digits of a written unsigned number: an optional plus sign is not one.
pub open spec fn unsigned_digits(text: Seq<char>) -> Seq<char> {
    if text.len() > 0 && text[0] == '+' {
        text.skip(1)
    } else {
        text
    }
}

/// The `u32` a text writes: an optional plus sign and then decimal digits
/// alone, at least one of them, and no more than the type holds.
pub open spec fn written_u32(text: Seq<char>) -> Option<u32> {
    let d = unsigned_digits(text);
    if d.len() > 0 && all_digits(d) && digits_value(d) <= u32::MAX {
        Some(digits_value(d) as u32)
    } else {
        None
    }
}

/// Read a text as a `u32`.
pub fn parse_u32(text: &str) -> (n: Option<u32>)
    ensures
        n == written_u32(text@),
{
    let len: usize = text.unicode_len();
    if len == 0 {
        return None;
    }
    let start: usize = if text.get_char(0) == '+' {
        1
    } else {
        0
    };
    let ghost d = unsigned_digits(text@);
    assert(d.len() == len - start);
    assert(forall|i: int| 0 <= i < d.len() ==> d[i] == text@[start + i]);
    if start == len {
        return None;
    }
    let mut i: usize = start;
    let mut value: u64 = 0;
    let mut fits: bool = true;
    while i < len
        invariant
            start <= i <= len,
            start <= 1,
            len == text@.len(),
            d.len() == len - start,
            d == unsigned_digits(text@),
            forall|j: int| 0 <= j < d.len() ==> d[j] == text@[start + j],
            all_digits(d.take(i - start)),
            fits ==> value == digits_value(d.take(i - start)) && value <= u32::MAX,
            !fits ==> digits_value(d.take(i - start)) > u32::MAX,
        decreases len - i,
    {
        let c: char = text.get_char(i);
        let ghost k = i - start;
        assert(d[k] == c);
        if c < '0' || c > '9' {
            assert(!all_digits(d));
            return None;
        }
        let v: u64 = (c as u32 - '0' as u32) as u64;
        assert(d.take(k + 1).drop_last() =~= d.take(k));
        assert(d.take(k + 1).last() == c);
        assert(all_digits(d.take(k + 1))) by {
            assert forall|j: int| 0 <= j < k + 1 implies '0' <= #[trigger] d.take(k + 1)[j]
                <= '9' by {
                if j < k {
                    assert(d.take(k)[j] == d.take(k + 1)[j]);
                }
            }
        }
        if fits {
            value = value * 10 + v;
            if value > u32::MAX as u64 {
                fits = false;
            }
        }
        i += 1;
    }
    assert(d.take(d.len() as int) =~= d);
    if fits {
        Some(value as u32)
    } else {
        None
    }
}

/// A number is read back from its own digits.
pub proof fn law_what_is_written_is_read(n: nat)
    ensures
        all_digits(decimal(n)),
        decimal(n).len() > 0,
        digits_value(decimal(n)) == n,
        n <= u32::MAX ==> written_u32(decimal(n)) == Some(n as u32),
    decreases n,
{
    let text = decimal(n);
    if n < 10 {
        assert(text.drop_last() =~= Seq::<char>::empty());
        assert(digits_value(Seq::<char>::empty()) == 0);
    } else {
        law_what_is_written_is_read(n / 10);
        assert(text.drop_last() =~= decimal(n / 10));
        assert forall|i: int| 0 <= i < text.len() implies '0' <= #[trigger] text[i] <= '9' by {
            if i < text.len() - 1 {
                assert(text[i] == decimal(n / 10)[i]);
            }
        }
    }
    assert('0' <= text[0]);
}

/// A digit is as far past zero as its value.
pub proof fn law_a_digit_is_its_value_past_zero(d: nat)
    requires
        d < 10,
    ensures
        digit(d) as int - '0' as int == d,
{
}

/// A plus sign before the digits changes nothing.
pub proof fn law_a_plus_sign_changes_nothing(n: nat)
    requires
        n <= u32::MAX,
    ensures
        written_u32(seq!['+'] + decimal(n)) == Some(n as u32),
{
    law_what_is_written_is_read(n);
    let text = seq!['+'] + decimal(n);
    assert(text.skip(1) =~= decimal(n));
}

/// What is read is digits alone, but for a plus sign in front of at least one,
/// and is the number they write, which the type holds; everything else is
/// refused.
pub proof fn law_only_digits_are_read(text: Seq<char>, d: Seq<char>)
    requires
        text == seq!['+'] + d || text == d && (d.len() == 0 || d[0] != '+'),
    ensures
        written_u32(text) is Some <==> d.len() > 0 && (forall|i: int|
            0 <= i < d.len() ==> '0' <= #[trigger] d[i] <= '9') && digits_value(d) <= 0xffff_ffff,
        written_u32(text) matches Some(n) ==> n == digits_value(d),
{
    if text == seq!['+'] + d {
        assert(text[0] == '+');
        assert(text.skip(1) =~= d);
    }
    assert(unsigned_digits(text) == d);
    assert(all_digits(d) == (forall|i: int| 0 <= i < d.len() ==> '0' <= #[trigger] d[i] <= '9'));
}

/// A text starts with its prefixes and ends with its suffixes, and what follows
/// a prefix makes the text up again.
pub proof fn law_ends_are_ends(text: Seq<char>, part: Seq<char>)
    ensures
        is_prefix(text, part) == part.is_prefix_of(text),
        is_suffix(text, part) == part.is_suffix_of(text),
        is_prefix(text, part) ==> part + text.skip(part.len() as int) == text,
        is_suffix(text, part) ==> text.take(text.len() - part.len()) + part == text,
{
    if part.len() <= text.len() {
        assert(text.take(part.len() as int) =~= text.subrange(0, part.len() as int));
        assert(text.skip(text.len() - part.len()) =~= text.subrange(
            (text.len() - part.len()) as int,
            text.len() as int,
        ));
        if is_prefix(text, part) {
            assert(part + text.skip(part.len() as int) =~= text);
        }
        if is_suffix(text, part) {
            assert(text.take(text.len() - part.len()) + part =~= text);
        }
    }
}

} // verus!
