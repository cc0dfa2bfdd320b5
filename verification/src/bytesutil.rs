//! Byte-sequence helpers shared by the protocol modules: decimal rendering
//! and parsing of `u64` values, and joining byte strings with a separator.
//!
//! Protocol strings (public keys, identities, key ids) are carried as byte
//! vectors throughout the library; the transport layer converts to and from
//! UTF-8 at the edge.

use vstd::prelude::*;

verus! {

broadcast use vstd::string::is_ascii_spec_bytes;

/// The bytes are the UTF-8 encoding of some character sequence.
pub open spec fn spec_is_utf8(s: Seq<u8>) -> bool {
    exists|cs: Seq<char>| vstd::utf8::encode_utf8(cs) == s
}

/// The bytes of an ASCII character sequence.
pub open spec fn spec_ascii_bytes(s: Seq<char>) -> Seq<u8> {
    Seq::new(s.len(), |i: int| s[i] as u8)
}

/// The UTF-8 bytes of a string, when it is ASCII.
pub fn str_to_bytes(s: &str) -> (r: Option<Vec<u8>>)
    ensures
        r is Some <==> vstd::string::is_ascii(s),
        r matches Some(v) ==> v@ == spec_ascii_bytes(s@),
{
    if !s.is_ascii() {
        return None;
    }
    let v = s.as_bytes_vec();
    assert(v@ =~= spec_ascii_bytes(s@));
    Some(v)
}

/// The decimal digits of `n`, most significant first, as ASCII bytes.
pub open spec fn spec_u64_decimal(n: nat) -> Seq<u8>
    decreases n,
{
    if n < 10 {
        seq![(n + 48) as u8]
    } else {
        spec_u64_decimal(n / 10).push(((n % 10) + 48) as u8)
    }
}

/// Every byte of `s` is an ASCII decimal digit.
pub open spec fn spec_all_digits(s: Seq<u8>) -> bool {
    forall|i: int| 0 <= i < s.len() ==> 48 <= #[trigger] s[i] <= 57
}

/// The numeric value of a digit string, most significant digit first.
pub open spec fn spec_decimal_value(s: Seq<u8>) -> nat
    decreases s.len(),
{
    if s.len() == 0 {
        0
    } else {
        (spec_decimal_value(s.drop_last()) * 10 + (s.last() - 48)) as nat
    }
}

/// What `parse_u64_decimal` accepts: an optional leading `+`, then one or
/// more decimal digits whose value fits in a `u64`.
pub open spec fn spec_parse_u64(s: Seq<u8>) -> Option<u64> {
    let body = if s.len() > 0 && s[0] == 43 {
        s.drop_first()
    } else {
        s
    };
    if body.len() > 0 && spec_all_digits(body) && spec_decimal_value(body) <= u64::MAX {
        Some(spec_decimal_value(body) as u64)
    } else {
        None
    }
}

/// The items of `items` joined with the single byte `sep` between them.
pub open spec fn spec_join(items: Seq<Seq<u8>>, sep: u8) -> Seq<u8>
    decreases items.len(),
{
    if items.len() == 0 {
        Seq::empty()
    } else if items.len() == 1 {
        items[0]
    } else {
        spec_join(items.drop_last(), sep) + seq![sep] + items.last()
    }
}

/// Renders `n` in decimal, most significant digit first.
pub fn u64_to_decimal(n: u64) -> (r: Vec<u8>)
    ensures
        r@ == spec_u64_decimal(n as nat),
    decreases n,
{
    if n < 10 {
        let d: u8 = (n as u8) + 48;
        let mut v: Vec<u8> = Vec::new();
        v.push(d);
        assert(v@ =~= spec_u64_decimal(n as nat));
        v
    } else {
        let mut v = u64_to_decimal(n / 10);
        let d: u8 = ((n % 10) as u8) + 48;
        v.push(d);
        assert(v@ =~= spec_u64_decimal(n as nat));
        v
    }
}

/// A digit string's value never shrinks when more digits are appended.
proof fn lemma_decimal_value_prefix_le(s: Seq<u8>, i: int)
    requires
        0 <= i <= s.len(),
        spec_all_digits(s),
    ensures
        spec_decimal_value(s.take(i)) <= spec_decimal_value(s),
    decreases s.len() - i,
{
    if i < s.len() {
        lemma_decimal_value_prefix_le(s, i + 1);
        assert(s.take(i + 1).drop_last() =~= s.take(i));
        assert(s.take(i + 1).last() == s[i]);
        assert(spec_decimal_value(s.take(i)) * 10 >= spec_decimal_value(s.take(i)))
            by (nonlinear_arith);
        assert(spec_decimal_value(s.take(i + 1)) == (spec_decimal_value(s.take(i)) * 10 + (s[i]
            - 48)) as nat);
    } else {
        assert(s.take(i) =~= s);
    }
}

/// Parses an optionally `+`-prefixed decimal string; rejects empty input,
/// non-digit bytes and values above `u64::MAX`.
#[verifier::loop_isolation(false)]
pub fn parse_u64_decimal(s: &Vec<u8>) -> (r: Option<u64>)
    ensures
        r == spec_parse_u64(s@),
{
    let start: usize = if s.len() > 0 && s[0] == 43 {
        1
    } else {
        0
    };
    let ghost body: Seq<u8> = if s@.len() > 0 && s@[0] == 43 {
        s@.drop_first()
    } else {
        s@
    };
    assert(body =~= s@.subrange(start as int, s@.len() as int));
    if s.len() == start {
        return None;
    }
    let mut acc: u64 = 0;
    let mut i: usize = start;
    while i < s.len()
        invariant
            start <= i <= s@.len(),
            body =~= s@.subrange(start as int, s@.len() as int),
            spec_all_digits(body.take(i - start)),
            spec_decimal_value(body.take(i - start)) == acc,
        decreases s@.len() - i,
    {
        let b = s[i];
        if b < 48 || b > 57 {
            proof {
                assert(body[i - start] == b);
                assert(!spec_all_digits(body));
                assert(spec_parse_u64(s@) is None);
            }
            return None;
        }
        let d: u64 = (b - 48) as u64;
        // acc * 10 + d must fit in a u64, else the whole value is too large.
        if acc > (u64::MAX - d) / 10 {
            proof {
                if spec_all_digits(body) {
                    assert(spec_decimal_value(body.take(i - start + 1)) > u64::MAX) by {
                        assert(body.take(i - start + 1).drop_last() =~= body.take(i - start));
                        assert(body.take(i - start + 1).last() == b);
                        assert(acc * 10 + d > u64::MAX) by (nonlinear_arith)
                            requires
                                acc > (u64::MAX - d) / 10 && d <= 9 && acc <= u64::MAX,
                        ;
                    }
                    lemma_decimal_value_prefix_le(body, i - start + 1);
                }
                assert(spec_parse_u64(s@) is None);
            }
            return None;
        }
        proof {
            assert(acc * 10 + d <= u64::MAX) by (nonlinear_arith)
                requires
                    acc <= (u64::MAX - d) / 10 && d <= 9,
            ;
            assert(body.take(i - start + 1).drop_last() =~= body.take(i - start));
            assert(body.take(i - start + 1).last() == b);
        }
        acc = acc * 10 + d;
        i = i + 1;
    }
    assert(body.take(i - start) =~= body);
    Some(acc)
}

/// Joins the byte strings of `items` with the single byte `sep` between
/// consecutive items; no leading or trailing separator.
pub fn join_bytes(items: &Vec<Vec<u8>>, sep: u8) -> (r: Vec<u8>)
    ensures
        r@ == spec_join(items@.map_values(|v: Vec<u8>| v@), sep),
{
    let ghost m: Seq<Seq<u8>> = items@.map_values(|v: Vec<u8>| v@);
    let mut r: Vec<u8> = Vec::new();
    let mut i: usize = 0;
    while i < items.len()
        invariant
            0 <= i <= items@.len(),
            m == items@.map_values(|v: Vec<u8>| v@),
            r@ == spec_join(m.take(i as int), sep),
        decreases items@.len() - i,
    {
        if i > 0 {
            r.push(sep);
        }
        let item = &items[i];
        let mut j: usize = 0;
        let ghost base: Seq<u8> = r@;
        while j < item.len()
            invariant
                0 <= j <= item@.len(),
                r@ == base + item@.take(j as int),
            decreases item@.len() - j,
        {
            let b = item[j];
            r.push(b);
            assert(r@ =~= base + item@.take(j + 1));
            j = j + 1;
        }
        assert(item@.take(item@.len() as int) =~= item@);
        proof {
            if i == 0 {
                assert(m.take(1int) =~= seq![m[0]]);
                assert(r@ =~= m[0]);
                assert(spec_join(m.take(1int), sep) == m[0]);
            } else {
                assert(m.take(i + 1).drop_last() =~= m.take(i as int));
                assert(m.take(i + 1).last() == m[i as int]);
                assert(r@ =~= spec_join(m.take(i as int), sep) + seq![sep] + m[i as int]);
            }
        }
        i = i + 1;
    }
    assert(m.take(items@.len() as int) =~= m);
    r
}

/// Appends all of `src` to `dst`.
pub fn push_all(dst: &mut Vec<u8>, src: &Vec<u8>)
    ensures
        final(dst)@ == old(dst)@ + src@,
{
    let mut j: usize = 0;
    let ghost base: Seq<u8> = dst@;
    while j < src.len()
        invariant
            0 <= j <= src@.len(),
            dst@ == base + src@.take(j as int),
        decreases src@.len() - j,
    {
        let b = src[j];
        dst.push(b);
        assert(dst@ =~= base + src@.take(j + 1));
        j = j + 1;
    }
    assert(src@.take(src@.len() as int) =~= src@);
}

/// Copies a byte vector.
pub fn clone_bytes(v: &Vec<u8>) -> (r: Vec<u8>)
    ensures
        r@ == v@,
{
    let mut r: Vec<u8> = Vec::new();
    push_all(&mut r, v);
    r
}

/// Rendering a value in decimal yields only digits.
pub proof fn lemma_decimal_all_digits(n: nat)
    ensures
        spec_all_digits(spec_u64_decimal(n)),
        spec_u64_decimal(n).len() >= 1,
    decreases n,
{
    if n >= 10 {
        lemma_decimal_all_digits(n / 10);
    }
}

/// The decimal rendering of `n` evaluates back to `n`.
pub proof fn lemma_decimal_value_of_rendering(n: nat)
    ensures
        spec_decimal_value(spec_u64_decimal(n)) == n,
    decreases n,
{
    if n < 10 {
        let s = spec_u64_decimal(n);
        assert(s.drop_last() =~= Seq::<u8>::empty());
        assert(spec_decimal_value(s.drop_last()) == 0);
        assert(s.last() == (n + 48) as u8);
        assert((n + 48) as u8 == n + 48);
        assert(spec_decimal_value(s) == (0 * 10 + ((n + 48) as u8 - 48)) as nat);
    } else {
        lemma_decimal_value_of_rendering(n / 10);
        let s = spec_u64_decimal(n);
        assert(s.drop_last() =~= spec_u64_decimal(n / 10));
        assert(s.last() == ((n % 10) + 48) as u8);
        assert(spec_decimal_value(s) == (n / 10 * 10 + (((n % 10) + 48) as u8 - 48)) as nat);
        assert(n / 10 * 10 + n % 10 == n) by (nonlinear_arith);
    }
}

/// Parsing is a left inverse of decimal rendering.
pub proof fn lemma_parse_of_rendering(n: u64)
    ensures
        spec_parse_u64(spec_u64_decimal(n as nat)) == Some(n),
{
    lemma_decimal_all_digits(n as nat);
    lemma_decimal_value_of_rendering(n as nat);
    assert(spec_u64_decimal(n as nat)[0] != 43);
}

} // verus!
