use vstd::prelude::*;
use crate::error::Error;

verus! {

/// The character of a 6-bit group in the standard alphabet: `A`-`Z`,
/// `a`-`z`, `0`-`9`, `+` and `/`.
pub open spec fn digit(n: int) -> char {
    if n < 26 {
        ((65 + n) as u32) as char
    } else if n < 52 {
        ((97 + n - 26) as u32) as char
    } else if n < 62 {
        ((48 + n - 52) as u32) as char
    } else if n == 62 {
        '+'
    } else {
        '/'
    }
}

/// Distinct 6-bit groups have distinct characters, none of them `=`.
pub proof fn digit_injective(i: int, j: int)
    requires
        0 <= i < 64,
        0 <= j < 64,
    ensures
        digit(i) == digit(j) ==> i == j,
        digit(i) != '=',
{
    vstd::utf8::char_u32_cast(digit(i), digit(i) as u32);
    vstd::utf8::char_u32_cast(digit(j), digit(j) as u32);
}

/// The standard base64 rendering of a byte sequence: each group of three
/// bytes becomes four characters; a last group of one or two bytes is
/// padded with `=` to four.
pub open spec fn base64_of(b: Seq<u8>) -> Seq<char>
    decreases b.len(),
{
    if b.len() == 0 {
        Seq::empty()
    } else if b.len() == 1 {
        seq![digit((b[0] as int) / 4), digit(((b[0] as int) % 4) * 16), '=', '=']
    } else if b.len() == 2 {
        seq![digit((b[0] as int) / 4), digit(((b[0] as int) % 4) * 16 + (b[1] as int) / 16), digit(((b[1] as int) % 16) * 4), '=']
    } else {
        seq![
            digit((b[0] as int) / 4),
            digit(((b[0] as int) % 4) * 16 + (b[1] as int) / 16),
            digit(((b[1] as int) % 16) * 4 + (b[2] as int) / 64),
            digit((b[2] as int) % 64),
        ] + base64_of(b.subrange(3, b.len() as int))
    }
}

/// The bytes that a standard base64 text stands for, if it is one.
pub uninterp spec fn base64_decoded(s: Seq<char>) -> Option<Seq<u8>>;

/// An opaque byte sequence; on the wire it is base64 text.
#[derive(Clone, Debug, PartialEq, Eq)]
pub struct Bytes(pub Vec<u8>);

impl Bytes {
    pub fn from_vec(b: Vec<u8>) -> (r: Bytes)
        ensures
            r.0@ == b@,
    {
        Bytes(b)
    }
}

/// Relies on `base64::encode`: the standard alphabet, padded to a multiple
/// of four characters.
#[verifier::external_body]
pub(crate) fn base64_encode(b: &[u8]) -> (r: String)
    ensures
        r@ == base64_of(b@),
        r@.len() == 4 * ((b@.len() + 2) / 3),
{
    base64::encode(b)
}

/// Relies on `base64::decode`: the standard alphabet; an error, with its
/// message, for text that is not standard base64; the standard rendering
/// of any bytes reads back as those bytes.
#[verifier::external_body]
fn base64_decode(s: &str) -> (r: Result<Vec<u8>, String>)
    ensures
        match r {
            Ok(v) => base64_decoded(s@) == Some(v@) && forall|b: Seq<u8>| #[trigger] base64_of(b) == s@ ==> v@ == b,
            Err(_) => base64_decoded(s@) is None && forall|b: Seq<u8>| #[trigger] base64_of(b) != s@,
        },
{
    base64::decode(s).map_err(|e| e.to_string())
}

/// The wire form of a byte sequence: its base64 text.
pub fn serialize(data: &Bytes) -> (r: String)
    ensures
        r@ == base64_of(data.0@),
{
    base64_encode(data.0.as_slice())
}

/// Reads a byte sequence from its base64 text.
pub fn deserialize(s: &str) -> (r: Result<Bytes, Error>)
    ensures
        forall|b: Seq<u8>| #[trigger] base64_of(b) == s@ ==> (r matches Ok(x) && x.0@ == b),
        match base64_decoded(s@) {
            Some(b) => r matches Ok(x) && x.0@ == b,
            None => r matches Err(Error::ResponseDataFailure(_)),
        },
{
    match base64_decode(s) {
        Ok(b) => Ok(Bytes(b)),
        Err(message) => Err(Error::ResponseDataFailure(message)),
    }
}

/// A non-empty rendering has at least four characters.
proof fn base64_nonempty(b: Seq<u8>)
    requires
        b.len() > 0,
    ensures
        base64_of(b).len() >= 4,
{
    if b.len() >= 3 {
        assert(base64_of(b).len() == 4 + base64_of(b.subrange(3, b.len() as int)).len());
    }
}

/// Bytes are fixed by their 6-bit groups.
proof fn groups_fix_bytes(a0: int, a1: int, c0: int, c1: int)
    requires
        0 <= a0 < 256,
        0 <= a1 < 256,
        0 <= c0 < 256,
        0 <= c1 < 256,
        a0 / 4 == c0 / 4,
        (a0 % 4) * 16 + a1 / 16 == (c0 % 4) * 16 + c1 / 16,
    ensures
        a0 == c0,
        a1 / 16 == c1 / 16,
{
}

/// Distinct byte sequences have distinct renderings.
pub proof fn base64_injective(a: Seq<u8>, b: Seq<u8>)
    requires
        base64_of(a) == base64_of(b),
    ensures
        a == b,
    decreases a.len(),
{
    let ea = base64_of(a);
    if a.len() == 0 || b.len() == 0 {
        if a.len() > 0 {
            base64_nonempty(a);
        }
        if b.len() > 0 {
            base64_nonempty(b);
        }
        assert(a =~= b);
        return;
    }
    let (a0, c0) = (a[0] as int, b[0] as int);
    digit_injective(a0 / 4, c0 / 4);
    if a.len() >= 2 && b.len() >= 2 {
        let (a1, c1) = (a[1] as int, b[1] as int);
        digit_injective((a0 % 4) * 16 + a1 / 16, (c0 % 4) * 16 + c1 / 16);
        digit_injective((a1 % 16) * 4, (c1 % 16) * 4);
        if a.len() >= 3 && b.len() >= 3 {
            let (a2, c2) = (a[2] as int, b[2] as int);
            digit_injective((a1 % 16) * 4 + a2 / 64, (c1 % 16) * 4 + c2 / 64);
            digit_injective(a2 % 64, c2 % 64);
            let ra = a.subrange(3, a.len() as int);
            let rb = b.subrange(3, b.len() as int);
            let pa = seq![
                digit(a0 / 4),
                digit((a0 % 4) * 16 + a1 / 16),
                digit((a1 % 16) * 4 + a2 / 64),
                digit(a2 % 64),
            ];
            let pb = seq![
                digit(c0 / 4),
                digit((c0 % 4) * 16 + c1 / 16),
                digit((c1 % 16) * 4 + c2 / 64),
                digit(c2 % 64),
            ];
            assert(ea == pa + base64_of(ra));
            assert(base64_of(b) == pb + base64_of(rb));
            assert(pa[0] == ea[0] && pa[1] == ea[1] && pa[2] == ea[2] && pa[3] == ea[3]);
            assert(pb[0] == ea[0] && pb[1] == ea[1] && pb[2] == ea[2] && pb[3] == ea[3]);
            groups_fix_bytes(a0, a1, c0, c1);
            assert(a1 == c1 && a2 == c2) by (nonlinear_arith)
                requires
                    0 <= a1 < 256,
                    0 <= c1 < 256,
                    0 <= a2 < 256,
                    0 <= c2 < 256,
                    a1 / 16 == c1 / 16,
                    (a1 % 16) * 4 + a2 / 64 == (c1 % 16) * 4 + c2 / 64,
                    a2 % 64 == c2 % 64,
            ;
            assert(base64_of(ra) =~= ea.subrange(4, ea.len() as int));
            assert(base64_of(rb) =~= base64_of(b).subrange(4, base64_of(b).len() as int));
            base64_injective(ra, rb);
            assert(a =~= seq![a[0], a[1], a[2]] + ra);
            assert(b =~= seq![b[0], b[1], b[2]] + rb);
        } else if a.len() >= 3 {
            digit_injective(((a1 % 16) * 4 + a[2] as int / 64), 0);
            assert(ea[2] != base64_of(b)[2] || ea[3] != base64_of(b)[3]);
        } else if b.len() >= 3 {
            digit_injective(((c1 % 16) * 4 + b[2] as int / 64), 0);
            assert(ea[2] != base64_of(b)[2] || ea[3] != base64_of(b)[3]);
        } else {
            assert(ea[0] == base64_of(b)[0] && ea[1] == base64_of(b)[1] && ea[2] == base64_of(b)[2]);
            groups_fix_bytes(a0, a1, c0, c1);
            assert(a1 == c1) by (nonlinear_arith)
                requires
                    0 <= a1 < 256,
                    0 <= c1 < 256,
                    a1 / 16 == c1 / 16,
                    (a1 % 16) * 4 == (c1 % 16) * 4,
            ;
            assert(a =~= b);
        }
    } else if a.len() >= 2 {
        digit_injective((a0 % 4) * 16 + a[1] as int / 16, 0);
        digit_injective(((a[1] as int % 16) * 4 + if a.len() >= 3 { a[2] as int / 64 } else { 0 }), 0);
        assert(ea[2] != base64_of(b)[2]);
    } else if b.len() >= 2 {
        digit_injective((c0 % 4) * 16 + b[1] as int / 16, 0);
        digit_injective(((b[1] as int % 16) * 4 + if b.len() >= 3 { b[2] as int / 64 } else { 0 }), 0);
        assert(ea[2] != base64_of(b)[2]);
    } else {
        digit_injective((a0 % 4) * 16, (c0 % 4) * 16);
        assert(ea[0] == base64_of(b)[0] && ea[1] == base64_of(b)[1]);
        assert(a0 == c0) by (nonlinear_arith)
            requires
                0 <= a0 < 256,
                0 <= c0 < 256,
                a0 / 4 == c0 / 4,
                (a0 % 4) * 16 == (c0 % 4) * 16,
        ;
        assert(a =~= b);
    }
}

} // verus!
