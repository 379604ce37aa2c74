//! The SCALE encoding of the primitive values that messages are made of.
use vstd::prelude::*;

verus! {

/// The greatest length that a SCALE length prefix can hold.
pub const MAX_LEN: usize = 0xffff_ffff;

/// The four bytes of `n`, least significant first.
pub open spec fn le32(n: int) -> Seq<u8> {
    seq![
        (n % 256) as u8,
        (n / 256 % 256) as u8,
        (n / 65536 % 256) as u8,
        (n / 16777216 % 256) as u8,
    ]
}

/// The eight bytes of `n`, least significant first.
pub open spec fn le64(n: int) -> Seq<u8> {
    le32(n % 4294967296) + le32(n / 4294967296)
}

/// The byte of a truth value, which is also the tag of an optional value.
pub open spec fn flag(b: bool) -> Seq<u8> {
    seq![if b { 1u8 } else { 0u8 }]
}

/// The compact form of `n`: the two low bits of the first byte tell how many bytes there are.
pub open spec fn compact(n: int) -> Seq<u8> {
    if n < 64 {
        seq![(n * 4) as u8]
    } else if n < 16384 {
        seq![((n * 4 + 1) % 256) as u8, ((n * 4 + 1) / 256) as u8]
    } else if n < 1073741824 {
        le32(n * 4 + 2)
    } else {
        seq![3u8] + le32(n)
    }
}

/// A byte string behind its compact length.
pub open spec fn sized(data: Seq<u8>) -> Seq<u8> {
    compact(data.len() as int) + data
}

/// `parity_scale_codec::Compact::<u32>::encode`: the compact form of a 32-bit number.
#[verifier::external_body]
pub(crate) fn encode_compact(n: u32) -> (r: Vec<u8>)
    ensures
        r@ == compact(n as int),
{
    parity_scale_codec::Encode::encode(&parity_scale_codec::Compact(n))
}

/// `<u32 as parity_scale_codec::Encode>::encode`: the four bytes, least significant first.
#[verifier::external_body]
pub(crate) fn encode_u32(n: u32) -> (r: Vec<u8>)
    ensures
        r@ == le32(n as int),
{
    parity_scale_codec::Encode::encode(&n)
}

/// `<u64 as parity_scale_codec::Encode>::encode`: the eight bytes, least significant first.
#[verifier::external_body]
pub(crate) fn encode_u64(n: u64) -> (r: Vec<u8>)
    ensures
        r@ == le64(n as int),
{
    parity_scale_codec::Encode::encode(&n)
}

/// `<bool as parity_scale_codec::Encode>::encode`: one byte, 1 for true and 0 for false.
#[verifier::external_body]
pub(crate) fn encode_bool(b: bool) -> (r: Vec<u8>)
    ensures
        r@ == flag(b),
{
    parity_scale_codec::Encode::encode(&b)
}

/// The bytes of a present value made of a variant index and three byte strings.
pub open spec fn some_triple(index: u8, a: Seq<u8>, b: Seq<u8>, c: Seq<u8>) -> Seq<u8> {
    seq![1u8, index] + sized(a) + sized(b) + sized(c)
}

/// `some_triple` of these parts begins `bytes`, and each part has an encodable length.
pub open spec fn begins_with_triple(
    bytes: Seq<u8>,
    index: u8,
    a: Seq<u8>,
    b: Seq<u8>,
    c: Seq<u8>,
) -> bool {
    &&& a.len() <= MAX_LEN
    &&& b.len() <= MAX_LEN
    &&& c.len() <= MAX_LEN
    &&& some_triple(index, a, b, c).is_prefix_of(bytes)
}

/// `<Option<(u8, Vec<u8>, Vec<u8>, Vec<u8>)> as parity_scale_codec::Decode>::decode` on the
/// start of `bytes`; what follows the value is not looked at. A leading 0 is the absent value.
/// A present value comes out just where its encoding begins `bytes`: the decoder accepts a
/// length in its shortest form only. `None` means that the bytes begin with neither.
#[verifier::external_body]
pub(crate) fn decode_optional_triple(bytes: &[u8]) -> (r: Option<
    Option<(u8, Vec<u8>, Vec<u8>, Vec<u8>)>,
>)
    ensures
        match r {
            Some(None) => bytes@.len() > 0 && bytes@[0] == 0,
            Some(Some(t)) => begins_with_triple(bytes@, t.0, t.1@, t.2@, t.3@),
            None => {
                &&& !(bytes@.len() > 0 && bytes@[0] == 0)
                &&& forall|index: u8, a: Seq<u8>, b: Seq<u8>, c: Seq<u8>|
                    !#[trigger] begins_with_triple(bytes@, index, a, b, c)
            },
        },
{
    parity_scale_codec::Decode::decode(&mut &bytes[..]).ok()
}

/// Appends `part` to `out`.
pub(crate) fn put(out: &mut Vec<u8>, part: &[u8])
    ensures
        final(out)@ == old(out)@ + part@,
{
    let ghost before = out@;
    out.extend_from_slice(part);
    assert(out@ =~= before + part@);
}

/// Appends the byte string `data` behind its compact length.
pub(crate) fn put_sized(out: &mut Vec<u8>, data: &[u8])
    requires
        data@.len() <= MAX_LEN,
    ensures
        final(out)@ == old(out)@ + sized(data@),
{
    let ghost before = out@;
    let len: u32 = data.len() as u32;
    put(out, encode_compact(len).as_slice());
    put(out, data);
    assert(out@ =~= before + sized(data@));
}

/// The number that four bytes stand for, least significant first.
pub open spec fn value32(b: Seq<u8>) -> int {
    b[0] + 256 * b[1] + 65536 * b[2] + 16777216 * b[3]
}

/// The bytes of a 32-bit number give the number back.
pub proof fn lemma_le32_value(n: int)
    requires
        0 <= n <= u32::MAX,
    ensures
        value32(le32(n)) == n,
{
    let q1 = n / 256;
    let q2 = q1 / 256;
    let q3 = q2 / 256;
    assert(n / 65536 == q2);
    assert(n / 16777216 == q3);
    assert(n == 256 * q1 + n % 256);
    assert(q1 == 256 * q2 + q1 % 256);
    assert(q2 == 256 * q3 + q2 % 256);
    assert(0 <= q3 < 256);
}

/// The bytes of a 64-bit number determine the number.
pub proof fn lemma_le64_injective(m: int, n: int)
    requires
        0 <= m <= u64::MAX,
        0 <= n <= u64::MAX,
        le64(m) == le64(n),
    ensures
        m == n,
{
    let x = le64(m);
    assert(le32(m % 4294967296) =~= x.subrange(0, 4));
    assert(le32(n % 4294967296) =~= x.subrange(0, 4));
    assert(le32(m / 4294967296) =~= x.subrange(4, 8));
    assert(le32(n / 4294967296) =~= x.subrange(4, 8));
    lemma_le32_value(m % 4294967296);
    lemma_le32_value(n % 4294967296);
    lemma_le32_value(m / 4294967296);
    lemma_le32_value(n / 4294967296);
}

/// How many bytes follow the first byte of a compact form.
spec fn compact_class(n: int) -> int {
    if n < 64 {
        0
    } else if n < 16384 {
        1
    } else if n < 1073741824 {
        2
    } else {
        3
    }
}

proof fn lemma_compact_class(n: int)
    requires
        0 <= n <= u32::MAX,
    ensures
        compact(n).len() > 0,
        compact(n)[0] as int % 4 == compact_class(n),
{
    let x = n * 4 + 2;
    assert(x % 256 % 4 == 2) by (nonlinear_arith)
        requires
            x == n * 4 + 2,
    ;
    let y = n * 4 + 1;
    assert(y % 256 % 4 == 1) by (nonlinear_arith)
        requires
            y == n * 4 + 1,
    ;
}

/// Two numbers whose compact forms both begin `bytes` are equal.
pub proof fn lemma_compact_unique(bytes: Seq<u8>, m: int, n: int)
    requires
        0 <= m <= u32::MAX,
        0 <= n <= u32::MAX,
        compact(m).is_prefix_of(bytes),
        compact(n).is_prefix_of(bytes),
    ensures
        m == n,
{
    let a = compact(m);
    let b = compact(n);
    lemma_compact_class(m);
    lemma_compact_class(n);
    assert(a[0] == bytes[0] && b[0] == bytes[0]);
    assert(a.len() == b.len());
    assert(a =~= b) by {
        assert forall|i: int| 0 <= i < a.len() implies a[i] == b[i] by {
            assert(a[i] == bytes[i] && b[i] == bytes[i]);
        }
    }
    if 16384 <= m < 1073741824 {
        lemma_le32_value(m * 4 + 2);
        lemma_le32_value(n * 4 + 2);
    } else if 1073741824 <= m {
        assert(le32(m) =~= a.subrange(1, 5));
        assert(le32(n) =~= b.subrange(1, 5));
        lemma_le32_value(m);
        lemma_le32_value(n);
    }
}

/// Two byte strings whose sized forms both begin `bytes` are equal.
pub proof fn lemma_sized_unique(bytes: Seq<u8>, a: Seq<u8>, b: Seq<u8>)
    requires
        a.len() <= MAX_LEN,
        b.len() <= MAX_LEN,
        sized(a).is_prefix_of(bytes),
        sized(b).is_prefix_of(bytes),
    ensures
        a == b,
{
    let m = a.len() as int;
    let n = b.len() as int;
    assert(compact(m).is_prefix_of(bytes)) by {
        assert(compact(m) =~= sized(a).take(compact(m).len() as int));
        assert(compact(m) =~= bytes.take(compact(m).len() as int));
    }
    assert(compact(n).is_prefix_of(bytes)) by {
        assert(compact(n) =~= sized(b).take(compact(n).len() as int));
        assert(compact(n) =~= bytes.take(compact(n).len() as int));
    }
    lemma_compact_unique(bytes, m, n);
    assert(sized(a) =~= sized(b)) by {
        assert forall|i: int| 0 <= i < sized(a).len() implies sized(a)[i] == sized(b)[i] by {
            assert(sized(a)[i] == bytes[i] && sized(b)[i] == bytes[i]);
        }
    }
    assert(a =~= sized(a).skip(compact(m).len() as int));
    assert(b =~= sized(b).skip(compact(n).len() as int));
}

/// What stands in the middle of a beginning of `bytes` begins what follows its front.
pub proof fn lemma_middle_begins(bytes: Seq<u8>, head: Seq<u8>, mid: Seq<u8>, tail: Seq<u8>)
    requires
        (head + mid + tail).is_prefix_of(bytes),
    ensures
        mid.is_prefix_of(bytes.skip(head.len() as int)),
{
    let all = head + mid + tail;
    let rest = bytes.skip(head.len() as int);
    assert forall|k: int| 0 <= k < mid.len() implies mid[k] == rest[k] by {
        assert(all[head.len() + k] == mid[k]);
        assert(all[head.len() + k] == bytes.subrange(0, all.len() as int)[head.len() + k]);
    }
}

/// The parts of a present value are determined by any bytes that begin with it.
pub proof fn lemma_triple_unique(
    bytes: Seq<u8>,
    i: u8,
    a: Seq<u8>,
    b: Seq<u8>,
    c: Seq<u8>,
    j: u8,
    d: Seq<u8>,
    e: Seq<u8>,
    f: Seq<u8>,
)
    requires
        begins_with_triple(bytes, i, a, b, c),
        begins_with_triple(bytes, j, d, e, f),
    ensures
        i == j && a == d && b == e && c == f,
{
    let x = some_triple(i, a, b, c);
    let y = some_triple(j, d, e, f);
    let none = Seq::<u8>::empty();
    assert(i == x[1] && x[1] == bytes[1]);
    assert(j == y[1] && y[1] == bytes[1]);
    let head = seq![1u8, i];
    assert(x =~= head + sized(a) + (sized(b) + sized(c)));
    assert(y =~= head + sized(d) + (sized(e) + sized(f)));
    lemma_middle_begins(bytes, head, sized(a), sized(b) + sized(c));
    lemma_middle_begins(bytes, head, sized(d), sized(e) + sized(f));
    lemma_sized_unique(bytes.skip(head.len() as int), a, d);
    lemma_middle_begins(bytes, head + sized(a), sized(b), sized(c));
    lemma_middle_begins(bytes, head + sized(a), sized(e), sized(f));
    lemma_sized_unique(bytes.skip((head + sized(a)).len() as int), b, e);
    let front = head + sized(a) + sized(b);
    assert(x =~= front + sized(c) + none);
    assert(y =~= front + sized(f) + none);
    lemma_middle_begins(bytes, front, sized(c), none);
    lemma_middle_begins(bytes, front, sized(f), none);
    lemma_sized_unique(bytes.skip(front.len() as int), c, f);
}

} // verus!
