//! Named binary tags, carried as validated byte blobs. A scanner walks a
//! tag's structure (type byte, big-endian name length and name, then a
//! payload whose shape the type decides, compounds and lists nesting further
//! tags) to learn exactly where it ends; the bytes themselves are kept as
//! they came.
use vstd::prelude::*;
use crate::codec::{Codec, DeserializeErr, SpecResult, read_matches};
use crate::primitives::{from_be16, from_be32, take_bytes, lemma_take_concat};

verus! {

/// Payload bytes of the fixed-size tag types.
pub open spec fn fixed_payload_len(ty: u8) -> nat {
    if ty == 1 {
        1
    } else if ty == 2 {
        2
    } else if ty == 3 || ty == 5 {
        4
    } else {
        8
    }
}

/// Bytes per element of the array tag types.
pub open spec fn array_elem_len(ty: u8) -> nat {
    if ty == 7 {
        1
    } else if ty == 11 {
        4
    } else {
        8
    }
}

pub open spec fn be_i32_at(s: Seq<u8>, i: int) -> i32 {
    from_be32(s.subrange(i, i + 4)) as i32
}

pub open spec fn be_u16_at(s: Seq<u8>, i: int) -> u16 {
    from_be16(s.subrange(i, i + 2))
}

pub open spec fn add_len(k: nat, r: Result<nat, DeserializeErr>) -> Result<nat, DeserializeErr> {
    match r {
        Ok(n) => Ok(k + n),
        Err(e) => Err(e),
    }
}

/// How many bytes the payload of a tag of type `ty` takes at the front of `s`.
pub open spec fn nbt_payload_len(s: Seq<u8>, ty: u8) -> Result<nat, DeserializeErr>
    decreases s.len(), 2nat,
{
    if 1 <= ty <= 6 {
        if s.len() < fixed_payload_len(ty) {
            Err(DeserializeErr::Eof)
        } else {
            Ok(fixed_payload_len(ty))
        }
    } else if ty == 7 || ty == 11 || ty == 12 {
        if s.len() < 4 {
            Err(DeserializeErr::Eof)
        } else if be_i32_at(s, 0) < 0 {
            Err(DeserializeErr::NegativeLength(be_i32_at(s, 0) as i64))
        } else if s.len() < 4 + be_i32_at(s, 0) * array_elem_len(ty) {
            Err(DeserializeErr::Eof)
        } else {
            Ok((4 + be_i32_at(s, 0) * array_elem_len(ty)) as nat)
        }
    } else if ty == 8 {
        if s.len() < 2 {
            Err(DeserializeErr::Eof)
        } else if s.len() < 2 + be_u16_at(s, 0) {
            Err(DeserializeErr::Eof)
        } else {
            Ok((2 + be_u16_at(s, 0)) as nat)
        }
    } else if ty == 9 {
        if s.len() < 5 {
            Err(DeserializeErr::Eof)
        } else if be_i32_at(s, 1) < 0 {
            Err(DeserializeErr::NegativeLength(be_i32_at(s, 1) as i64))
        } else {
            add_len(5, nbt_list_len(s.skip(5), s[0], be_i32_at(s, 1) as nat))
        }
    } else if ty == 10 {
        nbt_compound_len(s)
    } else {
        Err(DeserializeErr::UnknownTag(ty as i64))
    }
}

/// How many bytes `n` payloads of type `ty`, one after the other, take.
pub open spec fn nbt_list_len(s: Seq<u8>, ty: u8, n: nat) -> Result<nat, DeserializeErr>
    decreases s.len(), 3nat, n,
{
    if n == 0 {
        Ok(0)
    } else {
        match nbt_payload_len(s, ty) {
            Err(e) => Err(e),
            Ok(k) => if k == 0 || k > s.len() {
                Err(DeserializeErr::Eof)
            } else {
                add_len(k, nbt_list_len(s.skip(k as int), ty, (n - 1) as nat))
            },
        }
    }
}

/// How many bytes a named tag's header (type, name length, name) takes.
pub open spec fn nbt_header_len(s: Seq<u8>) -> Result<nat, DeserializeErr> {
    if s.len() < 3 {
        Err(DeserializeErr::Eof)
    } else if s.len() < 3 + be_u16_at(s, 1) {
        Err(DeserializeErr::Eof)
    } else {
        Ok((3 + be_u16_at(s, 1)) as nat)
    }
}

/// How many bytes the entries of a compound take, up to and including the
/// end tag.
pub open spec fn nbt_compound_len(s: Seq<u8>) -> Result<nat, DeserializeErr>
    decreases s.len(), 1nat,
{
    if s.len() == 0 {
        Err(DeserializeErr::Eof)
    } else if s[0] == 0 {
        Ok(1)
    } else {
        match nbt_header_len(s) {
            Err(e) => Err(e),
            Ok(h) => match nbt_payload_len(s.skip(h as int), s[0]) {
                Err(e) => Err(e),
                Ok(k) => if h + k > s.len() {
                    Err(DeserializeErr::Eof)
                } else {
                    add_len(h + k, nbt_compound_len(s.skip((h + k) as int)))
                },
            },
        }
    }
}

/// How many bytes one named tag takes; a lone end tag is not one.
pub open spec fn nbt_named_len(s: Seq<u8>) -> Result<nat, DeserializeErr> {
    if s.len() == 0 {
        Err(DeserializeErr::Eof)
    } else if s[0] == 0 {
        Err(DeserializeErr::UnknownTag(0))
    } else {
        match nbt_header_len(s) {
            Err(e) => Err(e),
            Ok(h) => add_len(h, nbt_payload_len(s.skip(h as int), s[0])),
        }
    }
}

/// `s` and `t` hold the same first `n` bytes.
pub open spec fn agree(s: Seq<u8>, t: Seq<u8>, n: nat) -> bool {
    &&& n <= s.len()
    &&& n <= t.len()
    &&& forall|i: int| 0 <= i < n ==> s[i] == t[i]
}

proof fn lemma_agree_skip(s: Seq<u8>, t: Seq<u8>, n: nat, a: nat, k: nat)
    requires
        agree(s, t, n),
        a + k <= n,
    ensures
        agree(s.skip(a as int), t.skip(a as int), k),
{
    assert forall|i: int| 0 <= i < k implies s.skip(a as int)[i] == t.skip(a as int)[i] by {
        assert(s[a + i] == t[a + i]);
    }
}

proof fn lemma_agree_fields(s: Seq<u8>, t: Seq<u8>, n: nat)
    requires
        agree(s, t, n),
    ensures
        n >= 1 ==> s[0] == t[0],
        n >= 2 ==> be_u16_at(s, 0) == be_u16_at(t, 0),
        n >= 3 ==> be_u16_at(s, 1) == be_u16_at(t, 1),
        n >= 4 ==> be_i32_at(s, 0) == be_i32_at(t, 0),
        n >= 5 ==> be_i32_at(s, 1) == be_i32_at(t, 1),
{
    if n >= 2 {
        assert(s.subrange(0, 2) =~= t.subrange(0, 2));
    }
    if n >= 3 {
        assert(s.subrange(1, 3) =~= t.subrange(1, 3));
    }
    if n >= 4 {
        assert(s.subrange(0, 4) =~= t.subrange(0, 4));
    }
    if n >= 5 {
        assert(s.subrange(1, 5) =~= t.subrange(1, 5));
    }
}

/// A scan reads only the bytes it claims: any input that starts with them
/// scans the same.
proof fn lemma_payload_prefix(s: Seq<u8>, t: Seq<u8>, ty: u8)
    requires
        nbt_payload_len(s, ty) matches Ok(n) && agree(s, t, n),
    ensures
        nbt_payload_len(t, ty) == nbt_payload_len(s, ty),
    decreases s.len(), 2nat,
{
    let n = nbt_payload_len(s, ty)->Ok_0;
    lemma_agree_fields(s, t, n);
    if ty == 9 {
        let m = nbt_list_len(s.skip(5), s[0], be_i32_at(s, 1) as nat)->Ok_0;
        lemma_agree_skip(s, t, n, 5, m);
        lemma_list_prefix(s.skip(5), t.skip(5), s[0], be_i32_at(s, 1) as nat);
    } else if ty == 10 {
        lemma_compound_prefix(s, t);
    }
}

proof fn lemma_list_prefix(s: Seq<u8>, t: Seq<u8>, ty: u8, n: nat)
    requires
        nbt_list_len(s, ty, n) matches Ok(m) && agree(s, t, m),
    ensures
        nbt_list_len(t, ty, n) == nbt_list_len(s, ty, n),
    decreases s.len(), 3nat, n,
{
    if n > 0 {
        let m = nbt_list_len(s, ty, n)->Ok_0;
        let k = nbt_payload_len(s, ty)->Ok_0;
        let m2 = nbt_list_len(s.skip(k as int), ty, (n - 1) as nat)->Ok_0;
        lemma_agree_skip(s, t, m, 0, k);
        assert(s.skip(0) =~= s);
        assert(t.skip(0) =~= t);
        lemma_payload_prefix(s, t, ty);
        lemma_agree_skip(s, t, m, k, m2);
        lemma_list_prefix(s.skip(k as int), t.skip(k as int), ty, (n - 1) as nat);
    }
}

proof fn lemma_compound_prefix(s: Seq<u8>, t: Seq<u8>)
    requires
        nbt_compound_len(s) matches Ok(m) && agree(s, t, m),
    ensures
        nbt_compound_len(t) == nbt_compound_len(s),
    decreases s.len(), 1nat,
{
    let m = nbt_compound_len(s)->Ok_0;
    lemma_agree_fields(s, t, m);
    if s[0] != 0 {
        let h = nbt_header_len(s)->Ok_0;
        let k = nbt_payload_len(s.skip(h as int), s[0])->Ok_0;
        let m2 = nbt_compound_len(s.skip((h + k) as int))->Ok_0;
        assert(nbt_header_len(t) == nbt_header_len(s));
        lemma_agree_skip(s, t, m, h, k);
        lemma_payload_prefix(s.skip(h as int), t.skip(h as int), s[0]);
        lemma_agree_skip(s, t, m, h + k, m2);
        lemma_compound_prefix(s.skip((h + k) as int), t.skip((h + k) as int));
    }
}

/// A complete named tag followed by anything scans as the tag alone.
pub proof fn lemma_named_prefix(m: Seq<u8>, rest: Seq<u8>)
    requires
        nbt_named_len(m) == Ok::<nat, DeserializeErr>(m.len()),
    ensures
        nbt_named_len(m + rest) == Ok::<nat, DeserializeErr>(m.len()),
{
    let t = m + rest;
    assert(agree(m, t, m.len()));
    lemma_agree_fields(m, t, m.len());
    let h = nbt_header_len(m)->Ok_0;
    assert(nbt_header_len(t) == nbt_header_len(m));
    let k = nbt_payload_len(m.skip(h as int), m[0])->Ok_0;
    lemma_agree_skip(m, t, m.len(), h, k);
    lemma_payload_prefix(m.skip(h as int), t.skip(h as int), m[0]);
}

fn be_i32_at_exec(data: &[u8], i: usize) -> (r: i32)
    requires
        i + 4 <= data@.len(),
    ensures
        r == be_i32_at(data@, i as int),
{
    let ghost sub = data@.subrange(i as int, i + 4);
    assert(sub[0] == data@[i as int] && sub[1] == data@[i + 1] && sub[2] == data@[i + 2] && sub[3]
        == data@[i + 3]);
    (((data[i] as u32) << 24) | ((data[i + 1] as u32) << 16) | ((data[i + 2] as u32) << 8) | (data[i
        + 3] as u32)) as i32
}

fn be_u16_at_exec(data: &[u8], i: usize) -> (r: u16)
    requires
        i + 2 <= data@.len(),
    ensures
        r == be_u16_at(data@, i as int),
{
    let ghost sub = data@.subrange(i as int, i + 2);
    assert(sub[0] == data@[i as int] && sub[1] == data@[i + 1]);
    ((data[i] as u16) << 8) | (data[i + 1] as u16)
}

fn suffix(data: &[u8], k: usize) -> (r: &[u8])
    requires
        k <= data@.len(),
    ensures
        r@ == data@.skip(k as int),
{
    let r = &data[k..data.len()];
    assert(r@ =~= data@.skip(k as int));
    r
}

/// Scans the payload of a tag of type `ty`.
fn scan_payload(data: &[u8], ty: u8) -> (r: Result<usize, DeserializeErr>)
    ensures
        match r {
            Ok(n) => nbt_payload_len(data@, ty) == Ok::<nat, DeserializeErr>(n as nat) && n
                <= data@.len(),
            Err(e) => nbt_payload_len(data@, ty) == Err::<nat, DeserializeErr>(e),
        },
    decreases data@.len(), 2nat,
{
    if 1 <= ty && ty <= 6 {
        let n: usize = if ty == 1 {
            1
        } else if ty == 2 {
            2
        } else if ty == 3 || ty == 5 {
            4
        } else {
            8
        };
        if data.len() < n {
            Err(DeserializeErr::Eof)
        } else {
            Ok(n)
        }
    } else if ty == 7 || ty == 11 || ty == 12 {
        if data.len() < 4 {
            return Err(DeserializeErr::Eof);
        }
        let c = be_i32_at_exec(data, 0);
        if c < 0 {
            return Err(DeserializeErr::NegativeLength(c as i64));
        }
        let w: u64 = if ty == 7 {
            1
        } else if ty == 11 {
            4
        } else {
            8
        };
        assert(c as u64 * w <= 0x4_0000_0000) by (nonlinear_arith)
            requires
                0 <= c <= i32::MAX,
                w <= 8,
        ;
        let total: u64 = 4 + (c as u64) * w;
        if (data.len() as u64) < total {
            Err(DeserializeErr::Eof)
        } else {
            Ok(total as usize)
        }
    } else if ty == 8 {
        if data.len() < 2 {
            return Err(DeserializeErr::Eof);
        }
        let n = be_u16_at_exec(data, 0) as usize;
        if data.len() < 2 + n {
            Err(DeserializeErr::Eof)
        } else {
            Ok(2 + n)
        }
    } else if ty == 9 {
        if data.len() < 5 {
            return Err(DeserializeErr::Eof);
        }
        let c = be_i32_at_exec(data, 1);
        if c < 0 {
            return Err(DeserializeErr::NegativeLength(c as i64));
        }
        let n = scan_list(suffix(data, 5), data[0], c as usize)?;
        Ok(5 + n)
    } else if ty == 10 {
        scan_compound(data)
    } else {
        Err(DeserializeErr::UnknownTag(ty as i64))
    }
}

/// Scans `n` payloads of type `ty`, one after the other.
fn scan_list(data: &[u8], ty: u8, n: usize) -> (r: Result<usize, DeserializeErr>)
    ensures
        match r {
            Ok(m) => nbt_list_len(data@, ty, n as nat) == Ok::<nat, DeserializeErr>(m as nat) && m
                <= data@.len(),
            Err(e) => nbt_list_len(data@, ty, n as nat) == Err::<nat, DeserializeErr>(e),
        },
    decreases data@.len(), 3nat, n,
{
    let data_len = data.len();
    let mut cur = data;
    let mut total: usize = 0;
    let mut i: usize = 0;
    assert(data@.skip(0) =~= data@);
    while i < n
        invariant
            i <= n,
            total <= data@.len(),
            cur@ == data@.skip(total as int),
            cur@.len() == data@.len() - total,
            data@.len() == data_len,
            nbt_list_len(data@, ty, n as nat) == add_len(
                total as nat,
                nbt_list_len(cur@, ty, (n - i) as nat),
            ),
        decreases n - i,
    {
        let k = scan_payload(cur, ty)?;
        if k == 0 || k > cur.len() {
            return Err(DeserializeErr::Eof);
        }
        assert(data@.skip(total as int).skip(k as int) =~= data@.skip(total + k));
        cur = suffix(cur, k);
        total = total + k;
        i = i + 1;
    }
    Ok(total)
}

/// Scans the entries of a compound through its end tag.
fn scan_compound(data: &[u8]) -> (r: Result<usize, DeserializeErr>)
    ensures
        match r {
            Ok(m) => nbt_compound_len(data@) == Ok::<nat, DeserializeErr>(m as nat) && m
                <= data@.len(),
            Err(e) => nbt_compound_len(data@) == Err::<nat, DeserializeErr>(e),
        },
    decreases data@.len(), 1nat,
{
    let data_len = data.len();
    let mut cur = data;
    let mut total: usize = 0;
    assert(data@.skip(0) =~= data@);
    loop
        invariant
            total <= data@.len(),
            cur@ == data@.skip(total as int),
            cur@.len() == data@.len() - total,
            data@.len() == data_len,
            nbt_compound_len(data@) == add_len(total as nat, nbt_compound_len(cur@)),
        decreases cur@.len(),
    {
        if cur.len() == 0 {
            return Err(DeserializeErr::Eof);
        }
        if cur[0] == 0 {
            return Ok(total + 1);
        }
        if cur.len() < 3 {
            return Err(DeserializeErr::Eof);
        }
        let name_len = be_u16_at_exec(cur, 1) as usize;
        if cur.len() < 3 + name_len {
            return Err(DeserializeErr::Eof);
        }
        let h = 3 + name_len;
        let k = scan_payload(suffix(cur, h), cur[0])?;
        if h + k > cur.len() {
            return Err(DeserializeErr::Eof);
        }
        assert(data@.skip(total as int).skip((h + k) as int) =~= data@.skip(total + h + k));
        cur = suffix(cur, h + k);
        total = total + h + k;
    }
}

/// Scans one named tag.
fn scan_named(data: &[u8]) -> (r: Result<usize, DeserializeErr>)
    ensures
        match r {
            Ok(m) => nbt_named_len(data@) == Ok::<nat, DeserializeErr>(m as nat) && m <= data@.len(),
            Err(e) => nbt_named_len(data@) == Err::<nat, DeserializeErr>(e),
        },
{
    if data.len() == 0 {
        return Err(DeserializeErr::Eof);
    }
    if data[0] == 0 {
        return Err(DeserializeErr::UnknownTag(0));
    }
    if data.len() < 3 {
        return Err(DeserializeErr::Eof);
    }
    let name_len = be_u16_at_exec(data, 1) as usize;
    if data.len() < 3 + name_len {
        return Err(DeserializeErr::Eof);
    }
    let h = 3 + name_len;
    let k = scan_payload(suffix(data, h), data[0])?;
    Ok(h + k)
}

/// One named tag, kept as its bytes: its type, its name and its payload.
#[derive(Debug, Clone, PartialEq, Eq)]
pub struct NamedNbtTag {
    pub raw: Vec<u8>,
}

impl NamedNbtTag {
    /// Whether `raw` is exactly one well-formed named tag.
    pub open spec fn spec_well_formed(raw: Seq<u8>) -> bool {
        nbt_named_len(raw) == Ok::<nat, DeserializeErr>(raw.len())
    }

    /// Takes bytes as a tag when they are exactly one well-formed named tag.
    pub fn from_bytes(raw: Vec<u8>) -> (r: Option<NamedNbtTag>)
        ensures
            r is Some <==> Self::spec_well_formed(raw@),
            r matches Some(t) ==> t.raw@ == raw@,
    {
        match scan_named(raw.as_slice()) {
            Ok(n) => if n == raw.len() {
                Some(NamedNbtTag { raw })
            } else {
                None
            },
            Err(_) => None,
        }
    }
}

impl Codec for NamedNbtTag {
    type Model = Seq<u8>;

    open spec fn model(&self) -> Seq<u8> {
        self.raw@
    }

    open spec fn encodable(m: Seq<u8>) -> bool {
        true
    }

    open spec fn legal(m: Seq<u8>) -> bool {
        Self::spec_well_formed(m)
    }

    open spec fn spec_serialize(m: Seq<u8>) -> Seq<u8> {
        m
    }

    open spec fn spec_deserialize(s: Seq<u8>) -> SpecResult<Seq<u8>> {
        match nbt_named_len(s) {
            Ok(n) => Ok((s.take(n as int), s.skip(n as int))),
            Err(e) => Err(e),
        }
    }

    proof fn lemma_round_trip(m: Seq<u8>, rest: Seq<u8>) {
        lemma_named_prefix(m, rest);
        assert((m + rest).take(m.len() as int) =~= m);
        assert((m + rest).skip(m.len() as int) =~= rest);
    }

    fn mc_serialize(&self, to: &mut Vec<u8>) {
        let ghost start = to@;
        to.extend_from_slice(self.raw.as_slice());
        assert(to@ =~= start + self.raw@);
    }

    fn mc_deserialize(data: &[u8]) -> (r: Result<(Self, &[u8]), DeserializeErr>) {
        let n = scan_named(data)?;
        let (head, rest) = take_bytes(data, n)?;
        Ok((NamedNbtTag { raw: vstd::slice::slice_to_vec(head) }, rest))
    }
}

} // verus!
