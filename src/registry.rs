//! Typed registry values decoded from their raw type code and data.
use vstd::prelude::*;
use crate::error::VmmError;
use crate::records::{hex_text, push_hex};

verus! {

pub const REG_NONE: u32 = 0;
pub const REG_SZ: u32 = 1;
pub const REG_EXPAND_SZ: u32 = 2;
pub const REG_BINARY: u32 = 3;
pub const REG_DWORD: u32 = 4;
pub const REG_DWORD_BIG_ENDIAN: u32 = 5;
pub const REG_LINK: u32 = 6;
pub const REG_MULTI_SZ: u32 = 7;
pub const REG_RESOURCE_LIST: u32 = 8;
pub const REG_FULL_RESOURCE_DESCRIPTOR: u32 = 9;
pub const REG_RESOURCE_REQUIREMENTS_LIST: u32 = 10;
pub const REG_QWORD: u32 = 11;

/// A registry value, typed.
#[allow(non_camel_case_types)]
#[derive(Debug, Clone)]
pub enum VmmRegValueType {
    REG_NONE,
    REG_SZ(String),
    REG_EXPAND_SZ(String),
    REG_BINARY(Vec<u8>),
    REG_DWORD(u32),
    REG_DWORD_BIG_ENDIAN(u32),
    REG_LINK(String),
    REG_MULTI_SZ(Vec<String>),
    REG_RESOURCE_LIST(Vec<u8>),
    REG_FULL_RESOURCE_DESCRIPTOR(Vec<u8>),
    REG_RESOURCE_REQUIREMENTS_LIST(Vec<u8>),
    REG_QWORD(u64),
}

/// Little-endian 32-bit integer of four bytes.
pub open spec fn le_u32(b: Seq<u8>) -> u32 {
    (b[0] + b[1] * 0x100 + b[2] * 0x10000 + b[3] * 0x1000000) as u32
}

/// Big-endian 32-bit integer of four bytes.
pub open spec fn be_u32(b: Seq<u8>) -> u32 {
    (b[3] + b[2] * 0x100 + b[1] * 0x10000 + b[0] * 0x1000000) as u32
}

/// Little-endian 64-bit integer of eight bytes.
pub open spec fn le_u64(b: Seq<u8>) -> u64 {
    (le_u32(b.subrange(0, 4)) + le_u32(b.subrange(4, 8)) * 0x100000000) as u64
}

/// The little-endian UTF-16 code units of `b` (a trailing odd byte is ignored).
pub open spec fn utf16_units(b: Seq<u8>) -> Seq<u16> {
    Seq::new(b.len() / 2, |i: int| (b[2 * i] + b[2 * i + 1] * 0x100) as u16)
}

/// Index of the first zero unit of `u`, or its length if there is none.
pub open spec fn first_zero(u: Seq<u16>) -> int
    decreases u.len(),
{
    if u.len() == 0 {
        0
    } else if u[0] == 0 {
        0
    } else {
        1 + first_zero(u.drop_first())
    }
}

/// The units before the first zero.
pub open spec fn first_piece(u: Seq<u16>) -> Seq<u16> {
    u.subrange(0, first_zero(u))
}

/// Splitting `u` at its zero units, read left to right: the pieces closed so
/// far that are not empty, and the piece being read.
pub open spec fn split_state(u: Seq<u16>) -> (Seq<Seq<u16>>, Seq<u16>)
    decreases u.len(),
{
    if u.len() == 0 {
        (Seq::empty(), Seq::empty())
    } else {
        let (done, cur) = split_state(u.drop_last());
        if u.last() == 0 {
            (if cur.len() > 0 { done.push(cur) } else { done }, Seq::empty())
        } else {
            (done, cur.push(u.last()))
        }
    }
}

/// The non-empty pieces of `u` between its zero units, in order.
pub open spec fn nonempty_pieces(u: Seq<u16>) -> Seq<Seq<u16>> {
    let (done, cur) = split_state(u);
    if cur.len() > 0 {
        done.push(cur)
    } else {
        done
    }
}

/// The text of the UTF-16 code units `u`: a unit outside the surrogate range
/// is its own character, a leading surrogate followed by a trailing one is
/// the character they encode together, and every other surrogate becomes
/// U+FFFD.
pub open spec fn utf16_lossy(u: Seq<u16>) -> Seq<char>
    decreases u.len(),
{
    if u.len() == 0 {
        seq![]
    } else if u[0] < 0xD800 || u[0] > 0xDFFF {
        seq![u[0] as u32 as char] + utf16_lossy(u.drop_first())
    } else if u[0] <= 0xDBFF && u.len() >= 2 && 0xDC00 <= u[1] <= 0xDFFF {
        seq![(0x10000 + (u[0] - 0xD800) * 0x400 + (u[1] - 0xDC00)) as u32 as char] + utf16_lossy(
            u.subrange(2, u.len() as int),
        )
    } else {
        seq!['\u{FFFD}'] + utf16_lossy(u.drop_first())
    }
}

/// Relies on `String::from_utf16_lossy`: decodes `u` as UTF-16 the way
/// `char::decode_utf16` does, each unpaired surrogate replaced by U+FFFD.
#[verifier::external_body]
fn decode_utf16_lossy(u: &[u16]) -> (r: String)
    ensures
        r@ == utf16_lossy(u@),
{
    String::from_utf16_lossy(u)
}

/// The registry type code `t` is one this library knows.
pub open spec fn known_type(t: u32) -> bool {
    t <= REG_QWORD
}

/// A value of type `t` is decoded from its data; only `REG_NONE` and unknown
/// types are decided without it.
pub fn reg_type_needs_data(t: u32) -> (r: bool)
    ensures
        r == (t != REG_NONE && known_type(t)),
{
    t != REG_NONE && t <= REG_QWORD
}

/// A string value's text: the data's UTF-16 units up to the first zero.
pub open spec fn sz_text(b: Seq<u8>) -> Seq<char> {
    utf16_lossy(first_piece(utf16_units(b)))
}

proof fn lemma_first_zero(u: Seq<u16>, i: int)
    requires
        0 <= i <= u.len(),
        forall|j: int| 0 <= j < i ==> u[j] != 0,
        i == u.len() || u[i] == 0,
    ensures
        first_zero(u) == i,
    decreases i,
{
    if i > 0 {
        lemma_first_zero(u.drop_first(), i - 1);
    }
}

/// Decodes little-endian UTF-16 units.
fn units_of(b: &Vec<u8>) -> (r: Vec<u16>)
    ensures
        r@ == utf16_units(b@),
{
    let n = b.len() / 2;
    let mut r: Vec<u16> = Vec::new();
    let mut i: usize = 0;
    while i < n
        invariant
            n == b@.len() / 2,
            i <= n,
            r@ == utf16_units(b@).subrange(0, i as int),
        decreases n - i,
    {
        assert(i + i + 1 < b.len());
        let j: usize = i + i;
        let lo = b[j] as u16;
        let hi = b[j + 1] as u16;
        r.push(lo + hi * 0x100);
        proof {
            assert(r@ =~= utf16_units(b@).subrange(0, i + 1));
        }
        i = i + 1;
    }
    assert(r@ =~= utf16_units(b@));
    r
}

/// Text of the units before the first zero.
fn first_text(u: &Vec<u16>) -> (r: String)
    ensures
        r@ == utf16_lossy(first_piece(u@)),
{
    let mut i: usize = 0;
    while i < u.len() && u[i] != 0
        invariant
            i <= u@.len(),
            forall|j: int| 0 <= j < i ==> u@[j] != 0,
        decreases u.len() - i,
    {
        i = i + 1;
    }
    proof {
        lemma_first_zero(u@, i as int);
    }
    let piece = vstd::slice::slice_subrange(u.as_slice(), 0, i);
    decode_utf16_lossy(piece)
}

/// Texts of the non-empty pieces between zero units.
fn multi_text(u: &Vec<u16>) -> (r: Vec<String>)
    ensures
        r@.map_values(|s: String| s@) == nonempty_pieces(u@).map_values(|p: Seq<u16>| utf16_lossy(p)),
{
    let mut done: Vec<String> = Vec::new();
    let mut cur: Vec<u16> = Vec::new();
    let mut i: usize = 0;
    while i < u.len()
        invariant
            i <= u@.len(),
            done@.map_values(|s: String| s@) == split_state(u@.subrange(0, i as int)).0.map_values(
                |p: Seq<u16>| utf16_lossy(p),
            ),
            cur@ == split_state(u@.subrange(0, i as int)).1,
        decreases u.len() - i,
    {
        let ghost pre = u@.subrange(0, i as int);
        let ghost next = u@.subrange(0, i + 1);
        assert(next.drop_last() =~= pre);
        assert(next.last() == u@[i as int]);
        if u[i] == 0 {
            if cur.len() > 0 {
                let s = decode_utf16_lossy(cur.as_slice());
                let ghost before = done@;
                done.push(s);
                proof {
                    assert(done@.map_values(|s: String| s@) =~= before.map_values(|s: String| s@).push(s@));
                    assert(split_state(pre).0.push(split_state(pre).1).map_values(|p: Seq<u16>| utf16_lossy(p))
                        =~= split_state(pre).0.map_values(|p: Seq<u16>| utf16_lossy(p)).push(utf16_lossy(split_state(pre).1)));
                }
            }
            cur = Vec::new();
        } else {
            cur.push(u[i]);
        }
        i = i + 1;
    }
    assert(u@.subrange(0, u@.len() as int) =~= u@);
    if cur.len() > 0 {
        let s = decode_utf16_lossy(cur.as_slice());
        let ghost before = done@;
        done.push(s);
        proof {
            let st = split_state(u@);
            assert(done@.map_values(|s: String| s@) =~= before.map_values(|s: String| s@).push(s@));
            assert(st.0.push(st.1).map_values(|p: Seq<u16>| utf16_lossy(p)) =~= st.0.map_values(
                |p: Seq<u16>| utf16_lossy(p),
            ).push(utf16_lossy(st.1)));
        }
    }
    done
}

/// Length of `p` once trailing `\` bytes are removed.
pub open spec fn trimmed_len(p: Seq<u8>) -> int
    decreases p.len(),
{
    if p.len() > 0 && p.last() == 0x5c {
        trimmed_len(p.drop_last())
    } else {
        p.len() as int
    }
}

/// Index of the last `\` among the first `n` bytes of `p`, if any.
pub open spec fn last_sep(p: Seq<u8>, n: int) -> Option<int>
    decreases n,
{
    if n <= 0 {
        None
    } else if p[n - 1] == 0x5c {
        Some(n - 1)
    } else {
        last_sep(p, n - 1)
    }
}

/// How a registry path splits into its parent and its last name: trailing
/// `\` are dropped, the split is at the last remaining `\`, and both parts
/// must be non-empty. The result is (split index, end of the name): the
/// parent is `p[..split]` and the name `p[split + 1..end]`.
pub open spec fn path_split(p: Seq<u8>) -> Option<(int, int)> {
    let e = trimmed_len(p);
    match last_sep(p, e) {
        Some(k) => if k > 0 && k + 1 < e { Some((k, e)) } else { None },
        None => None,
    }
}

proof fn lemma_trimmed_len_bounds(p: Seq<u8>)
    ensures
        0 <= trimmed_len(p) <= p.len(),
    decreases p.len(),
{
    if p.len() > 0 && p.last() == 0x5c {
        lemma_trimmed_len_bounds(p.drop_last());
        assert(p.drop_last().len() == p.len() - 1);
    }
}

/// Splits the registry path `p` (its bytes) into parent and name, as
/// `path_split` says; the split is at an ASCII byte, so both parts of a
/// UTF-8 path are UTF-8.
pub fn reg_path_split(p: &[u8]) -> (r: Option<(usize, usize)>)
    ensures
        r matches Some(x) ==> path_split(p@) == Some((x.0 as int, x.1 as int)),
        r is None ==> path_split(p@) is None,
{
    proof {
        lemma_trimmed_len_bounds(p@);
        assert(p@.subrange(0, p@.len() as int) =~= p@);
    }
    let mut e: usize = p.len();
    while e > 0 && p[e - 1] == 0x5c
        invariant
            e <= p@.len(),
            trimmed_len(p@.subrange(0, e as int)) == trimmed_len(p@),
        decreases e,
    {
        proof {
            let q = p@.subrange(0, e as int);
            assert(q.drop_last() =~= p@.subrange(0, e - 1));
        }
        e = e - 1;
    }
    proof {
        let q = p@.subrange(0, e as int);
        assert(!(q.len() > 0 && q.last() == 0x5c));
        assert(trimmed_len(q) == e);
    }
    let mut k: usize = e;
    while k > 0 && p[k - 1] != 0x5c
        invariant
            k <= e <= p@.len(),
            e == trimmed_len(p@),
            last_sep(p@, k as int) == last_sep(p@, e as int),
        decreases k,
    {
        k = k - 1;
    }
    if k == 0 {
        return None;
    }
    let split = k - 1;
    if split > 0 && split + 1 < e {
        Some((split, e))
    } else {
        None
    }
}

/// Copies a byte vector.
fn copy_data(b: &Vec<u8>) -> (r: Vec<u8>)
    ensures
        r@ == b@,
{
    vstd::slice::slice_to_vec(b.as_slice())
}

impl VmmRegValueType {
    /// Decodes a registry value of type code `raw_type` from its data.
    ///
    /// `REG_NONE` needs no data; unknown types are refused. Binary types
    /// keep the data; `REG_DWORD` and `REG_DWORD_BIG_ENDIAN` need exactly
    /// four bytes and `REG_QWORD` eight; string types need an even number
    /// of bytes, read as little-endian UTF-16: `REG_MULTI_SZ` gives every
    /// non-empty zero-terminated string, the others the text before the
    /// first zero unit.
    pub fn decode(raw_type: u32, raw: &Vec<u8>) -> (r: Result<VmmRegValueType, VmmError>)
        ensures
            raw_type == REG_NONE ==> (r matches Ok(VmmRegValueType::REG_NONE)),
            !known_type(raw_type) ==> r == Err::<VmmRegValueType, VmmError>(VmmError::RegUnknownType),
            raw_type == REG_BINARY ==> (r matches Ok(VmmRegValueType::REG_BINARY(v)) && v@ == raw@),
            raw_type == REG_RESOURCE_LIST ==> (r matches Ok(VmmRegValueType::REG_RESOURCE_LIST(v)) && v@ == raw@),
            raw_type == REG_FULL_RESOURCE_DESCRIPTOR ==> (r matches Ok(VmmRegValueType::REG_FULL_RESOURCE_DESCRIPTOR(v)) && v@ == raw@),
            raw_type == REG_RESOURCE_REQUIREMENTS_LIST ==> (r matches Ok(VmmRegValueType::REG_RESOURCE_REQUIREMENTS_LIST(v)) && v@ == raw@),
            raw_type == REG_DWORD ==> if raw@.len() == 4 {
                r matches Ok(VmmRegValueType::REG_DWORD(x)) && x == le_u32(raw@)
            } else {
                r == Err::<VmmRegValueType, VmmError>(VmmError::RegBadSize)
            },
            raw_type == REG_DWORD_BIG_ENDIAN ==> if raw@.len() == 4 {
                r matches Ok(VmmRegValueType::REG_DWORD_BIG_ENDIAN(x)) && x == be_u32(raw@)
            } else {
                r == Err::<VmmRegValueType, VmmError>(VmmError::RegBadSize)
            },
            raw_type == REG_QWORD ==> if raw@.len() == 8 {
                r matches Ok(VmmRegValueType::REG_QWORD(x)) && x == le_u64(raw@)
            } else {
                r == Err::<VmmRegValueType, VmmError>(VmmError::RegBadSize)
            },
            (raw_type == REG_SZ || raw_type == REG_EXPAND_SZ || raw_type == REG_LINK || raw_type == REG_MULTI_SZ)
                && raw@.len() % 2 == 1 ==> r == Err::<VmmRegValueType, VmmError>(VmmError::RegBadSize),
            raw_type == REG_SZ && raw@.len() % 2 == 0 ==> (r matches Ok(VmmRegValueType::REG_SZ(s)) && s@ == sz_text(raw@)),
            raw_type == REG_EXPAND_SZ && raw@.len() % 2 == 0 ==> (r matches Ok(VmmRegValueType::REG_EXPAND_SZ(s)) && s@ == sz_text(raw@)),
            raw_type == REG_LINK && raw@.len() % 2 == 0 ==> (r matches Ok(VmmRegValueType::REG_LINK(s)) && s@ == sz_text(raw@)),
            raw_type == REG_MULTI_SZ && raw@.len() % 2 == 0 ==> (r matches Ok(VmmRegValueType::REG_MULTI_SZ(v))
                && v@.map_values(|s: String| s@) == nonempty_pieces(utf16_units(raw@)).map_values(|p: Seq<u16>| utf16_lossy(p))),
    {
        if raw_type == REG_NONE {
            return Ok(VmmRegValueType::REG_NONE);
        }
        if raw_type > REG_QWORD {
            return Err(VmmError::RegUnknownType);
        }
        if raw_type == REG_BINARY {
            return Ok(VmmRegValueType::REG_BINARY(copy_data(raw)));
        }
        if raw_type == REG_RESOURCE_LIST {
            return Ok(VmmRegValueType::REG_RESOURCE_LIST(copy_data(raw)));
        }
        if raw_type == REG_FULL_RESOURCE_DESCRIPTOR {
            return Ok(VmmRegValueType::REG_FULL_RESOURCE_DESCRIPTOR(copy_data(raw)));
        }
        if raw_type == REG_RESOURCE_REQUIREMENTS_LIST {
            return Ok(VmmRegValueType::REG_RESOURCE_REQUIREMENTS_LIST(copy_data(raw)));
        }
        if raw_type == REG_DWORD || raw_type == REG_DWORD_BIG_ENDIAN {
            if raw.len() != 4 {
                return Err(VmmError::RegBadSize);
            }
            let (b0, b1, b2, b3) = (raw[0] as u32, raw[1] as u32, raw[2] as u32, raw[3] as u32);
            if raw_type == REG_DWORD {
                return Ok(VmmRegValueType::REG_DWORD(b0 + b1 * 0x100 + b2 * 0x10000 + b3 * 0x1000000));
            }
            return Ok(VmmRegValueType::REG_DWORD_BIG_ENDIAN(b3 + b2 * 0x100 + b1 * 0x10000 + b0 * 0x1000000));
        }
        if raw_type == REG_QWORD {
            if raw.len() != 8 {
                return Err(VmmError::RegBadSize);
            }
            let lo = raw[0] as u64 + raw[1] as u64 * 0x100 + raw[2] as u64 * 0x10000 + raw[3] as u64 * 0x1000000;
            let hi = raw[4] as u64 + raw[5] as u64 * 0x100 + raw[6] as u64 * 0x10000 + raw[7] as u64 * 0x1000000;
            proof {
                assert(lo == le_u32(raw@.subrange(0, 4)));
                assert(hi == le_u32(raw@.subrange(4, 8)));
            }
            return Ok(VmmRegValueType::REG_QWORD(lo + hi * 0x100000000));
        }
        if raw.len() % 2 == 1 {
            return Err(VmmError::RegBadSize);
        }
        let units = units_of(raw);
        if raw_type == REG_MULTI_SZ {
            return Ok(VmmRegValueType::REG_MULTI_SZ(multi_text(&units)));
        }
        let text = first_text(&units);
        if raw_type == REG_SZ {
            Ok(VmmRegValueType::REG_SZ(text))
        } else if raw_type == REG_EXPAND_SZ {
            Ok(VmmRegValueType::REG_EXPAND_SZ(text))
        } else {
            Ok(VmmRegValueType::REG_LINK(text))
        }
    }
}

/// Text describing a registry value: its type, with the value for strings,
/// links and integers (integers in hexadecimal).
pub open spec fn reg_value_text(v: VmmRegValueType) -> Seq<char> {
    match v {
            VmmRegValueType::REG_NONE => "REG_NONE"@,
            VmmRegValueType::REG_SZ(r) => "REG_SZ("@ + r@ + ")"@,
            VmmRegValueType::REG_LINK(r) => "REG_LINK("@ + r@ + ")"@,
            VmmRegValueType::REG_DWORD(x) => "REG_DWORD(0x"@ + hex_text(x as nat) + ")"@,
            VmmRegValueType::REG_DWORD_BIG_ENDIAN(x) => "REG_DWORD_BIG_ENDIAN(0x"@ + hex_text(x as nat) + ")"@,
            VmmRegValueType::REG_QWORD(x) => "REG_QWORD(0x"@ + hex_text(x as nat) + ")"@,
            VmmRegValueType::REG_EXPAND_SZ(_) => "REG_EXPAND_SZ"@,
            VmmRegValueType::REG_BINARY(_) => "REG_BINARY"@,
            VmmRegValueType::REG_MULTI_SZ(_) => "REG_MULTI_SZ"@,
            VmmRegValueType::REG_RESOURCE_LIST(_) => "REG_RESOURCE_LIST"@,
            VmmRegValueType::REG_FULL_RESOURCE_DESCRIPTOR(_) => "REG_FULL_RESOURCE_DESCRIPTOR"@,
            VmmRegValueType::REG_RESOURCE_REQUIREMENTS_LIST(_) => "REG_RESOURCE_REQUIREMENTS_LIST"@,
    }
}

impl VmmRegValueType {
    /// Text describing the value, as `reg_value_text` says.
    pub fn to_string(&self) -> (r: String)
        ensures
            r@ == reg_value_text(*self),
    {
        match self {
            VmmRegValueType::REG_NONE => String::from_str("REG_NONE"),
            VmmRegValueType::REG_SZ(r) => {
                let mut s = String::from_str("REG_SZ(");
                s.append(r.as_str());
                s.append(")");
                s
            },
            VmmRegValueType::REG_LINK(r) => {
                let mut s = String::from_str("REG_LINK(");
                s.append(r.as_str());
                s.append(")");
                s
            },
            VmmRegValueType::REG_DWORD(x) => {
                let mut s = String::from_str("REG_DWORD(0x");
                push_hex(&mut s, *x as u64);
                s.append(")");
                s
            },
            VmmRegValueType::REG_DWORD_BIG_ENDIAN(x) => {
                let mut s = String::from_str("REG_DWORD_BIG_ENDIAN(0x");
                push_hex(&mut s, *x as u64);
                s.append(")");
                s
            },
            VmmRegValueType::REG_QWORD(x) => {
                let mut s = String::from_str("REG_QWORD(0x");
                push_hex(&mut s, *x as u64);
                s.append(")");
                s
            },
            VmmRegValueType::REG_EXPAND_SZ(_) => String::from_str("REG_EXPAND_SZ"),
            VmmRegValueType::REG_BINARY(_) => String::from_str("REG_BINARY"),
            VmmRegValueType::REG_MULTI_SZ(_) => String::from_str("REG_MULTI_SZ"),
            VmmRegValueType::REG_RESOURCE_LIST(_) => String::from_str("REG_RESOURCE_LIST"),
            VmmRegValueType::REG_FULL_RESOURCE_DESCRIPTOR(_) => String::from_str("REG_FULL_RESOURCE_DESCRIPTOR"),
            VmmRegValueType::REG_RESOURCE_REQUIREMENTS_LIST(_) => String::from_str("REG_RESOURCE_REQUIREMENTS_LIST"),
        }
    }
}

} // verus!
