//! Plain-value form of the arguments carried by entity method calls and
//! property updates. Floating-point values are kept as their IEEE-754 bit
//! patterns; fixed dictionaries are lists of `(key, value)` entries.
use vstd::prelude::*;
use vstd::utf8::{decode_utf8, valid_utf8};

verus! {

/// One argument value of an RPC call or property update.
pub enum ArgVal {
    Uint8(u8),
    Uint16(u16),
    Uint32(u32),
    Uint64(u64),
    Int8(i8),
    Int16(i16),
    Int32(i32),
    Int64(i64),
    /// Bit pattern of an `f32`.
    Float32(u32),
    /// Bit pattern of an `f64`.
    Float64(u64),
    /// Bit patterns of two `f32` components.
    Vector2(u32, u32),
    /// Bit patterns of three `f32` components.
    Vector3(u32, u32, u32),
    String(Vec<u8>),
    UnicodeString(Vec<u8>),
    Blob(Vec<u8>),
    Array(Vec<ArgVal>),
    FixedDict(Vec<(String, ArgVal)>),
    NullableFixedDict(Option<Vec<(String, ArgVal)>>),
    Tuple(Vec<ArgVal>),
}

/// Calls `String::from_utf8`: it gives a string exactly for the byte strings
/// that are valid UTF-8, holding the characters they encode.
#[verifier::external_body]
pub(crate) fn string_from_utf8(bytes: &[u8]) -> (r: Option<String>)
    ensures
        match r {
            Some(s) => valid_utf8(bytes@) && s@ == decode_utf8(bytes@),
            None => !valid_utf8(bytes@),
        },
{
    String::from_utf8(bytes.to_vec()).ok()
}

/// Whether two strings hold the same characters.
pub fn str_eq(a: &str, b: &str) -> (r: bool)
    ensures
        r == (a@ == b@),
{
    let sa = a.to_owned();
    let sb = b.to_owned();
    sa == sb
}

/// Position of the first entry of `entries` whose key is `key`.
pub open spec fn dict_index(entries: Seq<(String, ArgVal)>, key: Seq<char>) -> Option<int>
    decreases entries.len(),
{
    if entries.len() == 0 {
        None
    } else if entries[0].0@ == key {
        Some(0)
    } else {
        match dict_index(entries.drop_first(), key) {
            Some(i) => Some(i + 1),
            None => None,
        }
    }
}

pub proof fn lemma_dict_index_bounds(entries: Seq<(String, ArgVal)>, key: Seq<char>)
    ensures
        dict_index(entries, key) matches Some(i) ==> 0 <= i < entries.len() && entries[i].0@
            == key && forall|j: int| 0 <= j < i ==> entries[j].0@ != key,
        dict_index(entries, key) is None ==> forall|j: int|
            0 <= j < entries.len() ==> entries[j].0@ != key,
    decreases entries.len(),
{
    if entries.len() > 0 && entries[0].0@ != key {
        lemma_dict_index_bounds(entries.drop_first(), key);
        assert forall|j: int| 1 <= j < entries.len() implies entries[j] == entries.drop_first()[j
            - 1] by {}
    }
}

/// The value stored under `key`, if any (the first entry wins).
pub open spec fn dict_lookup(entries: Seq<(String, ArgVal)>, key: Seq<char>) -> Option<ArgVal> {
    match dict_index(entries, key) {
        Some(i) => Some(entries[i].1),
        None => None,
    }
}

/// Looks up `key` in a fixed dictionary.
pub fn dict_get<'a>(entries: &'a Vec<(String, ArgVal)>, key: &str) -> (r: Option<&'a ArgVal>)
    ensures
        match dict_lookup(entries@, key@) {
            Some(v) => r == Some(&v),
            None => r is None,
        },
{
    proof {
        lemma_dict_index_bounds(entries@, key@);
    }
    let ghost e = entries@;
    let mut i: usize = 0;
    while i < entries.len()
        invariant
            e == entries@,
            i <= e.len(),
            forall|j: int| 0 <= j < i ==> e[j].0@ != key@,
            dict_index(e, key@) matches Some(k) ==> 0 <= k < e.len() && e[k].0@ == key@ && forall|
                j: int,
            |
                0 <= j < k ==> e[j].0@ != key@,
            dict_index(e, key@) is None ==> forall|j: int| 0 <= j < e.len() ==> e[j].0@ != key@,
        decreases e.len() - i,
    {
        let k: &String = &entries[i].0;
        if k.as_str().to_owned() == key.to_owned() {
            proof {
                match dict_index(e, key@) {
                    Some(m) => {
                        assert(m == i as int);
                    },
                    None => {},
                }
            }
            return Some(&entries[i].1);
        }
        i += 1;
    }
    None
}

/// The `u8` held by a value of that exact kind.
pub open spec fn as_u8(v: ArgVal) -> Option<u8> {
    match v {
        ArgVal::Uint8(x) => Some(x),
        _ => None,
    }
}

/// The `u32` held by a value of that exact kind.
pub open spec fn as_u32(v: ArgVal) -> Option<u32> {
    match v {
        ArgVal::Uint32(x) => Some(x),
        _ => None,
    }
}

/// The `i32` held by a value of that exact kind.
pub open spec fn as_i32(v: ArgVal) -> Option<i32> {
    match v {
        ArgVal::Int32(x) => Some(x),
        _ => None,
    }
}

/// Reads a `u8`, as the typed conversions of the argument decoder do: only
/// a value of exactly that kind converts.
pub fn get_u8(v: &ArgVal) -> (r: Option<u8>)
    ensures
        r == as_u8(*v),
{
    match v {
        ArgVal::Uint8(x) => Some(*x),
        _ => None,
    }
}

/// Reads a `u32` (exact kind only).
pub fn get_u32(v: &ArgVal) -> (r: Option<u32>)
    ensures
        r == as_u32(*v),
{
    match v {
        ArgVal::Uint32(x) => Some(*x),
        _ => None,
    }
}

/// Reads an `i32` (exact kind only).
pub fn get_i32(v: &ArgVal) -> (r: Option<i32>)
    ensures
        r == as_i32(*v),
{
    match v {
        ArgVal::Int32(x) => Some(*x),
        _ => None,
    }
}

/// The `i8` held by a value of that exact kind.
pub open spec fn as_i8(v: ArgVal) -> Option<i8> {
    match v {
        ArgVal::Int8(x) => Some(x),
        _ => None,
    }
}

/// The `u64` held by a value of that exact kind.
pub open spec fn as_u64(v: ArgVal) -> Option<u64> {
    match v {
        ArgVal::Uint64(x) => Some(x),
        _ => None,
    }
}

/// The `f32` bit pattern held by a value of that exact kind.
pub open spec fn as_f32_bits(v: ArgVal) -> Option<u32> {
    match v {
        ArgVal::Float32(x) => Some(x),
        _ => None,
    }
}

/// Reads an `i8` (exact kind only).
pub fn get_i8(v: &ArgVal) -> (r: Option<i8>)
    ensures
        r == as_i8(*v),
{
    match v {
        ArgVal::Int8(x) => Some(*x),
        _ => None,
    }
}

/// Reads a `u64` (exact kind only).
pub fn get_u64(v: &ArgVal) -> (r: Option<u64>)
    ensures
        r == as_u64(*v),
{
    match v {
        ArgVal::Uint64(x) => Some(*x),
        _ => None,
    }
}

/// Reads the bit pattern of an `f32` (exact kind only).
pub fn get_f32_bits(v: &ArgVal) -> (r: Option<u32>)
    ensures
        r == as_f32_bits(*v),
{
    match v {
        ArgVal::Float32(x) => Some(*x),
        _ => None,
    }
}

/// The `i32` stored under `key` of a dictionary, 0 when it is missing or of
/// another kind.
pub open spec fn dict_i32_or_zero(entries: Seq<(String, ArgVal)>, key: Seq<char>) -> i32 {
    match dict_lookup(entries, key) {
        Some(ArgVal::Int32(x)) => x,
        _ => 0,
    }
}

/// The `u32` stored under `key` of a dictionary, 0 when it is missing or of
/// another kind.
pub open spec fn dict_u32_or_zero(entries: Seq<(String, ArgVal)>, key: Seq<char>) -> u32 {
    match dict_lookup(entries, key) {
        Some(ArgVal::Uint32(x)) => x,
        _ => 0,
    }
}

pub fn dict_get_i32_or_zero(entries: &Vec<(String, ArgVal)>, key: &str) -> (r: i32)
    ensures
        r == dict_i32_or_zero(entries@, key@),
{
    match dict_get(entries, key) {
        Some(ArgVal::Int32(x)) => *x,
        _ => 0,
    }
}

pub fn dict_get_u32_or_zero(entries: &Vec<(String, ArgVal)>, key: &str) -> (r: u32)
    ensures
        r == dict_u32_or_zero(entries@, key@),
{
    match dict_get(entries, key) {
        Some(ArgVal::Uint32(x)) => *x,
        _ => 0,
    }
}

} // verus!
