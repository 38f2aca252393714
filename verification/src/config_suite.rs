//! The config program's probe suite, modeled: the account layout the
//! probes read and write, the space formula, and the expected outcome
//! of each probe.
//!
//! A config account holds a serialized key list — an eight-byte
//! little-endian count, then for each key its thirty-two raw bytes
//! and a one-byte signer flag — followed by the config payload, here
//! a single little-endian sixty-four-bit item. The library frames and
//! checks those bytes itself; the driver only moves them to and from
//! the cluster.

use vstd::prelude::*;
use vstd::bytes::lemma_auto_spec_u64_to_from_le_bytes;
use vstd::bytes::spec_u64_from_le_bytes;
use vstd::bytes::spec_u64_to_le_bytes;
use vstd::bytes::u64_from_le_bytes;
use vstd::bytes::u64_to_le_bytes;
use crate::text;

verus! {

/// The probe payload stored in a config account.
#[derive(Clone, Copy, Debug, PartialEq, Eq, Structural)]
pub struct MyConfig {
    pub item: u64,
}

/// Config account data that does not hold what a probe expects.
#[derive(Clone, Copy, Debug, PartialEq, Eq, Structural)]
pub enum ConfigError {
    DataTooShort,
}

impl MyConfig {
    /// A payload holding one item.
    pub fn new(item: u64) -> (r: Self)
        ensures
            r.item == item,
    {
        MyConfig { item }
    }

    /// The serialized size of the payload.
    pub fn max_space() -> (r: u64)
        ensures
            r == 8,
    {
        8
    }
}

impl Default for MyConfig {
    /// The payload the create probe expects to find.
    fn default() -> (r: Self)
        ensures
            r.item == 123456789u64,
    {
        MyConfig { item: 123_456_789 }
    }
}

/// One serialized key entry: the key's raw bytes, then its signer
/// flag as one byte.
pub open spec fn spec_serialize_entry(key: Seq<u8>, signer: bool) -> Seq<u8> {
    key + seq![if signer { 1u8 } else { 0u8 }]
}

/// The serialized key entries, in order.
pub open spec fn spec_serialize_entries(keys: Seq<(Seq<u8>, bool)>) -> Seq<u8>
    decreases keys.len(),
{
    if keys.len() == 0 {
        Seq::empty()
    } else {
        spec_serialize_entries(keys.drop_last()) + spec_serialize_entry(
            keys.last().0,
            keys.last().1,
        )
    }
}

/// The serialized key list: the count, then the entries.
pub open spec fn spec_serialize_config_keys(keys: Seq<(Seq<u8>, bool)>) -> Seq<u8> {
    spec_u64_to_le_bytes(keys.len() as u64) + spec_serialize_entries(keys)
}

/// Serialize the probe payload.
pub fn serialize_my_config(config: &MyConfig) -> (r: Vec<u8>)
    ensures
        r@ == spec_u64_to_le_bytes(config.item),
{
    u64_to_le_bytes(config.item)
}

/// Read a probe payload back from config account data already
/// stripped of its key list. Fails iff the data cannot hold the
/// payload; bytes past it are ignored.
pub fn parse_my_config(data: &[u8]) -> (r: Result<MyConfig, ConfigError>)
    ensures
        r is Ok <==> data@.len() >= 8,
        (r matches Ok(c) ==> c.item == spec_u64_from_le_bytes(data@.subrange(0, 8))),
        r is Err ==> r == Result::<MyConfig, ConfigError>::Err(ConfigError::DataTooShort),
{
    if data.len() < 8 {
        return Err(ConfigError::DataTooShort);
    }
    let head = text::bytes_range(data, 0, 8);
    let item = u64_from_le_bytes(head.as_slice());
    Ok(MyConfig { item })
}

/// Serializing a payload and reading it back gives the payload back.
pub proof fn lemma_my_config_round_trip(item: u64)
    ensures
        spec_u64_to_le_bytes(item).len() == 8,
        spec_u64_from_le_bytes(spec_u64_to_le_bytes(item).subrange(0, 8)) == item,
{
    lemma_auto_spec_u64_to_from_le_bytes();
    assert(spec_u64_to_le_bytes(item).subrange(0, 8) =~= spec_u64_to_le_bytes(item));
}

/// Serialize a key list.
pub fn serialize_config_keys(keys: &Vec<(Vec<u8>, bool)>) -> (r: Vec<u8>)
    requires
        forall|k: int| 0 <= k < keys@.len() ==> (#[trigger] keys@[k]).0@.len() == 32,
    ensures
        r@ == spec_serialize_config_keys(
            keys@.map_values(|e: (Vec<u8>, bool)| (e.0@, e.1)),
        ),
{
    let ghost keysv = keys@.map_values(|e: (Vec<u8>, bool)| (e.0@, e.1));
    let n = keys.len();
    let mut r = u64_to_le_bytes(n as u64);
    let ghost prefix = r@;
    let mut i: usize = 0;
    while i < n
        invariant
            i <= n,
            n == keys@.len(),
            keysv == keys@.map_values(|e: (Vec<u8>, bool)| (e.0@, e.1)),
            keysv.len() == n,
            prefix == spec_u64_to_le_bytes(n as u64),
            r@ == prefix + spec_serialize_entries(keysv.take(i as int)),
        decreases n - i,
    {
        assert(keysv[i as int] == (keys@[i as int].0@, keys@[i as int].1));
        proof {
            assert(keysv.take(i + 1).drop_last() =~= keysv.take(i as int));
            assert(keysv.take(i + 1).last() == keysv[i as int]);
        }
        text::push_all(&mut r, keys[i].0.as_slice());
        if keys[i].1 {
            r.push(1);
        } else {
            r.push(0);
        }
        assert(r@ =~= prefix + spec_serialize_entries(keysv.take(i + 1)));
        i += 1;
    }
    proof {
        assert(keysv.take(n as int) =~= keysv);
    }
    r
}

/// Every serialized key entry takes thirty-three bytes.
pub proof fn lemma_entries_size(keys: Seq<(Seq<u8>, bool)>)
    requires
        forall|k: int| 0 <= k < keys.len() ==> (#[trigger] keys[k]).0.len() == 32,
    ensures
        spec_serialize_entries(keys).len() == 33 * keys.len(),
    decreases keys.len(),
{
    if keys.len() > 0 {
        lemma_entries_size(keys.drop_last());
    }
}

/// The space a config account needs for a key list of the given
/// length beside the payload: the serialized key list — eight bytes
/// of count and thirty-three per key — plus the eight-byte payload.
pub fn get_config_space(key_len: usize) -> (r: usize)
    requires
        33 * key_len + 16 <= usize::MAX,
    ensures
        r == 16 + 33 * key_len,
{
    16 + 33 * key_len
}

/// The space formula matches the framing: a serialized key list of
/// well-formed keys plus the serialized payload fill exactly the
/// space the create probe asks for.
pub proof fn lemma_config_space_matches_framing(keys: Seq<(Seq<u8>, bool)>)
    requires
        forall|k: int| 0 <= k < keys.len() ==> (#[trigger] keys[k]).0.len() == 32,
    ensures
        spec_serialize_config_keys(keys).len() + 8 == 16 + 33 * keys.len(),
{
    lemma_entries_size(keys);
    lemma_auto_spec_u64_to_from_le_bytes();
}

/// Where the payload begins in config account data: past the
/// serialized key list.
pub open spec fn spec_config_data_offset(num_keys: int) -> int {
    8 + 33 * num_keys
}

/// The payload region of config account data, for a known key count.
/// Fails iff the data cannot hold the key list.
pub fn get_config_data(data: &[u8], num_keys: usize) -> (r: Result<Vec<u8>, ConfigError>)
    requires
        33 * num_keys + 8 <= usize::MAX,
    ensures
        r is Ok <==> data@.len() >= spec_config_data_offset(num_keys as int),
        (r matches Ok(d) ==> d@ == data@.skip(spec_config_data_offset(num_keys as int))),
        r is Err ==> r == Result::<Vec<u8>, ConfigError>::Err(ConfigError::DataTooShort),
{
    let offset = 8 + 33 * num_keys;
    if data.len() < offset {
        Err(ConfigError::DataTooShort)
    } else {
        Ok(text::bytes_suffix(data, offset))
    }
}

/// The data of a store instruction: the key list, then the payload.
pub fn store_instruction_data(keys: &Vec<(Vec<u8>, bool)>, config: &MyConfig) -> (r: Vec<u8>)
    requires
        forall|k: int| 0 <= k < keys@.len() ==> (#[trigger] keys@[k]).0@.len() == 32,
    ensures
        r@ == spec_serialize_config_keys(keys@.map_values(|e: (Vec<u8>, bool)| (e.0@, e.1)))
            + spec_u64_to_le_bytes(config.item),
{
    let mut r = serialize_config_keys(keys);
    let payload = serialize_my_config(config);
    text::push_all(&mut r, payload.as_slice());
    r
}

/// Judge a stored payload: the account data must hold the key list's
/// length and a payload region that reads back as the expected item.
pub fn check_stored_config(data: &[u8], num_keys: usize, expected: &MyConfig) -> (r: bool)
    requires
        33 * num_keys + 16 <= usize::MAX,
    ensures
        r == (data@.len() >= spec_config_data_offset(num_keys as int) + 8
            && spec_u64_from_le_bytes(
            data@.subrange(
                spec_config_data_offset(num_keys as int),
                spec_config_data_offset(num_keys as int) + 8,
            ),
        ) == expected.item),
{
    match get_config_data(data, num_keys) {
        Err(_) => false,
        Ok(payload) => {
            match parse_my_config(payload.as_slice()) {
                Err(_) => false,
                Ok(found) => {
                    proof {
                        let off = spec_config_data_offset(num_keys as int);
                        assert(data@.skip(off).subrange(0, 8) =~= data@.subrange(off, off + 8));
                    }
                    found.item == expected.item
                },
            }
        },
    }
}

/// Judge the stored key list of the additional-signers probe: the
/// account data must begin with exactly the serialized form of the
/// keys the probe stored.
pub fn check_stored_config_keys(data: &[u8], expected_keys: &Vec<(Vec<u8>, bool)>) -> (r: bool)
    requires
        forall|k: int| 0 <= k < expected_keys@.len() ==> (#[trigger] expected_keys@[k]).0@.len()
            == 32,
    ensures
        r == ({
            let framed = spec_serialize_config_keys(
                expected_keys@.map_values(|e: (Vec<u8>, bool)| (e.0@, e.1)),
            );
            data@.len() >= framed.len() && data@.subrange(0, framed.len() as int) == framed
        }),
{
    let framed = serialize_config_keys(expected_keys);
    if data.len() < framed.len() {
        return false;
    }
    let head = text::bytes_range(data, 0, framed.len());
    text::bytes_eq(head.as_slice(), framed.as_slice())
}

/// How an instruction is reported to have failed.
#[derive(Clone, Copy, Debug, PartialEq, Eq, Structural)]
pub enum InstructionErrorKind {
    InvalidInstructionData,
    MissingRequiredSignature,
}

/// The failure the cluster reports for one instruction of a
/// transaction.
#[derive(Clone, Copy, Debug, PartialEq, Eq, Structural)]
pub struct ExpectedTransactionError {
    pub instruction_index: u8,
    pub error: InstructionErrorKind,
}

/// The tampered store payload of the oversized-data probe: well over
/// the account's space, and rejected by the program.
pub fn oversized_store_data() -> (r: Vec<u8>)
    ensures
        r@.len() == 123,
        forall|k: int| 0 <= k < r@.len() ==> r@[k] == 0u8,
{
    let mut v: Vec<u8> = Vec::new();
    let mut i: usize = 0;
    while i < 123
        invariant
            i <= 123,
            v@.len() == i,
            forall|k: int| 0 <= k < i ==> v@[k] == 0u8,
        decreases 123 - i,
    {
        v.push(0);
        i += 1;
    }
    v
}

/// What the oversized-data probe must observe: the first instruction
/// rejected for invalid instruction data.
pub fn store_oversized_expected_error() -> (r: ExpectedTransactionError)
    ensures
        r.instruction_index == 0,
        r.error == InstructionErrorKind::InvalidInstructionData,
{
    ExpectedTransactionError { instruction_index: 0, error: InstructionErrorKind::InvalidInstructionData }
}

/// What the unsigned-store probe must observe: the first instruction
/// rejected for a missing required signature.
pub fn store_unsigned_expected_error() -> (r: ExpectedTransactionError)
    ensures
        r.instruction_index == 0,
        r.error == InstructionErrorKind::MissingRequiredSignature,
{
    ExpectedTransactionError {
        instruction_index: 0,
        error: InstructionErrorKind::MissingRequiredSignature,
    }
}

} // verus!
