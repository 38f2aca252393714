//! The functional probe suite: a fixed, deterministic pair of probes
//! run identically before and after migration, with fresh key material
//! per invocation.
//!
//! The library builds the probe transactions and judges the observed
//! results; the driver submits them and fetches the resulting account
//! states. The probes speak the instruction encoding of the stub
//! program: a one-byte tag followed by the payload.

use vstd::prelude::*;
use vstd::bytes::spec_u64_to_le_bytes;
use vstd::bytes::u64_to_le_bytes;
use crate::codec;
use crate::codec::base64_decoding;
use crate::sdk;
use crate::text;

verus! {

/// One account named by an instruction, with its access flags.
pub struct AccountRole {
    pub address: String,
    pub writable: bool,
    pub signer: bool,
}

/// One instruction of a probe transaction, in plain form: the driver
/// turns it into the cluster's wire type verbatim.
pub struct ProbeInstruction {
    pub program_id: String,
    pub accounts: Vec<AccountRole>,
    pub data: Vec<u8>,
}

/// The stub program's instruction set.
pub enum StubInstruction {
    /// Fund a fresh target account to rent-exemption, allocate space,
    /// assign ownership to the program under test, and write the
    /// payload into it.
    Write { data: Vec<u8> },
    /// Set the transaction's return data to the payload.
    Emit { data: Vec<u8> },
    /// Zero and delete the target account.
    Burn,
}

/// A stub instruction that could not be decoded.
#[derive(Clone, Copy, Debug, PartialEq, Eq, Structural)]
pub enum StubError {
    InvalidInstructionData,
}

/// The encoding of a write instruction: tag `0`, then the payload.
pub open spec fn spec_encode_stub_write(data: Seq<u8>) -> Seq<u8> {
    seq![0u8] + data
}

/// The encoding of an emit instruction: tag `1`, then the payload.
pub open spec fn spec_encode_stub_emit(data: Seq<u8>) -> Seq<u8> {
    seq![1u8] + data
}

/// The encoding of a burn instruction: tag `2` alone.
pub open spec fn spec_encode_stub_burn() -> Seq<u8> {
    seq![2u8]
}

/// Encode a write instruction for the stub program.
pub fn encode_stub_write(data: &[u8]) -> (r: Vec<u8>)
    ensures
        r@ == spec_encode_stub_write(data@),
{
    let mut v: Vec<u8> = Vec::new();
    v.push(0);
    text::push_all(&mut v, data);
    assert(v@ =~= spec_encode_stub_write(data@));
    v
}

/// Encode an emit instruction for the stub program.
pub fn encode_stub_emit(data: &[u8]) -> (r: Vec<u8>)
    ensures
        r@ == spec_encode_stub_emit(data@),
{
    let mut v: Vec<u8> = Vec::new();
    v.push(1);
    text::push_all(&mut v, data);
    assert(v@ =~= spec_encode_stub_emit(data@));
    v
}

/// Encode a burn instruction for the stub program.
pub fn encode_stub_burn() -> (r: Vec<u8>)
    ensures
        r@ == spec_encode_stub_burn(),
{
    let mut v: Vec<u8> = Vec::new();
    v.push(2);
    assert(v@ =~= spec_encode_stub_burn());
    v
}

/// Decode a stub instruction: the inverse of the encoders, rejecting
/// anything that does not start with a known tag.
pub fn parse_stub_instruction(input: &[u8]) -> (r: Result<StubInstruction, StubError>)
    ensures
        input@.len() == 0 ==> r == Result::<StubInstruction, StubError>::Err(
            StubError::InvalidInstructionData,
        ),
        input@.len() > 0 && input@[0] == 0 ==> (r matches Ok(StubInstruction::Write { data })
            && data@ == input@.skip(1)),
        input@.len() > 0 && input@[0] == 1 ==> (r matches Ok(StubInstruction::Emit { data })
            && data@ == input@.skip(1)),
        input@.len() > 0 && input@[0] == 2 ==> r matches Ok(StubInstruction::Burn),
        input@.len() > 0 && input@[0] > 2 ==> r == Result::<StubInstruction, StubError>::Err(
            StubError::InvalidInstructionData,
        ),
{
    if input.len() == 0 {
        return Err(StubError::InvalidInstructionData);
    }
    let tag = input[0];
    if tag == 0 {
        Ok(StubInstruction::Write { data: text::bytes_suffix(input, 1) })
    } else if tag == 1 {
        Ok(StubInstruction::Emit { data: text::bytes_suffix(input, 1) })
    } else if tag == 2 {
        Ok(StubInstruction::Burn)
    } else {
        Err(StubError::InvalidInstructionData)
    }
}

/// Encoding then decoding a stub instruction gives the instruction
/// back: the encoded forms are non-empty, start with their tags, and
/// carry the payload unchanged.
pub proof fn lemma_stub_encoding_round_trip(data: Seq<u8>)
    ensures
        spec_encode_stub_write(data).len() > 0,
        spec_encode_stub_write(data)[0] == 0,
        spec_encode_stub_write(data).skip(1) == data,
        spec_encode_stub_emit(data).len() > 0,
        spec_encode_stub_emit(data)[0] == 1,
        spec_encode_stub_emit(data).skip(1) == data,
        spec_encode_stub_burn().len() > 0,
        spec_encode_stub_burn()[0] == 2,
{
    assert(spec_encode_stub_write(data).skip(1) =~= data);
    assert(spec_encode_stub_emit(data).skip(1) =~= data);
}

/// The encoding of a system transfer: the instruction index `2` as a
/// little-endian 32-bit word, then the lamport amount as a
/// little-endian 64-bit word.
pub open spec fn spec_encode_system_transfer(lamports: u64) -> Seq<u8> {
    seq![2u8, 0u8, 0u8, 0u8] + spec_u64_to_le_bytes(lamports)
}

/// Encode a system-program transfer instruction's data.
pub fn encode_system_transfer(lamports: u64) -> (r: Vec<u8>)
    ensures
        r@ == spec_encode_system_transfer(lamports),
{
    let mut v: Vec<u8> = Vec::new();
    v.push(2);
    v.push(0);
    v.push(0);
    v.push(0);
    let tail = u64_to_le_bytes(lamports);
    text::push_all(&mut v, tail.as_slice());
    assert(v@ =~= spec_encode_system_transfer(lamports));
    v
}

/// The transfer instruction that funds `to` with `lamports` from
/// `from`.
pub fn transfer_instruction(from: &str, to: &str, lamports: u64) -> (r: ProbeInstruction)
    ensures
        r.program_id@ == sdk::spec_system_program_id(),
        r.data@ == spec_encode_system_transfer(lamports),
        r.accounts@.len() == 2,
        r.accounts@[0].address@ == from@ && r.accounts@[0].writable && r.accounts@[0].signer,
        r.accounts@[1].address@ == to@ && r.accounts@[1].writable && !r.accounts@[1].signer,
{
    let mut accounts: Vec<AccountRole> = Vec::new();
    accounts.push(AccountRole { address: from.to_owned(), writable: true, signer: true });
    accounts.push(AccountRole { address: to.to_owned(), writable: true, signer: false });
    ProbeInstruction {
        program_id: sdk::system_program_id(),
        accounts,
        data: encode_system_transfer(lamports),
    }
}

/// The write probe's transaction: one stub write instruction against
/// the program under test, writing `data` into a freshly generated
/// target account. The target signs beside the payer: the program
/// allocates it and assigns it ownership.
pub fn write_probe_plan(program_id: &str, target: &str, payer: &str, data: &[u8]) -> (r:
    ProbeInstruction)
    ensures
        r.program_id@ == program_id@,
        r.data@ == spec_encode_stub_write(data@),
        r.accounts@.len() == 3,
        r.accounts@[0].address@ == target@ && r.accounts@[0].writable && r.accounts@[0].signer,
        r.accounts@[1].address@ == payer@ && r.accounts@[1].writable && r.accounts@[1].signer,
        r.accounts@[2].address@ == sdk::spec_system_program_id() && !r.accounts@[2].writable
            && !r.accounts@[2].signer,
{
    let mut accounts: Vec<AccountRole> = Vec::new();
    accounts.push(AccountRole { address: target.to_owned(), writable: true, signer: true });
    accounts.push(AccountRole { address: payer.to_owned(), writable: true, signer: true });
    accounts.push(
        AccountRole { address: sdk::system_program_id(), writable: false, signer: false },
    );
    ProbeInstruction {
        program_id: program_id.to_owned(),
        accounts,
        data: encode_stub_write(data),
    }
}

/// The lamports with which the burn probe funds its target before
/// asking the program to delete it.
pub const BURN_PROBE_FUNDING: u64 = 100_000_000;

/// The burn probe's transaction: fund a freshly generated target, then
/// ask the program under test to delete it.
pub fn burn_probe_plan(program_id: &str, target: &str, payer: &str) -> (r: Vec<ProbeInstruction>)
    ensures
        r@.len() == 2,
        r@[0].program_id@ == sdk::spec_system_program_id(),
        r@[0].data@ == spec_encode_system_transfer(BURN_PROBE_FUNDING),
        r@[0].accounts@.len() == 2,
        r@[0].accounts@[0].address@ == payer@ && r@[0].accounts@[0].writable
            && r@[0].accounts@[0].signer,
        r@[0].accounts@[1].address@ == target@ && r@[0].accounts@[1].writable
            && !r@[0].accounts@[1].signer,
        r@[1].program_id@ == program_id@,
        r@[1].data@ == spec_encode_stub_burn(),
        r@[1].accounts@.len() == 1,
        r@[1].accounts@[0].address@ == target@ && r@[1].accounts@[0].writable
            && r@[1].accounts@[0].signer,
{
    let transfer = transfer_instruction(payer, target, BURN_PROBE_FUNDING);
    let mut accounts: Vec<AccountRole> = Vec::new();
    accounts.push(AccountRole { address: target.to_owned(), writable: true, signer: true });
    let burn = ProbeInstruction {
        program_id: program_id.to_owned(),
        accounts,
        data: encode_stub_burn(),
    };
    let mut r: Vec<ProbeInstruction> = Vec::new();
    r.push(transfer);
    r.push(burn);
    r
}

/// The emit probe's transaction: one stub emit instruction against
/// the program under test, naming no accounts — the program only sets
/// the transaction's return data to the payload.
pub fn emit_probe_plan(program_id: &str, data: &[u8]) -> (r: ProbeInstruction)
    ensures
        r.program_id@ == program_id@,
        r.data@ == spec_encode_stub_emit(data@),
        r.accounts@.len() == 0,
{
    ProbeInstruction {
        program_id: program_id.to_owned(),
        accounts: Vec::new(),
        data: encode_stub_emit(data),
    }
}

/// What the feature-gate no-op program returns: it ignores its
/// accounts and input and sets the transaction's return data to
/// thirty-two bytes of seven.
pub fn noop_return_data() -> (r: Vec<u8>)
    ensures
        r@ == Seq::new(32, |i: int| 7u8),
{
    let mut v: Vec<u8> = Vec::new();
    let mut i: usize = 0;
    while i < 32
        invariant
            i <= 32,
            v@.len() == i,
            forall|k: int| 0 <= k < i ==> v@[k] == 7u8,
        decreases 32 - i,
    {
        v.push(7);
        i += 1;
    }
    assert(v@ =~= Seq::new(32, |i: int| 7u8));
    v
}

/// The stub program rejects a write whose payer did not sign.
#[derive(Clone, Copy, Debug, PartialEq, Eq, Structural)]
pub enum StubProcessError {
    MissingRequiredSignature,
}

/// What the stub program does to the target account when it processes
/// a write.
pub struct WriteEffects {
    /// Lamports moved from the payer: the target's rent-exempt
    /// minimum for the written size.
    pub funded_lamports: u64,
    /// Space allocated in the target: the written size.
    pub allocated_space: usize,
    /// The target's new owner: the program under test.
    pub new_owner: String,
    /// The bytes written into the target.
    pub data: Vec<u8>,
}

/// The stub program's processing of a write instruction: fund the
/// target to rent-exemption, allocate space for the payload, assign
/// ownership to the program, and write the payload — or reject the
/// whole instruction where the payer did not sign.
pub fn stub_write_effects(program_id: &str, payer_is_signer: bool, data: &[u8]) -> (r: Result<
    WriteEffects,
    StubProcessError,
>)
    ensures
        r is Ok <==> payer_is_signer,
        (r matches Ok(e) ==> e.funded_lamports == sdk::rent_exempt_minimum_of(data@.len() as int)
            && e.allocated_space == data@.len() && e.new_owner@ == program_id@ && e.data@
            == data@),
        r is Err ==> r == Result::<WriteEffects, StubProcessError>::Err(
            StubProcessError::MissingRequiredSignature,
        ),
{
    if !payer_is_signer {
        return Err(StubProcessError::MissingRequiredSignature);
    }
    let space = data.len();
    let lamports = sdk::rent_exempt_minimum(space);
    let mut written: Vec<u8> = Vec::new();
    text::push_all(&mut written, data);
    assert(written@ =~= data@);
    Ok(
        WriteEffects {
            funded_lamports: lamports,
            allocated_space: space,
            new_owner: program_id.to_owned(),
            data: written,
        },
    )
}

/// What the write probe expects to observe afterwards: the target
/// account owned by the program under test and holding exactly the
/// written bytes. The expectation is a function of the program and the
/// payload alone — the generated target and payer keys play no part.
pub open spec fn spec_write_probe_expectation(
    program_id: Seq<char>,
    data: Seq<u8>,
    target: Seq<char>,
    payer: Seq<char>,
) -> (Seq<char>, Seq<u8>) {
    (program_id, data)
}

/// Probes are idempotent given fresh key material: two invocations of
/// the write probe against the same phase, with independently
/// generated keys, expect identical observable outcomes.
pub proof fn lemma_probe_outcome_key_independent(
    program_id: Seq<char>,
    data: Seq<u8>,
    target1: Seq<char>,
    payer1: Seq<char>,
    target2: Seq<char>,
    payer2: Seq<char>,
)
    ensures
        spec_write_probe_expectation(program_id, data, target1, payer1)
            == spec_write_probe_expectation(program_id, data, target2, payer2),
{
}

/// What the whole probe suite expects to observe: the write probe's
/// post-state, and — for the burn probe — that its target no longer
/// exists. Like each probe's own expectation, it mentions no key.
pub open spec fn spec_suite_expectation(
    program_id: Seq<char>,
    data: Seq<u8>,
    write_target: Seq<char>,
    burn_target: Seq<char>,
    payer: Seq<char>,
) -> ((Seq<char>, Seq<u8>), bool) {
    (spec_write_probe_expectation(program_id, data, write_target, payer), false)
}

/// The probe suite is idempotent given fresh key material: run twice
/// in immediate succession against the same phase, with independently
/// generated targets and payers, both runs expect identical
/// observable outcomes.
pub proof fn lemma_suite_outcome_key_independent(
    program_id: Seq<char>,
    data: Seq<u8>,
    write_target1: Seq<char>,
    burn_target1: Seq<char>,
    payer1: Seq<char>,
    write_target2: Seq<char>,
    burn_target2: Seq<char>,
    payer2: Seq<char>,
)
    ensures
        spec_suite_expectation(program_id, data, write_target1, burn_target1, payer1)
            == spec_suite_expectation(program_id, data, write_target2, burn_target2, payer2),
{
}

/// Judge the write probe: the target account must be owned by the
/// program under test and hold exactly the written bytes.
pub fn check_write_result(program_id: &str, owner: &str, account_data: &[u8], written: &[u8]) -> (r:
    bool)
    ensures
        r == (owner@ == program_id@ && account_data@ == written@),
{
    let ids = text::str_eq(owner, program_id);
    let bytes = text::bytes_eq(account_data, written);
    ids && bytes
}

/// Judge the burn probe: the target account must no longer exist.
pub fn check_burn_result(account_exists: bool) -> (r: bool)
    ensures
        r == !account_exists,
{
    !account_exists
}

/// Judge the emit probe: the transaction's return data must name the
/// program under test and decode, from base64, to exactly the emitted
/// bytes.
pub fn check_emit_result(
    program_id: &str,
    returned_program_id: &str,
    return_data_base64: &str,
    emitted: &[u8],
) -> (r: bool)
    ensures
        r == (returned_program_id@ == program_id@ && base64_decoding(return_data_base64@)
            == Some(emitted@)),
{
    if !text::str_eq(returned_program_id, program_id) {
        return false;
    }
    match codec::decode_base64(return_data_base64) {
        Ok(decoded) => text::bytes_eq(decoded.as_slice(), emitted),
        Err(_) => false,
    }
}

} // verus!
