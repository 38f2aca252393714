//! Cluster bootstrap: the genesis plan of the single-node test
//! cluster.
//!
//! Given an epoch length, the migration targets and their replacement
//! artifacts, the library computes the full genesis description: for
//! each target a staged feature account — sized and rent-exempt for
//! the feature-state format, owned by the activator helper program —
//! and a buffer account holding the artifact bytes behind the
//! upgradeable loader's fixed-size metadata header; plus the activator
//! program itself, deployed and executable. The driver feeds the plan
//! to the cluster verbatim; a cluster that fails to start is fatal.

use vstd::prelude::*;
use crate::activator::spec_activator_program_id;
use crate::sdk;
use crate::text;

verus! {

/// One program under migration: its feature flag, the buffer account
/// holding its replacement artifact, and the artifact's file name.
pub struct MigrationTarget {
    pub feature_id: String,
    pub buffer_address: String,
    pub elf_name: String,
}

/// One account seeded at genesis.
pub struct AccountSpec {
    pub address: String,
    pub owner: String,
    pub lamports: u64,
    pub data: Vec<u8>,
}

/// One upgradeable program deployed at genesis. The driver picks a
/// fresh upgrade authority when it hands this to the cluster.
pub struct UpgradeableProgramSpec {
    pub program_id: String,
    pub loader: String,
    pub program_path: String,
}

/// The declarative genesis description of the test cluster.
pub struct GenesisPlan {
    pub slots_per_epoch: u64,
    pub deactivate_features: Vec<String>,
    pub accounts: Vec<AccountSpec>,
    pub upgradeable_programs: Vec<UpgradeableProgramSpec>,
    pub enable_transaction_history: bool,
}

/// A buffer account whose data cannot hold the metadata header.
#[derive(Clone, Copy, Debug, PartialEq, Eq, Structural)]
pub enum GenesisError {
    BufferTooSmall,
}

/// The serialized size of the feature account state.
pub const FEATURE_ACCOUNT_SIZE: usize = 9;

/// The metadata header of a buffer account with no authority: the
/// buffer variant's index as a little-endian 32-bit word, one zero
/// byte for the absent authority, and the zero padding of the space
/// reserved for an authority key.
pub open spec fn spec_buffer_header() -> Seq<u8> {
    seq![1u8] + Seq::new(36, |i: int| 0u8)
}

/// The data of a buffer account staging `elf`: the metadata header,
/// then the raw code bytes.
pub open spec fn spec_buffer_account_data(elf: Seq<u8>) -> Seq<u8> {
    spec_buffer_header() + elf
}

/// The data of a freshly allocated staged feature account: all zeros,
/// in the feature-state format's size.
pub open spec fn spec_staged_feature_data() -> Seq<u8> {
    Seq::new(FEATURE_ACCOUNT_SIZE as nat, |i: int| 0u8)
}

/// Frame an artifact's bytes per the upgradeable loader's buffer
/// layout.
pub fn buffer_account_data(elf: &[u8]) -> (r: Vec<u8>)
    requires
        elf@.len() + 37 <= usize::MAX,
    ensures
        r@ == spec_buffer_account_data(elf@),
        r@.len() == 37 + elf@.len(),
{
    let mut v: Vec<u8> = Vec::new();
    v.push(1);
    let mut i: usize = 0;
    while i < 36
        invariant
            i <= 36,
            v@.len() == i + 1,
            v@[0] == 1u8,
            forall|k: int| 1 <= k < v@.len() ==> v@[k] == 0u8,
        decreases 36 - i,
    {
        v.push(0);
        i += 1;
    }
    assert(v@ =~= spec_buffer_header());
    text::push_all(&mut v, elf);
    v
}

/// Recover the raw code bytes from a buffer account's data: what the
/// fixtures pipeline clones from a live buffer account. Fails iff the
/// data cannot hold the metadata header.
pub fn extract_elf(data: &[u8]) -> (r: Result<Vec<u8>, GenesisError>)
    ensures
        r is Ok <==> data@.len() >= 37,
        (r matches Ok(elf) ==> elf@ == data@.skip(37)),
        r is Err ==> r == Result::<Vec<u8>, GenesisError>::Err(GenesisError::BufferTooSmall),
{
    let meta = sdk::buffer_metadata_size();
    if data.len() < meta {
        Err(GenesisError::BufferTooSmall)
    } else {
        Ok(text::bytes_suffix(data, meta))
    }
}

/// Framing an artifact and then extracting it gives the artifact
/// back: the framed data holds the header, and everything past the
/// header is exactly the artifact.
pub proof fn lemma_buffer_round_trip(elf: Seq<u8>)
    ensures
        spec_buffer_account_data(elf).len() == 37 + elf.len(),
        spec_buffer_account_data(elf).skip(37) == elf,
{
    assert(spec_buffer_account_data(elf).skip(37) =~= elf);
}

/// The staged feature account for one target: sized and rent-exempt
/// for the feature-state format, owned by the activator helper
/// program — feature proposed but not yet active.
pub fn staged_feature_account(address: &str) -> (r: AccountSpec)
    ensures
        r.address@ == address@,
        r.owner@ == spec_activator_program_id(),
        r.lamports == sdk::rent_exempt_minimum_of(9),
        r.data@ == spec_staged_feature_data(),
{
    let space = sdk::feature_account_size();
    let lamports = sdk::rent_exempt_minimum(space);
    let mut data: Vec<u8> = Vec::new();
    let mut i: usize = 0;
    while i < space
        invariant
            i <= space,
            space == 9,
            data@.len() == i,
            forall|k: int| 0 <= k < i ==> data@[k] == 0u8,
        decreases space - i,
    {
        data.push(0);
        i += 1;
    }
    assert(data@ =~= spec_staged_feature_data());
    AccountSpec {
        address: address.to_owned(),
        owner: crate::activator::activator_program_id(),
        lamports,
        data,
    }
}

/// The buffer account for one target: the replacement artifact's
/// bytes behind the loader's metadata header, rent-exempt for its
/// size, owned by the upgradeable loader so it can later be promoted
/// to an executable program.
pub fn buffer_account(address: &str, elf: &[u8]) -> (r: AccountSpec)
    requires
        elf@.len() + 37 <= usize::MAX,
    ensures
        r.address@ == address@,
        r.owner@ == sdk::spec_upgradeable_loader_id(),
        r.lamports == sdk::rent_exempt_minimum_of(37 + elf@.len() as int),
        r.data@ == spec_buffer_account_data(elf@),
{
    let data = buffer_account_data(elf);
    let space = data.len();
    let lamports = sdk::rent_exempt_minimum(space);
    AccountSpec { address: address.to_owned(), owner: sdk::upgradeable_loader_id(), lamports, data }
}

/// The genesis description for a run: a custom epoch schedule, each
/// target's feature deactivated (so it starts staged, not active),
/// each target's staged feature account and buffer account, the
/// activator program deployed, and transaction history enabled for
/// the probe suite.
pub fn genesis_plan(
    targets: &Vec<MigrationTarget>,
    elves: &Vec<Vec<u8>>,
    elf_directory: &str,
    slots_per_epoch: u64,
) -> (r: GenesisPlan)
    requires
        elves@.len() == targets@.len(),
        slots_per_epoch > 0,
        forall|i: int| 0 <= i < elves@.len() ==> (#[trigger] elves@[i])@.len() + 37 <= usize::MAX,
    ensures
        r.slots_per_epoch == slots_per_epoch,
        r.enable_transaction_history,
        r.deactivate_features@.len() == targets@.len(),
        forall|i: int|
            0 <= i < targets@.len() ==> (#[trigger] r.deactivate_features@[i])@
                == targets@[i].feature_id@,
        r.accounts@.len() == 2 * targets@.len(),
        forall|i: int|
            0 <= i < targets@.len() ==> {
                let staged = #[trigger] r.accounts@[2 * i];
                staged.address@ == targets@[i].feature_id@ && staged.owner@
                    == spec_activator_program_id() && staged.lamports
                    == sdk::rent_exempt_minimum_of(9) && staged.data@ == spec_staged_feature_data()
            },
        forall|i: int|
            0 <= i < targets@.len() ==> {
                let buffer = #[trigger] r.accounts@[2 * i + 1];
                buffer.address@ == targets@[i].buffer_address@ && buffer.owner@
                    == sdk::spec_upgradeable_loader_id() && buffer.lamports
                    == sdk::rent_exempt_minimum_of(37 + elves@[i]@.len() as int) && buffer.data@
                    == spec_buffer_account_data(elves@[i]@)
            },
        r.upgradeable_programs@.len() == 1,
        r.upgradeable_programs@[0].program_id@ == spec_activator_program_id(),
        r.upgradeable_programs@[0].loader@ == sdk::spec_upgradeable_loader_id(),
        r.upgradeable_programs@[0].program_path@ == text::spec_path_join(
            elf_directory@,
            "cbm_program_activator.so"@,
        ),
{
    let n = targets.len();
    let mut deactivate_features: Vec<String> = Vec::new();
    let mut accounts: Vec<AccountSpec> = Vec::new();
    let mut i: usize = 0;
    while i < n
        invariant
            i <= n,
            n == targets@.len(),
            n == elves@.len(),
            forall|k: int| 0 <= k < n ==> (#[trigger] elves@[k])@.len() + 37 <= usize::MAX,
            deactivate_features@.len() == i,
            forall|k: int|
                0 <= k < i ==> (#[trigger] deactivate_features@[k])@ == targets@[k].feature_id@,
            accounts@.len() == 2 * i,
            forall|k: int|
                0 <= k < i ==> {
                    let staged = #[trigger] accounts@[2 * k];
                    staged.address@ == targets@[k].feature_id@ && staged.owner@
                        == spec_activator_program_id() && staged.lamports
                        == sdk::rent_exempt_minimum_of(9) && staged.data@
                        == spec_staged_feature_data()
                },
            forall|k: int|
                0 <= k < i ==> {
                    let buffer = #[trigger] accounts@[2 * k + 1];
                    buffer.address@ == targets@[k].buffer_address@ && buffer.owner@
                        == sdk::spec_upgradeable_loader_id() && buffer.lamports
                        == sdk::rent_exempt_minimum_of(37 + elves@[k]@.len() as int) && buffer.data@
                        == spec_buffer_account_data(elves@[k]@)
                },
        decreases n - i,
    {
        deactivate_features.push(targets[i].feature_id.clone());
        accounts.push(staged_feature_account(targets[i].feature_id.as_str()));
        accounts.push(buffer_account(targets[i].buffer_address.as_str(), elves[i].as_slice()));
        i += 1;
    }
    let mut upgradeable_programs: Vec<UpgradeableProgramSpec> = Vec::new();
    upgradeable_programs.push(
        UpgradeableProgramSpec {
            program_id: crate::activator::activator_program_id(),
            loader: sdk::upgradeable_loader_id(),
            program_path: text::path_join(elf_directory, "cbm_program_activator.so"),
        },
    );
    GenesisPlan {
        slots_per_epoch,
        deactivate_features,
        accounts,
        upgradeable_programs,
        enable_transaction_history: true,
    }
}

} // verus!
