//! Identities and account-sizing facts taken from the runtime SDK.
//!
//! Every function here is a trusted wrapper around one `solana_sdk`
//! item. Program addresses are carried through the library in their
//! base58 text form, which is how the SDK itself renders and parses
//! them; each wrapper converts the SDK's address value to that form.

use vstd::prelude::*;

verus! {

/// The reserved owner of builtin programs.
pub open spec fn spec_native_loader_id() -> Seq<char> {
    "NativeLoader1111111111111111111111111111111"@
}

/// The owner of programs loaded through the upgradeable loader.
pub open spec fn spec_upgradeable_loader_id() -> Seq<char> {
    "BPFLoaderUpgradeab1e11111111111111111111111"@
}

/// The feature-gate program's address.
pub open spec fn spec_feature_program_id() -> Seq<char> {
    "Feature111111111111111111111111111111111111"@
}

/// The config program's address.
pub open spec fn spec_config_program_id() -> Seq<char> {
    "Config1111111111111111111111111111111111111"@
}

/// The address-lookup-table program's address.
pub open spec fn spec_address_lookup_table_program_id() -> Seq<char> {
    "AddressLookupTab1e1111111111111111111111111"@
}

/// The feature gate for migrating the feature-gate program.
pub open spec fn spec_migrate_feature_gate_feature_id() -> Seq<char> {
    "4eohviozzEeivk1y9UbrnekbAFMDQyJz5JjA9Y6gyvky"@
}

/// The feature gate for migrating the config program.
pub open spec fn spec_migrate_config_feature_id() -> Seq<char> {
    "2Fr57nzzkLYXW695UdDxDeR5fhnZWSttZeZYemrnpGFV"@
}

/// The feature gate for migrating the address-lookup-table program.
pub open spec fn spec_migrate_address_lookup_table_feature_id() -> Seq<char> {
    "C97eKZygrkU4JxJsZdjgbUY7iQR7rKTr4NyDWo2E5pRm"@
}

/// Relies on `solana_sdk::native_loader::id`, declared in the SDK as
/// `NativeLoader1111111111111111111111111111111`; `to_string` renders
/// an address in base58, the form it was declared in.
#[verifier::external_body]
pub(crate) fn native_loader_id() -> (r: String)
    ensures
        r@ == spec_native_loader_id(),
{
    solana_sdk::native_loader::id().to_string()
}

/// Relies on `solana_sdk::bpf_loader_upgradeable::id`, declared in the
/// SDK as `BPFLoaderUpgradeab1e11111111111111111111111`.
#[verifier::external_body]
pub(crate) fn upgradeable_loader_id() -> (r: String)
    ensures
        r@ == spec_upgradeable_loader_id(),
{
    solana_sdk::bpf_loader_upgradeable::id().to_string()
}

/// Relies on `solana_sdk::feature::id`, declared in the SDK as
/// `Feature111111111111111111111111111111111111`.
#[verifier::external_body]
pub(crate) fn feature_program_id() -> (r: String)
    ensures
        r@ == spec_feature_program_id(),
{
    solana_sdk::feature::id().to_string()
}

/// Relies on `solana_sdk::config::program::id`, declared in the SDK as
/// `Config1111111111111111111111111111111111111`.
#[verifier::external_body]
pub(crate) fn config_program_id() -> (r: String)
    ensures
        r@ == spec_config_program_id(),
{
    solana_sdk::config::program::id().to_string()
}

/// Relies on `solana_sdk::address_lookup_table::program::id`, declared
/// in the SDK as `AddressLookupTab1e1111111111111111111111111`.
#[verifier::external_body]
pub(crate) fn address_lookup_table_program_id() -> (r: String)
    ensures
        r@ == spec_address_lookup_table_program_id(),
{
    solana_sdk::address_lookup_table::program::id().to_string()
}

/// Relies on
/// `solana_sdk::feature_set::migrate_feature_gate_program_to_core_bpf::id`,
/// declared in the SDK as
/// `4eohviozzEeivk1y9UbrnekbAFMDQyJz5JjA9Y6gyvky`.
#[verifier::external_body]
pub(crate) fn migrate_feature_gate_feature_id() -> (r: String)
    ensures
        r@ == spec_migrate_feature_gate_feature_id(),
{
    solana_sdk::feature_set::migrate_feature_gate_program_to_core_bpf::id().to_string()
}

/// Relies on
/// `solana_sdk::feature_set::migrate_config_program_to_core_bpf::id`,
/// declared in the SDK as
/// `2Fr57nzzkLYXW695UdDxDeR5fhnZWSttZeZYemrnpGFV`.
#[verifier::external_body]
pub(crate) fn migrate_config_feature_id() -> (r: String)
    ensures
        r@ == spec_migrate_config_feature_id(),
{
    solana_sdk::feature_set::migrate_config_program_to_core_bpf::id().to_string()
}

/// Relies on
/// `solana_sdk::feature_set::migrate_address_lookup_table_program_to_core_bpf::id`,
/// declared in the SDK as
/// `C97eKZygrkU4JxJsZdjgbUY7iQR7rKTr4NyDWo2E5pRm`.
#[verifier::external_body]
pub(crate) fn migrate_address_lookup_table_feature_id() -> (r: String)
    ensures
        r@ == spec_migrate_address_lookup_table_feature_id(),
{
    solana_sdk::feature_set::migrate_address_lookup_table_program_to_core_bpf::id().to_string()
}

/// The system program's address.
pub open spec fn spec_system_program_id() -> Seq<char> {
    "11111111111111111111111111111111"@
}

/// Relies on `solana_sdk::system_program::id`, declared in the SDK as
/// `11111111111111111111111111111111`.
#[verifier::external_body]
pub(crate) fn system_program_id() -> (r: String)
    ensures
        r@ == spec_system_program_id(),
{
    solana_sdk::system_program::id().to_string()
}

/// The rent-exempt minimum balance that the default rent configuration
/// assigns to an account of the given size. The SDK computes it from
/// the account size alone (default rent parameters are compiled-in
/// constants), so the value is a function of `space`.
pub uninterp spec fn rent_exempt_minimum_of(space: int) -> u64;

/// Relies on `solana_sdk::rent::Rent::minimum_balance` with
/// `Rent::default()`: the rent-exempt minimum for an account of
/// `space` bytes.
#[verifier::external_body]
pub(crate) fn rent_exempt_minimum(space: usize) -> (r: u64)
    ensures
        r == rent_exempt_minimum_of(space as int),
{
    solana_sdk::rent::Rent::default().minimum_balance(space)
}

/// Relies on `solana_sdk::feature::Feature::size_of`, whose body in
/// the SDK is the literal `9`: the serialized size of the feature
/// account state.
#[verifier::external_body]
pub(crate) fn feature_account_size() -> (r: usize)
    ensures
        r == 9,
{
    solana_sdk::feature::Feature::size_of()
}

/// Relies on
/// `solana_sdk::bpf_loader_upgradeable::UpgradeableLoaderState::size_of_buffer_metadata`,
/// whose body in the SDK is the literal `37`: the size of the metadata
/// header that precedes the code bytes in a buffer account.
#[verifier::external_body]
pub(crate) fn buffer_metadata_size() -> (r: usize)
    ensures
        r == 37,
{
    solana_sdk::bpf_loader_upgradeable::UpgradeableLoaderState::size_of_buffer_metadata()
}

} // verus!
