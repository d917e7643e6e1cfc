//! The closed set of RPC methods and the parser from a method name.
use vstd::prelude::*;
use vstd::string::*;

verus! {

/// Every method the dispatcher routes. An unknown name is not an error of
/// the transport: it yields an "unimplemented" response.
#[derive(Clone, Copy, PartialEq, Eq, Structural, Debug)]
pub enum Method {
    Schema,
    GenerateSigner,
    Version,
    LoadWallet,
    UnloadWallet,
    ListWallets,
    LoadSigner,
    UnloadSigner,
    ListSigners,
    Address,
    Balance,
    SendMany,
    SinglesigDescriptor,
    MultisigDescriptor,
    Xpub,
    Sign,
    Broadcast,
    WalletDetails,
    WalletCombine,
    WalletPsetDetails,
    Issue,
    Contract,
    AssetDetails,
    Stop,
}

/// The method named by `s`, if any.
pub open spec fn spec_parse_method(s: Seq<char>) -> Option<Method> {
    if s == "schema"@ {
        Some(Method::Schema)
    } else if s == "generate_signer"@ {
        Some(Method::GenerateSigner)
    } else if s == "version"@ {
        Some(Method::Version)
    } else if s == "load_wallet"@ {
        Some(Method::LoadWallet)
    } else if s == "unload_wallet"@ {
        Some(Method::UnloadWallet)
    } else if s == "list_wallets"@ {
        Some(Method::ListWallets)
    } else if s == "load_signer"@ {
        Some(Method::LoadSigner)
    } else if s == "unload_signer"@ {
        Some(Method::UnloadSigner)
    } else if s == "list_signers"@ {
        Some(Method::ListSigners)
    } else if s == "address"@ {
        Some(Method::Address)
    } else if s == "balance"@ {
        Some(Method::Balance)
    } else if s == "send_many"@ {
        Some(Method::SendMany)
    } else if s == "singlesig_descriptor"@ {
        Some(Method::SinglesigDescriptor)
    } else if s == "multisig_descriptor"@ {
        Some(Method::MultisigDescriptor)
    } else if s == "xpub"@ {
        Some(Method::Xpub)
    } else if s == "sign"@ {
        Some(Method::Sign)
    } else if s == "broadcast"@ {
        Some(Method::Broadcast)
    } else if s == "wallet_details"@ {
        Some(Method::WalletDetails)
    } else if s == "wallet_combine"@ {
        Some(Method::WalletCombine)
    } else if s == "wallet_pset_details"@ {
        Some(Method::WalletPsetDetails)
    } else if s == "issue"@ {
        Some(Method::Issue)
    } else if s == "contract"@ {
        Some(Method::Contract)
    } else if s == "asset_details"@ {
        Some(Method::AssetDetails)
    } else if s == "stop"@ {
        Some(Method::Stop)
    } else {
        None
    }
}

/// Whether `s` spells exactly the literal `lit`.
pub fn str_is(s: &String, lit: &str) -> (b: bool)
    ensures
        b == (s@ == lit@),
{
    let l = String::from_str(lit);
    *s == l
}

/// Resolves a method name to the closed method set.
pub fn parse_method(s: &String) -> (r: Option<Method>)
    ensures
        r == spec_parse_method(s@),
{
    if str_is(s, "schema") {
        Some(Method::Schema)
    } else if str_is(s, "generate_signer") {
        Some(Method::GenerateSigner)
    } else if str_is(s, "version") {
        Some(Method::Version)
    } else if str_is(s, "load_wallet") {
        Some(Method::LoadWallet)
    } else if str_is(s, "unload_wallet") {
        Some(Method::UnloadWallet)
    } else if str_is(s, "list_wallets") {
        Some(Method::ListWallets)
    } else if str_is(s, "load_signer") {
        Some(Method::LoadSigner)
    } else if str_is(s, "unload_signer") {
        Some(Method::UnloadSigner)
    } else if str_is(s, "list_signers") {
        Some(Method::ListSigners)
    } else if str_is(s, "address") {
        Some(Method::Address)
    } else if str_is(s, "balance") {
        Some(Method::Balance)
    } else if str_is(s, "send_many") {
        Some(Method::SendMany)
    } else if str_is(s, "singlesig_descriptor") {
        Some(Method::SinglesigDescriptor)
    } else if str_is(s, "multisig_descriptor") {
        Some(Method::MultisigDescriptor)
    } else if str_is(s, "xpub") {
        Some(Method::Xpub)
    } else if str_is(s, "sign") {
        Some(Method::Sign)
    } else if str_is(s, "broadcast") {
        Some(Method::Broadcast)
    } else if str_is(s, "wallet_details") {
        Some(Method::WalletDetails)
    } else if str_is(s, "wallet_combine") {
        Some(Method::WalletCombine)
    } else if str_is(s, "wallet_pset_details") {
        Some(Method::WalletPsetDetails)
    } else if str_is(s, "issue") {
        Some(Method::Issue)
    } else if str_is(s, "contract") {
        Some(Method::Contract)
    } else if str_is(s, "asset_details") {
        Some(Method::AssetDetails)
    } else if str_is(s, "stop") {
        Some(Method::Stop)
    } else {
        None
    }
}

} // verus!
