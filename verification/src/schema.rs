//! The introspection table behind the `schema` method: the parameter and
//! result shape of every method, in both directions.
use vstd::prelude::*;

use crate::method::{str_is, Method};

verus! {

/// Which side of a call a schema describes.
#[derive(Clone, Copy, PartialEq, Eq, Structural, Debug)]
pub enum Direction {
    Request,
    Response,
}

/// The direction named by `s`, if any.
pub open spec fn spec_parse_direction(s: Seq<char>) -> Option<Direction> {
    if s == "request"@ {
        Some(Direction::Request)
    } else if s == "response"@ {
        Some(Direction::Response)
    } else {
        None
    }
}

/// Resolves a direction name.
pub fn parse_direction(s: &String) -> (r: Option<Direction>)
    ensures
        r == spec_parse_direction(s@),
{
    if str_is(s, "request") {
        Some(Direction::Request)
    } else if str_is(s, "response") {
        Some(Direction::Response)
    } else {
        None
    }
}

/// The JSON kind of a field.
#[derive(Clone, Copy, PartialEq, Eq, Structural, Debug)]
pub enum FieldKind {
    Str,
    Num,
    Bool,
    Arr,
    Obj,
}

/// The closed set of field names used across all method shapes.
#[derive(Clone, Copy, PartialEq, Eq, Structural, Debug)]
pub enum FieldName {
    Address,
    AddressAsset,
    AddressToken,
    Addressees,
    AssetId,
    Balance,
    ContractData,
    Descriptor,
    DescriptorBlindingKey,
    Direction,
    Domain,
    DryRun,
    Entity,
    FeeRate,
    Fields,
    Fingerprint,
    HasSignaturesFrom,
    Id,
    Index,
    IssuerPubkey,
    KeyoriginXpub,
    KeyoriginXpubs,
    Kind,
    Method,
    MissingSignaturesFrom,
    Mnemonic,
    MultisigKind,
    Name,
    Precision,
    Pset,
    Psets,
    SatoshiAsset,
    SatoshiToken,
    Signers,
    SinglesigKind,
    Threshold,
    Ticker,
    Txid,
    Unloaded,
    Version,
    WalletKind,
    Wallets,
    Warnings,
    Xpub,
    XpubKind,
}

/// One field of a method's parameter or result shape.
#[derive(Clone, Copy, PartialEq, Eq, Structural, Debug)]
pub struct SchemaField {
    pub name: FieldName,
    pub kind: FieldKind,
    pub required: bool,
}

/// The shape of a method's parameters or result.
pub open spec fn spec_schema(m: Method, d: Direction) -> Seq<SchemaField> {
    match d {
        Direction::Request => match m {
            Method::Schema => seq![SchemaField { name: FieldName::Method, kind: FieldKind::Str, required: true }, SchemaField { name: FieldName::Direction, kind: FieldKind::Str, required: true }],
            Method::GenerateSigner => Seq::<SchemaField>::empty(),
            Method::Version => Seq::<SchemaField>::empty(),
            Method::LoadWallet => seq![SchemaField { name: FieldName::Name, kind: FieldKind::Str, required: true }, SchemaField { name: FieldName::Descriptor, kind: FieldKind::Str, required: true }],
            Method::UnloadWallet => seq![SchemaField { name: FieldName::Name, kind: FieldKind::Str, required: true }],
            Method::ListWallets => Seq::<SchemaField>::empty(),
            Method::LoadSigner => seq![SchemaField { name: FieldName::Name, kind: FieldKind::Str, required: true }, SchemaField { name: FieldName::Kind, kind: FieldKind::Str, required: true }, SchemaField { name: FieldName::Mnemonic, kind: FieldKind::Str, required: false }, SchemaField { name: FieldName::Fingerprint, kind: FieldKind::Str, required: false }],
            Method::UnloadSigner => seq![SchemaField { name: FieldName::Name, kind: FieldKind::Str, required: true }],
            Method::ListSigners => Seq::<SchemaField>::empty(),
            Method::Address => seq![SchemaField { name: FieldName::Name, kind: FieldKind::Str, required: true }, SchemaField { name: FieldName::Index, kind: FieldKind::Num, required: false }],
            Method::Balance => seq![SchemaField { name: FieldName::Name, kind: FieldKind::Str, required: true }],
            Method::SendMany => seq![SchemaField { name: FieldName::Name, kind: FieldKind::Str, required: true }, SchemaField { name: FieldName::Addressees, kind: FieldKind::Arr, required: true }, SchemaField { name: FieldName::FeeRate, kind: FieldKind::Num, required: false }],
            Method::SinglesigDescriptor => seq![SchemaField { name: FieldName::Name, kind: FieldKind::Str, required: true }, SchemaField { name: FieldName::SinglesigKind, kind: FieldKind::Str, required: true }, SchemaField { name: FieldName::DescriptorBlindingKey, kind: FieldKind::Str, required: true }],
            Method::MultisigDescriptor => seq![SchemaField { name: FieldName::Threshold, kind: FieldKind::Num, required: true }, SchemaField { name: FieldName::KeyoriginXpubs, kind: FieldKind::Arr, required: true }, SchemaField { name: FieldName::MultisigKind, kind: FieldKind::Str, required: true }, SchemaField { name: FieldName::DescriptorBlindingKey, kind: FieldKind::Str, required: true }],
            Method::Xpub => seq![SchemaField { name: FieldName::Name, kind: FieldKind::Str, required: true }, SchemaField { name: FieldName::XpubKind, kind: FieldKind::Str, required: true }],
            Method::Sign => seq![SchemaField { name: FieldName::Name, kind: FieldKind::Str, required: true }, SchemaField { name: FieldName::Pset, kind: FieldKind::Str, required: true }],
            Method::Broadcast => seq![SchemaField { name: FieldName::Name, kind: FieldKind::Str, required: true }, SchemaField { name: FieldName::Pset, kind: FieldKind::Str, required: true }, SchemaField { name: FieldName::DryRun, kind: FieldKind::Bool, required: false }],
            Method::WalletDetails => seq![SchemaField { name: FieldName::Name, kind: FieldKind::Str, required: true }],
            Method::WalletCombine => seq![SchemaField { name: FieldName::Name, kind: FieldKind::Str, required: true }, SchemaField { name: FieldName::Psets, kind: FieldKind::Arr, required: true }],
            Method::WalletPsetDetails => seq![SchemaField { name: FieldName::Name, kind: FieldKind::Str, required: true }, SchemaField { name: FieldName::Pset, kind: FieldKind::Str, required: true }],
            Method::Issue => seq![SchemaField { name: FieldName::Name, kind: FieldKind::Str, required: true }, SchemaField { name: FieldName::SatoshiAsset, kind: FieldKind::Num, required: true }, SchemaField { name: FieldName::AddressAsset, kind: FieldKind::Str, required: false }, SchemaField { name: FieldName::SatoshiToken, kind: FieldKind::Num, required: true }, SchemaField { name: FieldName::AddressToken, kind: FieldKind::Str, required: false }, SchemaField { name: FieldName::ContractData, kind: FieldKind::Str, required: false }],
            Method::Contract => seq![SchemaField { name: FieldName::Domain, kind: FieldKind::Str, required: true }, SchemaField { name: FieldName::IssuerPubkey, kind: FieldKind::Str, required: true }, SchemaField { name: FieldName::Name, kind: FieldKind::Str, required: true }, SchemaField { name: FieldName::Precision, kind: FieldKind::Num, required: true }, SchemaField { name: FieldName::Ticker, kind: FieldKind::Str, required: true }, SchemaField { name: FieldName::Version, kind: FieldKind::Num, required: true }],
            Method::AssetDetails => seq![SchemaField { name: FieldName::AssetId, kind: FieldKind::Str, required: true }],
            Method::Stop => Seq::<SchemaField>::empty(),
        },
        Direction::Response => match m {
            Method::Schema => seq![SchemaField { name: FieldName::Fields, kind: FieldKind::Arr, required: true }],
            Method::GenerateSigner => seq![SchemaField { name: FieldName::Mnemonic, kind: FieldKind::Str, required: true }],
            Method::Version => seq![SchemaField { name: FieldName::Version, kind: FieldKind::Str, required: true }],
            Method::LoadWallet => seq![SchemaField { name: FieldName::Name, kind: FieldKind::Str, required: true }, SchemaField { name: FieldName::Descriptor, kind: FieldKind::Str, required: true }],
            Method::UnloadWallet => seq![SchemaField { name: FieldName::Unloaded, kind: FieldKind::Obj, required: true }],
            Method::ListWallets => seq![SchemaField { name: FieldName::Wallets, kind: FieldKind::Arr, required: true }],
            Method::LoadSigner => seq![SchemaField { name: FieldName::Name, kind: FieldKind::Str, required: true }, SchemaField { name: FieldName::Fingerprint, kind: FieldKind::Num, required: true }, SchemaField { name: FieldName::Id, kind: FieldKind::Str, required: false }, SchemaField { name: FieldName::Xpub, kind: FieldKind::Str, required: false }],
            Method::UnloadSigner => seq![SchemaField { name: FieldName::Unloaded, kind: FieldKind::Obj, required: true }],
            Method::ListSigners => seq![SchemaField { name: FieldName::Signers, kind: FieldKind::Arr, required: true }],
            Method::Address => seq![SchemaField { name: FieldName::Address, kind: FieldKind::Str, required: true }, SchemaField { name: FieldName::Index, kind: FieldKind::Num, required: true }],
            Method::Balance => seq![SchemaField { name: FieldName::Balance, kind: FieldKind::Obj, required: true }],
            Method::SendMany => seq![SchemaField { name: FieldName::Pset, kind: FieldKind::Str, required: true }],
            Method::SinglesigDescriptor => seq![SchemaField { name: FieldName::Descriptor, kind: FieldKind::Str, required: true }],
            Method::MultisigDescriptor => seq![SchemaField { name: FieldName::Descriptor, kind: FieldKind::Str, required: true }],
            Method::Xpub => seq![SchemaField { name: FieldName::KeyoriginXpub, kind: FieldKind::Str, required: true }],
            Method::Sign => seq![SchemaField { name: FieldName::Pset, kind: FieldKind::Str, required: true }],
            Method::Broadcast => seq![SchemaField { name: FieldName::Txid, kind: FieldKind::Str, required: true }],
            Method::WalletDetails => seq![SchemaField { name: FieldName::WalletKind, kind: FieldKind::Str, required: true }, SchemaField { name: FieldName::Signers, kind: FieldKind::Arr, required: true }, SchemaField { name: FieldName::Warnings, kind: FieldKind::Str, required: true }],
            Method::WalletCombine => seq![SchemaField { name: FieldName::Pset, kind: FieldKind::Str, required: true }],
            Method::WalletPsetDetails => seq![SchemaField { name: FieldName::HasSignaturesFrom, kind: FieldKind::Arr, required: true }, SchemaField { name: FieldName::MissingSignaturesFrom, kind: FieldKind::Arr, required: true }, SchemaField { name: FieldName::Warnings, kind: FieldKind::Str, required: true }],
            Method::Issue => seq![SchemaField { name: FieldName::Pset, kind: FieldKind::Str, required: true }],
            Method::Contract => seq![SchemaField { name: FieldName::Entity, kind: FieldKind::Obj, required: true }, SchemaField { name: FieldName::IssuerPubkey, kind: FieldKind::Str, required: true }, SchemaField { name: FieldName::Name, kind: FieldKind::Str, required: true }, SchemaField { name: FieldName::Precision, kind: FieldKind::Num, required: true }, SchemaField { name: FieldName::Ticker, kind: FieldKind::Str, required: true }, SchemaField { name: FieldName::Version, kind: FieldKind::Num, required: true }],
            Method::AssetDetails => seq![SchemaField { name: FieldName::Name, kind: FieldKind::Str, required: true }],
            Method::Stop => Seq::<SchemaField>::empty(),
        },
    }
}

/// The schema of method `m` in direction `d`.
pub fn schema(m: Method, d: Direction) -> (r: Vec<SchemaField>)
    ensures
        r@ == spec_schema(m, d),
{
    let r: Vec<SchemaField> = match d {
        Direction::Request => match m {
            Method::Schema => vec![SchemaField { name: FieldName::Method, kind: FieldKind::Str, required: true }, SchemaField { name: FieldName::Direction, kind: FieldKind::Str, required: true }],
            Method::GenerateSigner => Vec::new(),
            Method::Version => Vec::new(),
            Method::LoadWallet => vec![SchemaField { name: FieldName::Name, kind: FieldKind::Str, required: true }, SchemaField { name: FieldName::Descriptor, kind: FieldKind::Str, required: true }],
            Method::UnloadWallet => vec![SchemaField { name: FieldName::Name, kind: FieldKind::Str, required: true }],
            Method::ListWallets => Vec::new(),
            Method::LoadSigner => vec![SchemaField { name: FieldName::Name, kind: FieldKind::Str, required: true }, SchemaField { name: FieldName::Kind, kind: FieldKind::Str, required: true }, SchemaField { name: FieldName::Mnemonic, kind: FieldKind::Str, required: false }, SchemaField { name: FieldName::Fingerprint, kind: FieldKind::Str, required: false }],
            Method::UnloadSigner => vec![SchemaField { name: FieldName::Name, kind: FieldKind::Str, required: true }],
            Method::ListSigners => Vec::new(),
            Method::Address => vec![SchemaField { name: FieldName::Name, kind: FieldKind::Str, required: true }, SchemaField { name: FieldName::Index, kind: FieldKind::Num, required: false }],
            Method::Balance => vec![SchemaField { name: FieldName::Name, kind: FieldKind::Str, required: true }],
            Method::SendMany => vec![SchemaField { name: FieldName::Name, kind: FieldKind::Str, required: true }, SchemaField { name: FieldName::Addressees, kind: FieldKind::Arr, required: true }, SchemaField { name: FieldName::FeeRate, kind: FieldKind::Num, required: false }],
            Method::SinglesigDescriptor => vec![SchemaField { name: FieldName::Name, kind: FieldKind::Str, required: true }, SchemaField { name: FieldName::SinglesigKind, kind: FieldKind::Str, required: true }, SchemaField { name: FieldName::DescriptorBlindingKey, kind: FieldKind::Str, required: true }],
            Method::MultisigDescriptor => vec![SchemaField { name: FieldName::Threshold, kind: FieldKind::Num, required: true }, SchemaField { name: FieldName::KeyoriginXpubs, kind: FieldKind::Arr, required: true }, SchemaField { name: FieldName::MultisigKind, kind: FieldKind::Str, required: true }, SchemaField { name: FieldName::DescriptorBlindingKey, kind: FieldKind::Str, required: true }],
            Method::Xpub => vec![SchemaField { name: FieldName::Name, kind: FieldKind::Str, required: true }, SchemaField { name: FieldName::XpubKind, kind: FieldKind::Str, required: true }],
            Method::Sign => vec![SchemaField { name: FieldName::Name, kind: FieldKind::Str, required: true }, SchemaField { name: FieldName::Pset, kind: FieldKind::Str, required: true }],
            Method::Broadcast => vec![SchemaField { name: FieldName::Name, kind: FieldKind::Str, required: true }, SchemaField { name: FieldName::Pset, kind: FieldKind::Str, required: true }, SchemaField { name: FieldName::DryRun, kind: FieldKind::Bool, required: false }],
            Method::WalletDetails => vec![SchemaField { name: FieldName::Name, kind: FieldKind::Str, required: true }],
            Method::WalletCombine => vec![SchemaField { name: FieldName::Name, kind: FieldKind::Str, required: true }, SchemaField { name: FieldName::Psets, kind: FieldKind::Arr, required: true }],
            Method::WalletPsetDetails => vec![SchemaField { name: FieldName::Name, kind: FieldKind::Str, required: true }, SchemaField { name: FieldName::Pset, kind: FieldKind::Str, required: true }],
            Method::Issue => vec![SchemaField { name: FieldName::Name, kind: FieldKind::Str, required: true }, SchemaField { name: FieldName::SatoshiAsset, kind: FieldKind::Num, required: true }, SchemaField { name: FieldName::AddressAsset, kind: FieldKind::Str, required: false }, SchemaField { name: FieldName::SatoshiToken, kind: FieldKind::Num, required: true }, SchemaField { name: FieldName::AddressToken, kind: FieldKind::Str, required: false }, SchemaField { name: FieldName::ContractData, kind: FieldKind::Str, required: false }],
            Method::Contract => vec![SchemaField { name: FieldName::Domain, kind: FieldKind::Str, required: true }, SchemaField { name: FieldName::IssuerPubkey, kind: FieldKind::Str, required: true }, SchemaField { name: FieldName::Name, kind: FieldKind::Str, required: true }, SchemaField { name: FieldName::Precision, kind: FieldKind::Num, required: true }, SchemaField { name: FieldName::Ticker, kind: FieldKind::Str, required: true }, SchemaField { name: FieldName::Version, kind: FieldKind::Num, required: true }],
            Method::AssetDetails => vec![SchemaField { name: FieldName::AssetId, kind: FieldKind::Str, required: true }],
            Method::Stop => Vec::new(),
        },
        Direction::Response => match m {
            Method::Schema => vec![SchemaField { name: FieldName::Fields, kind: FieldKind::Arr, required: true }],
            Method::GenerateSigner => vec![SchemaField { name: FieldName::Mnemonic, kind: FieldKind::Str, required: true }],
            Method::Version => vec![SchemaField { name: FieldName::Version, kind: FieldKind::Str, required: true }],
            Method::LoadWallet => vec![SchemaField { name: FieldName::Name, kind: FieldKind::Str, required: true }, SchemaField { name: FieldName::Descriptor, kind: FieldKind::Str, required: true }],
            Method::UnloadWallet => vec![SchemaField { name: FieldName::Unloaded, kind: FieldKind::Obj, required: true }],
            Method::ListWallets => vec![SchemaField { name: FieldName::Wallets, kind: FieldKind::Arr, required: true }],
            Method::LoadSigner => vec![SchemaField { name: FieldName::Name, kind: FieldKind::Str, required: true }, SchemaField { name: FieldName::Fingerprint, kind: FieldKind::Num, required: true }, SchemaField { name: FieldName::Id, kind: FieldKind::Str, required: false }, SchemaField { name: FieldName::Xpub, kind: FieldKind::Str, required: false }],
            Method::UnloadSigner => vec![SchemaField { name: FieldName::Unloaded, kind: FieldKind::Obj, required: true }],
            Method::ListSigners => vec![SchemaField { name: FieldName::Signers, kind: FieldKind::Arr, required: true }],
            Method::Address => vec![SchemaField { name: FieldName::Address, kind: FieldKind::Str, required: true }, SchemaField { name: FieldName::Index, kind: FieldKind::Num, required: true }],
            Method::Balance => vec![SchemaField { name: FieldName::Balance, kind: FieldKind::Obj, required: true }],
            Method::SendMany => vec![SchemaField { name: FieldName::Pset, kind: FieldKind::Str, required: true }],
            Method::SinglesigDescriptor => vec![SchemaField { name: FieldName::Descriptor, kind: FieldKind::Str, required: true }],
            Method::MultisigDescriptor => vec![SchemaField { name: FieldName::Descriptor, kind: FieldKind::Str, required: true }],
            Method::Xpub => vec![SchemaField { name: FieldName::KeyoriginXpub, kind: FieldKind::Str, required: true }],
            Method::Sign => vec![SchemaField { name: FieldName::Pset, kind: FieldKind::Str, required: true }],
            Method::Broadcast => vec![SchemaField { name: FieldName::Txid, kind: FieldKind::Str, required: true }],
            Method::WalletDetails => vec![SchemaField { name: FieldName::WalletKind, kind: FieldKind::Str, required: true }, SchemaField { name: FieldName::Signers, kind: FieldKind::Arr, required: true }, SchemaField { name: FieldName::Warnings, kind: FieldKind::Str, required: true }],
            Method::WalletCombine => vec![SchemaField { name: FieldName::Pset, kind: FieldKind::Str, required: true }],
            Method::WalletPsetDetails => vec![SchemaField { name: FieldName::HasSignaturesFrom, kind: FieldKind::Arr, required: true }, SchemaField { name: FieldName::MissingSignaturesFrom, kind: FieldKind::Arr, required: true }, SchemaField { name: FieldName::Warnings, kind: FieldKind::Str, required: true }],
            Method::Issue => vec![SchemaField { name: FieldName::Pset, kind: FieldKind::Str, required: true }],
            Method::Contract => vec![SchemaField { name: FieldName::Entity, kind: FieldKind::Obj, required: true }, SchemaField { name: FieldName::IssuerPubkey, kind: FieldKind::Str, required: true }, SchemaField { name: FieldName::Name, kind: FieldKind::Str, required: true }, SchemaField { name: FieldName::Precision, kind: FieldKind::Num, required: true }, SchemaField { name: FieldName::Ticker, kind: FieldKind::Str, required: true }, SchemaField { name: FieldName::Version, kind: FieldKind::Num, required: true }],
            Method::AssetDetails => vec![SchemaField { name: FieldName::Name, kind: FieldKind::Str, required: true }],
            Method::Stop => Vec::new(),
        },
    };
    proof {
        assert(r@ =~= spec_schema(m, d));
    }
    r
}

} // verus!
