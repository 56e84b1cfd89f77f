use vstd::prelude::*;

verus! {

/// Failures of the issuing program's workflows. Every failure leaves the ledger as it was.
#[derive(Clone, Copy, Debug, PartialEq, Eq, Structural)]
pub enum ProgramError {
    /// The caller is not the administrator stored in the configuration record.
    Unauthorized,
    /// The singleton record (configuration, mint, collection, item) already exists.
    AlreadyInitialized,
    /// The configuration record has not been created yet.
    NotInitialized,
    /// The fungible mint has not been created yet.
    TokenNotCreated,
    /// The collection mint has not been created yet.
    CollectionNotCreated,
    /// No bump byte gives an address off the signing curve.
    NoValidDerivation,
    /// The mint authority was revoked; no more units can be minted.
    AuthorityRevoked,
    /// The burn asks for more than the holder's balance.
    InsufficientBalance,
    /// A balance would no longer fit in 64 bits.
    Overflow,
    /// The metadata registry refused a record (a field too long, a collection that is not sized).
    RegistryRejected,
    /// The companion instruction does not carry the claimed signature.
    SigVerificationFailed,
}

/// Errors of the marketplace part of the program.
#[derive(Clone, Copy, Debug, PartialEq, Eq, Structural)]
pub enum MarketPlaceError {
    ItemCanceledInvalid,
    InsufficientBalance,
}

/// Errors of the signature cross-check.
#[derive(Clone, Copy, Debug, PartialEq, Eq, Structural)]
pub enum SigError {
    SigVerificationFailed,
}

impl MarketPlaceError {
    pub fn message(&self) -> (r: &'static str)
        ensures
            *self == MarketPlaceError::ItemCanceledInvalid ==> r@ == "Item is canceled !"@,
            *self == MarketPlaceError::InsufficientBalance ==> r@ == "Insufficient balance !"@,
    {
        proof {
            reveal_strlit("Item is canceled !");
            reveal_strlit("Insufficient balance !");
        }
        match self {
            MarketPlaceError::ItemCanceledInvalid => "Item is canceled !",
            MarketPlaceError::InsufficientBalance => "Insufficient balance !",
        }
    }
}

impl SigError {
    pub fn message(&self) -> (r: &'static str)
        ensures
            r@ == "Signature verification failed."@,
    {
        proof {
            reveal_strlit("Signature verification failed.");
        }
        match self {
            SigError::SigVerificationFailed => "Signature verification failed.",
        }
    }
}

} // verus!
