//! The plain data of the registry: accounts, balances, kitties, events and errors.

use vstd::prelude::*;

verus! {

/// An account of the hosting ledger.
pub type AccountId = u64;

/// An amount of the hosting ledger's currency.
pub type Balance = u128;

/// The identifier of a kitty, and the shape of its genome: sixteen opaque bytes,
/// compared by value.
pub type KittyId = [u8; 16];

/// The sex of a kitty.
#[derive(Clone, Copy, Debug, PartialEq, Eq, Structural)]
pub enum Gender {
    Female,
    Male,
}

/// One kitty as the asset store holds it.
#[derive(Clone, Copy, Debug, PartialEq, Eq)]
pub struct Kitty {
    /// The identifier, fixed at mint.
    pub id: KittyId,
    /// The genome, fixed at mint. A kitty that was not bred carries its identifier here.
    pub dna: KittyId,
    /// The asking price; `None` means the kitty is not for sale.
    pub price: Option<Balance>,
    pub gender: Gender,
    /// The account that holds the kitty.
    pub owner: AccountId,
}

/// What the host supplies for one call: entropy and the position of the call in the chain.
#[derive(Clone, Copy, Debug, PartialEq, Eq)]
pub struct ChainContext {
    /// Output of the randomness beacon.
    pub random: [u8; 32],
    /// Sequence number of the call within its block.
    pub extrinsic_index: u32,
    /// Height of the block that holds the call.
    pub block_number: u64,
}

/// The constants and policies that the host fixes for a registry.
#[derive(Clone, Copy, Debug, PartialEq, Eq, Structural)]
pub struct Config {
    /// The most kitties that one account may hold.
    pub max_kitties_owned: u32,
    /// Whether only the owner of both parents may breed them.
    pub breeder_owns_parents: bool,
    /// Whether the parents must be of opposite gender.
    pub opposite_genders: bool,
}

impl Config {
    /// The hardened policy: the breeder owns both parents, and they differ in gender.
    pub fn new(max_kitties_owned: u32) -> (config: Config)
        ensures
            config == (Config {
                max_kitties_owned,
                breeder_owns_parents: true,
                opposite_genders: true,
            }),
    {
        Config { max_kitties_owned, breeder_owns_parents: true, opposite_genders: true }
    }
}

/// What a successful operation reports to the host's event log.
#[allow(inconsistent_fields)]
#[derive(Clone, Copy, Debug, PartialEq, Eq)]
pub enum Event {
    /// A new kitty was created.
    Created { kitty: KittyId, owner: AccountId },
    /// The asking price of a kitty was set or withdrawn.
    PriceSet { kitty: KittyId, price: Option<Balance> },
    /// A kitty changed hands without payment.
    Transferred { from: AccountId, to: AccountId, kitty: KittyId },
    /// A kitty was sold at its asking price.
    Sold { seller: AccountId, buyer: AccountId, kitty: KittyId, price: Balance },
}

/// Why an operation was refused.
#[derive(Clone, Copy, Debug, PartialEq, Eq, Structural)]
pub enum Error {
    /// The account already holds as many kitties as it may.
    TooManyOwned,
    /// The recipient of a transfer already owns the kitty.
    TransferToSelf,
    /// A kitty with this identifier exists already.
    DuplicateKitty,
    /// No kitty has this identifier.
    NoKitty,
    /// The caller does not own the kitty.
    NotOwner,
    /// The kitty has no asking price.
    NotForSale,
    /// The asking price is above the buyer's limit.
    BidPriceTooLow,
    /// The parents may not breed with each other.
    CantBreed,
    /// The counter of minted kitties cannot grow further.
    KittyCountOverFlow,
    /// The buyer already owns the kitty.
    BuyerIsKittyOwner,
    /// The buyer cannot pay the asking price.
    NotEnoughBalance,
}

} // verus!
