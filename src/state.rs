use vstd::prelude::*;

verus! {

/// An account identity: 32 opaque bytes.
#[derive(Clone, Copy, Debug)]
pub struct Pubkey {
    pub bytes: [u8; 32],
}

impl PartialEq for Pubkey {
    fn eq(&self, o: &Pubkey) -> (r: bool) {
        let mut i: usize = 0;
        while i < 32
            invariant
                0 <= i <= 32,
                forall|j: int| 0 <= j < i ==> self.bytes[j] == o.bytes[j],
            decreases 32 - i,
        {
            if self.bytes[i] != o.bytes[i] {
                return false;
            }
            i = i + 1;
        }
        proof {
            assert(self.bytes =~= o.bytes);
        }
        true
    }
}

impl vstd::std_specs::cmp::PartialEqSpecImpl for Pubkey {
    open spec fn obeys_eq_spec() -> bool {
        true
    }

    open spec fn eq_spec(&self, o: &Pubkey) -> bool {
        *self == *o
    }
}

impl Eq for Pubkey {
}

/// A deployed faucet's configuration.
#[derive(Clone, Copy, Debug, PartialEq, Eq)]
pub struct Faucet {
    /// Fee per unit of quantity, in the fee asset's smallest unit.
    pub price: u64,
    /// Tokens paid out per unit of quantity.
    pub amount: u64,
    /// Length of a requester's rate-limit window, in seconds.
    pub interval: i64,
    /// Most quantity one requester may take within one window; zero closes the faucet.
    pub max_quantity: u16,
    /// The identity allowed to update, withdraw from and close the faucet.
    pub authority: Pubkey,
    /// The identity that receives the fees.
    pub beneficiary: Pubkey,
    /// The token type that the faucet hands out.
    pub token_mint: Pubkey,
    /// Derivation parameter of the custody account's address.
    pub token_bump: u8,
}

/// A requester's throttle record: when its current window began and how much
/// quantity it has taken since.
#[derive(Clone, Copy, Debug, PartialEq, Eq, Structural)]
pub struct Transaction {
    pub timestamp: i64,
    pub count: u16,
}

impl Transaction {
    /// The record of a requester that has never been paid.
    pub fn new() -> (r: Transaction)
        ensures
            r.timestamp == 0,
            r.count == 0,
    {
        Transaction { timestamp: 0, count: 0 }
    }
}

/// A balance of one token type, held by `owner`.
#[derive(Clone, Copy, Debug, PartialEq, Eq)]
pub struct TokenAccount {
    /// The token type held.
    pub mint: Pubkey,
    /// The identity that may move the balance.
    pub owner: Pubkey,
    /// The balance, in the token's smallest unit.
    pub amount: u64,
    /// The reserved deposit that keeps the account alive, in the fee asset.
    pub lamports: u64,
}

/// Failures of the faucet's operations.
#[derive(Clone, Copy, Debug, PartialEq, Eq, Structural)]
pub enum ErrorCode {
    /// The faucet's `max_quantity` is zero.
    FaucetClosed,
    /// A payout asked for a quantity of zero.
    MinQuantity,
    /// The quantity asked for exceeds what is left of the requester's quota.
    MaxQuantity,
    /// The requester's quota for the current window is used up.
    PayoutLimit,
    /// A fee or payout amount does not fit in 64 bits.
    Overflow,
    /// The signer is not the faucet's authority.
    Unauthorized,
    /// Two accounts that must hold the same token type do not.
    MintMismatch,
    /// The signer does not own the account it wants to move tokens from.
    OwnerMismatch,
    /// The fee recipient given is not the faucet's beneficiary.
    BeneficiaryMismatch,
    /// A balance is too small for the transfer asked of it.
    InsufficientFunds,
}

} // verus!
