//! The ledger's interface values: account identifiers, the inbound request
//! variants, the notification and reply values, and the failure reasons.

use vstd::prelude::*;

verus! {

broadcast use vstd::array::group_array_axioms;

/// An opaque fixed-width value uniquely naming a ledger participant.
#[derive(Clone, Copy, PartialEq, Eq, Debug)]
pub struct ActorId {
    pub bytes: [u8; 32],
}

impl ActorId {
    /// The reserved all-zero identifier: "no account", the symbolic source of
    /// minted supply and sink of burned supply.
    pub open spec fn null() -> ActorId {
        ActorId { bytes: vstd::array::spec_array_fill_for_copy_type::<u8, 32>(0u8) }
    }

    pub open spec fn is_null(self) -> bool {
        self == ActorId::null()
    }

    pub fn new(bytes: [u8; 32]) -> (r: ActorId)
        ensures
            r.bytes == bytes,
    {
        ActorId { bytes }
    }

    /// The null identifier as a runtime value.
    pub fn zero() -> (r: ActorId)
        ensures
            r == ActorId::null(),
            r.is_null(),
    {
        ActorId { bytes: [0u8; 32] }
    }

    /// Byte-wise equality, reflected as value equality in specifications.
    pub fn equals(&self, other: &ActorId) -> (r: bool)
        ensures
            r == (*self == *other),
    {
        let mut i: usize = 0;
        while i < 32
            invariant
                i <= 32,
                forall|j: int| 0 <= j < i ==> self.bytes@[j] == other.bytes@[j],
            decreases 32 - i,
        {
            if self.bytes[i] != other.bytes[i] {
                return false;
            }
            i += 1;
        }
        proof {
            assert(self.bytes =~= other.bytes);
        }
        true
    }

    /// Whether this is the reserved null identifier.
    pub fn is_zero(&self) -> (r: bool)
        ensures
            r == self.is_null(),
    {
        let mut i: usize = 0;
        while i < 32
            invariant
                i <= 32,
                forall|j: int| 0 <= j < i ==> self.bytes@[j] == 0u8,
            decreases 32 - i,
        {
            if self.bytes[i] != 0 {
                proof {
                    assert(ActorId::null().bytes@[i as int] == 0u8);
                }
                return false;
            }
            i += 1;
        }
        proof {
            assert(self.bytes =~= ActorId::null().bytes);
        }
        true
    }
}

/// The values supplied at initialization: display metadata only.
#[derive(PartialEq, Eq, Debug)]
pub struct FTInitialConfiguration {
    pub name: String,
    pub symbol: String,
    pub decimals: u8,
}

/// One decoded inbound request against the ledger.
#[derive(Clone, Copy, PartialEq, Eq, Debug)]
pub enum FTAction {
    Burn(u128),
    Transfer { to: ActorId, amount: u128 },
    TransferFrom { from: ActorId, to: ActorId, amount: u128 },
    Approve { to: ActorId, amount: u128 },
    TotalSupply,
    Decimals,
    BalanceOf(ActorId),
}

/// The notification or reply value produced by an accepted request.
#[derive(Clone, Copy, PartialEq, Eq, Debug)]
pub enum FTEvent {
    Transfer { from: ActorId, to: ActorId, amount: u128 },
    Approve { from: ActorId, to: ActorId, amount: u128 },
    TotalSupply(u128),
    Decimals(u8),
    Balance(u128),
}

/// A read-only state query.
#[derive(Clone, Copy, PartialEq, Eq, Debug)]
pub enum FTState {
    Name,
    Symbol,
    Decimals,
    TotalSupply,
    BalanceOf(ActorId),
}

/// The reply to a read-only state query.
#[derive(PartialEq, Eq, Debug)]
pub enum FTReply {
    Name(String),
    Symbol(String),
    Decimals(u8),
    TotalSupply(u128),
    Balance(u128),
}

/// Why an operation was rejected. Every rejection aborts the single in-flight
/// operation; no partial mutation is visible except the documented
/// allowance-decrement ordering hazard of a delegated transfer.
#[derive(Clone, Copy, PartialEq, Eq, Debug)]
pub enum FTError {
    /// Burn by a non-owner, or a transfer without authorization.
    Unauthorized,
    /// A burn or transfer amount exceeding the source account's balance.
    InsufficientBalance,
    /// A transfer endpoint or approval target equal to the null identifier.
    ZeroAddress,
}

} // verus!
