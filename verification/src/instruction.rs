//! The instructions of the program and their wire format.
//!
//! The first byte of an instruction is its tag, the rest its payload:
//!
//! | tag | instruction | payload |
//! |---|---|---|
//! | `0` | initialize | one 16-bit little-endian share per member |
//! | `1` | withdraw | none |
//!
//! Decoding looks at the bytes alone. Bytes after the payload are not read.
use crate::address::{le_u16, u16_from_le};
use crate::error::RoyaltyDistributorError;
use vstd::prelude::*;
use vstd::slice::slice_subrange;

verus! {

/// A command to the program.
#[derive(Clone, Debug, PartialEq, Eq)]
pub enum RoyaltyDistributorInstruction {
    /// Writes the members and their shares to the state account, and hands
    /// the pool over to the authority address of the program.
    ///
    /// Accounts expected:
    ///
    /// 0. `[signer]` the initializer, present owner of the pool
    /// 1. `[writable]` the pool: a token account, owned by the token program
    /// 2. `[writable]` the state account, as long as the encoded state
    /// 3. `[]` the rent sysvar
    /// 4. `[]` the token program
    InitRoyaltyDistributor {
        /// The share of each member in basis points, in the members' order.
        shares: Vec<u16>,
    },
    /// Pays every member its share of what the pool holds.
    ///
    /// Accounts expected:
    ///
    /// 0. `[signer]` whoever asks for the distribution
    /// 1. `[writable]` the state account
    /// 2. `[writable]` the pool
    /// 3. `[]` the token program
    /// 4. `[]` the authority address of the program
    Withdraw {},
}

/// What a [`RoyaltyDistributorInstruction`] stands for.
pub enum InstructionView {
    InitRoyaltyDistributor { shares: Seq<u16> },
    Withdraw,
}

impl View for RoyaltyDistributorInstruction {
    type V = InstructionView;

    open spec fn view(&self) -> InstructionView {
        match self {
            RoyaltyDistributorInstruction::InitRoyaltyDistributor { shares } => {
                InstructionView::InitRoyaltyDistributor { shares: shares@ }
            },
            RoyaltyDistributorInstruction::Withdraw {  } => InstructionView::Withdraw,
        }
    }
}

/// The shares of `count` members at the start of `payload`.
pub open spec fn decode_shares(payload: Seq<u8>, count: nat) -> Seq<u16> {
    Seq::new(count, |k: int| le_u16(payload[2 * k], payload[2 * k + 1]))
}

/// The instruction for a distributor of `count` members that `input` encodes.
///
/// Decoding fails with `InvalidInstruction` if `input` is empty, if its tag is
/// neither `0` nor `1`, or if the tag is `0` and fewer than `2 * count` bytes
/// follow it.
pub open spec fn decode_instruction(input: Seq<u8>, count: nat) -> Result<
    InstructionView,
    RoyaltyDistributorError,
> {
    if input.len() == 0 {
        Err(RoyaltyDistributorError::InvalidInstruction)
    } else if input[0] == 0 {
        if input.len() - 1 < 2 * count {
            Err(RoyaltyDistributorError::InvalidInstruction)
        } else {
            Ok(
                InstructionView::InitRoyaltyDistributor {
                    shares: decode_shares(input.subrange(1, input.len() as int), count),
                },
            )
        }
    } else if input[0] == 1 {
        Ok(InstructionView::Withdraw)
    } else {
        Err(RoyaltyDistributorError::InvalidInstruction)
    }
}

impl RoyaltyDistributorInstruction {
    /// Decodes an instruction for a distributor of `member_count` members.
    pub fn unpack(input: &[u8], member_count: usize) -> (result: Result<
        Self,
        RoyaltyDistributorError,
    >)
        ensures
            match result {
                Ok(instruction) => decode_instruction(input@, member_count as nat) == Ok::<
                    _,
                    RoyaltyDistributorError,
                >(instruction@),
                Err(e) => decode_instruction(input@, member_count as nat) == Err::<
                    InstructionView,
                    _,
                >(e),
            },
    {
        if input.len() == 0 {
            return Err(RoyaltyDistributorError::InvalidInstruction);
        }
        let tag = input[0];
        let rest = slice_subrange(input, 1, input.len());
        match tag {
            0 => Self::unpack_royalty_distributor(rest, member_count),
            1 => Ok(RoyaltyDistributorInstruction::Withdraw {  }),
            _ => Err(RoyaltyDistributorError::InvalidInstruction),
        }
    }

    /// Decodes the payload of an initialize instruction: one share for each
    /// of the `member_count` members.
    ///
    /// Fails with `InvalidInstruction` exactly if `payload` has fewer than
    /// `2 * member_count` bytes.
    pub fn unpack_royalty_distributor(payload: &[u8], member_count: usize) -> (result: Result<
        Self,
        RoyaltyDistributorError,
    >)
        ensures
            match result {
                Ok(instruction) => payload@.len() >= 2 * member_count && instruction@
                    == (InstructionView::InitRoyaltyDistributor {
                    shares: decode_shares(payload@, member_count as nat),
                }),
                Err(e) => payload@.len() < 2 * member_count && e
                    == RoyaltyDistributorError::InvalidInstruction,
            },
    {
        if payload.len() / 2 < member_count {
            return Err(RoyaltyDistributorError::InvalidInstruction);
        }
        let mut shares: Vec<u16> = Vec::new();
        let mut k: usize = 0;
        while k < member_count
            invariant
                k <= member_count,
                2 * member_count <= payload.len(),
                shares@.len() == k,
                forall|j: int|
                    0 <= j < k ==> #[trigger] shares@[j] == le_u16(
                        payload@[2 * j],
                        payload@[2 * j + 1],
                    ),
            decreases member_count - k,
        {
            shares.push(u16_from_le(payload[2 * k], payload[2 * k + 1]));
            k += 1;
        }
        assert(shares@ =~= decode_shares(payload@, member_count as nat));
        Ok(RoyaltyDistributorInstruction::InitRoyaltyDistributor { shares })
    }
}

} // verus!
