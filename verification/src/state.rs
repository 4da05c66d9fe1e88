//! The distributor state and its fixed-layout encoding.
//!
//! A state with `n` members takes `1 + 32 * n + 2 * n` bytes: one flag byte
//! (`0` or `1`), then the `n` member addresses, then the `n` shares as 16-bit
//! little-endian integers. The member count is a constant of the deployment
//! and is not stored.
use crate::address::{
    high_byte, le_u16, low_byte, read_address, u16_from_le, u16_to_le, write_address, Address,
};
use crate::error::RoyaltyDistributorError;
use vstd::prelude::*;

verus! {

/// The least number of members of a distributor.
pub const MIN_MEMBERS: usize = 2;

/// The greatest number of members of a distributor.
pub const MAX_MEMBERS: usize = 8;

/// Whether a distributor can have `count` members.
pub open spec fn valid_member_count(count: nat) -> bool {
    MIN_MEMBERS <= count <= MAX_MEMBERS
}

/// The length of the encoding of a state with `count` members.
pub open spec fn packed_len(count: nat) -> nat {
    1 + 32 * count + 2 * count
}

/// Where the address of member `k` starts in an encoded state.
pub open spec fn pubkey_offset(k: int) -> int {
    1 + 32 * k
}

/// Where the shares of member `k` start in an encoded state of `count` members.
pub open spec fn shares_offset(count: int, k: int) -> int {
    1 + 32 * count + 2 * k
}

/// A beneficiary: who it is, and its part of the pool in basis points.
#[derive(Copy, Clone, Debug, PartialEq, Eq)]
pub struct Member {
    /// The member's address.
    pub pubkey: Address,
    /// The member's share, in basis points. Any 16-bit value is accepted, and
    /// the shares of a distributor need not add up to 10000.
    pub shares: u16,
}

/// What a [`Member`] stands for.
pub struct MemberView {
    pub pubkey: Seq<u8>,
    pub shares: u16,
}

impl View for Member {
    type V = MemberView;

    open spec fn view(&self) -> MemberView {
        MemberView { pubkey: self.pubkey@, shares: self.shares }
    }
}

/// The persistent record of one distribution pool.
#[derive(Clone, Debug, PartialEq, Eq)]
pub struct RoyaltyDistributor {
    /// Set once, when the members are written.
    pub is_initialized: bool,
    /// The members, in the order of the encoding.
    pub members: Vec<Member>,
}

/// What a [`RoyaltyDistributor`] stands for.
pub struct RoyaltyDistributorView {
    pub is_initialized: bool,
    pub members: Seq<MemberView>,
}

impl RoyaltyDistributorView {
    /// A state has two to eight members, each with an address of 32 bytes.
    pub open spec fn wf(self) -> bool {
        &&& valid_member_count(self.members.len())
        &&& forall|k: int|
            0 <= k < self.members.len() ==> (#[trigger] self.members[k]).pubkey.len() == 32
    }
}

/// The members that a vector of members stands for.
pub open spec fn members_view(members: Seq<Member>) -> Seq<MemberView> {
    Seq::new(members.len(), |k: int| members[k]@)
}

impl View for RoyaltyDistributor {
    type V = RoyaltyDistributorView;

    open spec fn view(&self) -> RoyaltyDistributorView {
        RoyaltyDistributorView {
            is_initialized: self.is_initialized,
            members: members_view(self.members@),
        }
    }
}

/// The flag byte of an encoded state.
pub open spec fn flag_byte(is_initialized: bool) -> u8 {
    if is_initialized {
        1
    } else {
        0
    }
}

/// Byte `i` of the encoding of `state`.
pub open spec fn encoded_byte(state: RoyaltyDistributorView, i: int) -> u8 {
    let count = state.members.len() as int;
    if i == 0 {
        flag_byte(state.is_initialized)
    } else if i < pubkey_offset(count) {
        state.members[(i - 1) / 32].pubkey[(i - 1) % 32]
    } else {
        let j = i - pubkey_offset(count);
        if j % 2 == 0 {
            low_byte(state.members[j / 2].shares)
        } else {
            high_byte(state.members[j / 2].shares)
        }
    }
}

/// The encoding of `state`: the flag, the addresses, the shares.
pub open spec fn encode(state: RoyaltyDistributorView) -> Seq<u8> {
    Seq::new(packed_len(state.members.len()), |i: int| encoded_byte(state, i))
}

/// Member `k` of the state of `count` members that `bytes` encodes.
pub open spec fn decoded_member(bytes: Seq<u8>, count: nat, k: int) -> MemberView {
    MemberView {
        pubkey: bytes.subrange(pubkey_offset(k), pubkey_offset(k) + 32),
        shares: le_u16(
            bytes[shares_offset(count as int, k)],
            bytes[shares_offset(count as int, k) + 1],
        ),
    }
}

/// The state of `count` members at the start of `bytes`.
///
/// Decoding fails if `bytes` is shorter than the encoding or if the flag byte
/// is neither `0` nor `1`. It reads every share as it stands, and does not
/// look at bytes after the encoding.
pub open spec fn decode(bytes: Seq<u8>, count: nat) -> Result<
    RoyaltyDistributorView,
    RoyaltyDistributorError,
> {
    if bytes.len() < packed_len(count) || bytes[0] > 1 {
        Err(RoyaltyDistributorError::InvalidAccountData)
    } else {
        Ok(
            RoyaltyDistributorView {
                is_initialized: bytes[0] == 1,
                members: Seq::new(count, |k: int| decoded_member(bytes, count, k)),
            },
        )
    }
}

/// The state of `count` members that `bytes` encodes, where `bytes` has to be
/// exactly as long as the encoding.
pub open spec fn decode_exact(bytes: Seq<u8>, count: nat) -> Result<
    RoyaltyDistributorView,
    RoyaltyDistributorError,
> {
    if bytes.len() != packed_len(count) {
        Err(RoyaltyDistributorError::InvalidAccountData)
    } else {
        decode(bytes, count)
    }
}

/// The initialized state of `count` members that `bytes` encodes.
pub open spec fn decode_initialized(bytes: Seq<u8>, count: nat) -> Result<
    RoyaltyDistributorView,
    RoyaltyDistributorError,
> {
    match decode_exact(bytes, count) {
        Ok(state) => if state.is_initialized {
            Ok(state)
        } else {
            Err(RoyaltyDistributorError::UninitializedAccount)
        },
        Err(e) => Err(e),
    }
}

/// Decoding inverts encoding: a state comes back from its encoding as it was.
pub proof fn lemma_decode_encode(state: RoyaltyDistributorView)
    requires
        state.wf(),
    ensures
        decode(encode(state), state.members.len()) == Ok::<_, RoyaltyDistributorError>(state),
        decode_exact(encode(state), state.members.len()) == Ok::<_, RoyaltyDistributorError>(
            state,
        ),
{
    let count = state.members.len();
    let decoded = decode(encode(state), count)->Ok_0;
    assert forall|k: int| 0 <= k < count implies decoded.members[k] == state.members[k] by {
        assert(decoded.members[k].pubkey =~= state.members[k].pubkey);
    }
    assert(decoded.members =~= state.members);
}

/// Encoding inverts decoding: the state that decodes from `bytes` encodes to
/// the bytes it was read from.
pub proof fn lemma_encode_decode(bytes: Seq<u8>, count: nat)
    requires
        decode(bytes, count) is Ok,
    ensures
        encode(decode(bytes, count)->Ok_0) == bytes.subrange(0, packed_len(count) as int),
        decode(bytes, count)->Ok_0.members.len() == count,
{
}

impl RoyaltyDistributor {
    /// A state has two to eight members.
    pub open spec fn wf(&self) -> bool {
        valid_member_count(self.members@.len())
    }

    /// The length of the encoding of a state with `member_count` members.
    pub fn get_packed_len(member_count: usize) -> (len: usize)
        requires
            valid_member_count(member_count as nat),
        ensures
            len == packed_len(member_count as nat),
    {
        1 + 32 * member_count + 2 * member_count
    }

    /// Whether the members have been written.
    pub fn is_initialized(&self) -> (initialized: bool)
        ensures
            initialized == self@.is_initialized,
    {
        self.is_initialized
    }

    /// Reads the state of `member_count` members at the start of `src`.
    ///
    /// Fails with `InvalidAccountData` exactly if `src` is shorter than the
    /// encoding or the flag byte is neither `0` nor `1`.
    pub fn unpack_from_slice(src: &[u8], member_count: usize) -> (result: Result<
        Self,
        RoyaltyDistributorError,
    >)
        requires
            valid_member_count(member_count as nat),
        ensures
            match result {
                Ok(state) => decode(src@, member_count as nat) == Ok::<_, RoyaltyDistributorError>(
                    state@,
                ) && state.wf() && state@.wf(),
                Err(e) => decode(src@, member_count as nat) == Err::<RoyaltyDistributorView, _>(e),
            },
            result is Err <==> src@.len() < packed_len(member_count as nat) || src@[0] > 1,
    {
        let len = Self::get_packed_len(member_count);
        if src.len() < len {
            return Err(RoyaltyDistributorError::InvalidAccountData);
        }
        let is_initialized = match src[0] {
            0 => false,
            1 => true,
            _ => {
                return Err(RoyaltyDistributorError::InvalidAccountData);
            },
        };
        let shares_start = 1 + 32 * member_count;
        let mut members: Vec<Member> = Vec::new();
        let mut k: usize = 0;
        while k < member_count
            invariant
                k <= member_count,
                valid_member_count(member_count as nat),
                len == packed_len(member_count as nat),
                len <= src.len(),
                shares_start == pubkey_offset(member_count as int),
                members@.len() == k,
                forall|j: int|
                    0 <= j < k ==> (#[trigger] members@[j])@ == decoded_member(
                        src@,
                        member_count as nat,
                        j,
                    ),
            decreases member_count - k,
        {
            let pubkey = read_address(src, 1 + 32 * k);
            let shares = u16_from_le(src[shares_start + 2 * k], src[shares_start + 2 * k + 1]);
            members.push(Member { pubkey, shares });
            k += 1;
        }
        let state = RoyaltyDistributor { is_initialized, members };
        assert(state@.members =~= decode(src@, member_count as nat)->Ok_0.members);
        Ok(state)
    }

    /// Reads the state of `member_count` members that `input` encodes.
    ///
    /// Fails with `InvalidAccountData` exactly if `input` is not as long as
    /// the encoding or the flag byte is neither `0` nor `1`.
    pub fn unpack_unchecked(input: &[u8], member_count: usize) -> (result: Result<
        Self,
        RoyaltyDistributorError,
    >)
        requires
            valid_member_count(member_count as nat),
        ensures
            match result {
                Ok(state) => decode_exact(input@, member_count as nat) == Ok::<
                    _,
                    RoyaltyDistributorError,
                >(state@) && state.wf() && state@.wf(),
                Err(e) => decode_exact(input@, member_count as nat) == Err::<
                    RoyaltyDistributorView,
                    _,
                >(e),
            },
    {
        if input.len() != Self::get_packed_len(member_count) {
            return Err(RoyaltyDistributorError::InvalidAccountData);
        }
        Self::unpack_from_slice(input, member_count)
    }

    /// Reads the initialized state of `member_count` members that `input`
    /// encodes.
    ///
    /// Fails as [`RoyaltyDistributor::unpack_unchecked`] does, and with
    /// `UninitializedAccount` if the state decodes and its flag is not set.
    pub fn unpack(input: &[u8], member_count: usize) -> (result: Result<
        Self,
        RoyaltyDistributorError,
    >)
        requires
            valid_member_count(member_count as nat),
        ensures
            match result {
                Ok(state) => decode_initialized(input@, member_count as nat) == Ok::<
                    _,
                    RoyaltyDistributorError,
                >(state@) && state.wf() && state@.wf(),
                Err(e) => decode_initialized(input@, member_count as nat) == Err::<
                    RoyaltyDistributorView,
                    _,
                >(e),
            },
    {
        let state = Self::unpack_unchecked(input, member_count)?;
        if state.is_initialized() {
            Ok(state)
        } else {
            Err(RoyaltyDistributorError::UninitializedAccount)
        }
    }

    /// Writes the encoding of the state to the start of `dst`, and leaves the
    /// bytes after it as they are.
    pub fn pack_into_slice(&self, dst: &mut [u8])
        requires
            self.wf(),
            old(dst).len() >= packed_len(self.members@.len()),
        ensures
            final(dst)@.len() == old(dst)@.len(),
            final(dst)@.subrange(0, packed_len(self.members@.len()) as int) == encode(self@),
            final(dst)@.subrange(packed_len(self.members@.len()) as int, old(dst)@.len() as int)
                == old(dst)@.subrange(
                packed_len(self.members@.len()) as int,
                old(dst)@.len() as int,
            ),
    {
        let member_count = self.members.len();
        let len = Self::get_packed_len(member_count);
        let shares_start = 1 + 32 * member_count;
        dst[0] = if self.is_initialized {
            1
        } else {
            0
        };
        let mut k: usize = 0;
        while k < member_count
            invariant
                k <= member_count,
                member_count == self.members@.len(),
                valid_member_count(member_count as nat),
                len == packed_len(member_count as nat),
                dst@.len() == old(dst)@.len(),
                len <= dst.len(),
                forall|i: int|
                    0 <= i < pubkey_offset(k as int) ==> dst@[i] == encoded_byte(self@, i),
                forall|i: int| len <= i < dst@.len() ==> dst@[i] == old(dst)@[i],
            decreases member_count - k,
        {
            write_address(dst, 1 + 32 * k, &self.members[k].pubkey);
            k += 1;
        }
        let mut k: usize = 0;
        while k < member_count
            invariant
                k <= member_count,
                member_count == self.members@.len(),
                valid_member_count(member_count as nat),
                len == packed_len(member_count as nat),
                shares_start == pubkey_offset(member_count as int),
                dst@.len() == old(dst)@.len(),
                len <= dst.len(),
                forall|i: int|
                    0 <= i < shares_offset(member_count as int, k as int) ==> dst@[i]
                        == encoded_byte(self@, i),
                forall|i: int| len <= i < dst@.len() ==> dst@[i] == old(dst)@[i],
            decreases member_count - k,
        {
            let (low, high) = u16_to_le(self.members[k].shares);
            let at = shares_start + 2 * k;
            dst[at] = low;
            dst[at + 1] = high;
            k += 1;
        }
    }

    /// The encoding of the state.
    pub fn to_bytes(&self) -> (bytes: Vec<u8>)
        requires
            self.wf(),
        ensures
            bytes@ == encode(self@),
    {
        let len = Self::get_packed_len(self.members.len());
        let mut bytes: Vec<u8> = vec![0u8; len];
        self.pack_into_slice(bytes.as_mut_slice());
        bytes
    }

    /// Writes the encoding of `src` to `dst`, which has to be exactly as long
    /// as the encoding.
    ///
    /// Fails with `InvalidAccountData`, and leaves `dst` as it is, exactly if
    /// `dst` has another length.
    pub fn pack(src: Self, dst: &mut [u8]) -> (result: Result<(), RoyaltyDistributorError>)
        requires
            src.wf(),
        ensures
            final(dst)@.len() == old(dst)@.len(),
            match result {
                Ok(()) => old(dst)@.len() == packed_len(src.members@.len()) && final(dst)@
                    == encode(src@),
                Err(e) => old(dst)@.len() != packed_len(src.members@.len()) && final(dst)@ == old(
                    dst,
                )@ && e == RoyaltyDistributorError::InvalidAccountData,
            },
    {
        if dst.len() != Self::get_packed_len(src.members.len()) {
            return Err(RoyaltyDistributorError::InvalidAccountData);
        }
        src.pack_into_slice(dst);
        Ok(())
    }
}

} // verus!
