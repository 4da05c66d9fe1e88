//! The two protocols of the program: initialization and withdrawal.
//!
//! A protocol reads the accounts of the call by position, checks its
//! preconditions in a fixed order and stops at the first that fails. It
//! changes nothing itself: on success it returns the [`Effects`] that the
//! host has to carry out, on failure the error and nothing else. The host
//! applies an invocation as a whole or not at all, so an error in the middle
//! of the effects undoes those already carried out.
use crate::address::{same_address, Address};
use crate::distribution::{distribute, member_amount, member_amounts};
use crate::error::RoyaltyDistributorError;
use crate::instruction::{decode_instruction, InstructionView, RoyaltyDistributorInstruction};
use crate::state::{
    decode_exact, decode_initialized, encode, lemma_decode_encode, lemma_encode_decode,
    packed_len, valid_member_count, Member, MemberView, RoyaltyDistributor,
    RoyaltyDistributorView, MAX_MEMBERS, MIN_MEMBERS,
};
use crate::token::{
    build_set_owner, build_transfer, find_program_address, program_derived_address,
    read_token_amount, set_owner_instruction, token_account_amount, token_program_address,
    token_program_id, transfer_instruction, CpiInstruction, CpiInstructionView,
};
use vstd::prelude::*;

verus! {

/// The seed from which the authority address of the program is derived.
pub const AUTHORITY_SEED: [u8; 19] = [
    114, 111, 121, 97, 108, 116, 121, 95, 100, 105, 115, 116, 114, 105, 98, 117, 116, 111, 114,
];

/// An account of the call, as the host hands it to the program.
#[derive(Clone, Debug, PartialEq, Eq)]
pub struct Account {
    /// The account's address.
    pub key: Address,
    /// The program that owns the account.
    pub owner: Address,
    /// Whether the account signed the call.
    pub is_signer: bool,
    /// The account's data.
    pub data: Vec<u8>,
}

/// What an [`Account`] stands for.
pub struct AccountView {
    pub key: Seq<u8>,
    pub owner: Seq<u8>,
    pub is_signer: bool,
    pub data: Seq<u8>,
}

impl View for Account {
    type V = AccountView;

    open spec fn view(&self) -> AccountView {
        AccountView {
            key: self.key@,
            owner: self.owner@,
            is_signer: self.is_signer,
            data: self.data@,
        }
    }
}

/// What the accounts of a call stand for.
pub open spec fn accounts_view(accounts: Seq<Account>) -> Seq<AccountView> {
    Seq::new(accounts.len(), |i: int| accounts[i]@)
}

/// What a list of addresses stands for.
pub open spec fn addresses_view(addresses: Seq<Address>) -> Seq<Seq<u8>> {
    Seq::new(addresses.len(), |k: int| addresses[k]@)
}

/// What the host's rent sysvar, the fourth account of an initialization, says
/// of the state account's balance and size.
#[derive(Copy, Clone, Debug, PartialEq, Eq, Structural)]
pub enum DepositVerdict {
    /// The balance keeps the account alive for good.
    Exempt,
    /// The balance is too low for that.
    NotExempt,
    /// The account in the sysvar's place is not the rent sysvar, or does not
    /// hold one.
    Unreadable,
}

/// What the host has to do after a protocol has succeeded.
#[derive(Clone, Debug, PartialEq, Eq)]
pub enum Effects {
    /// The distributor was initialized.
    ///
    /// The host writes `state_data` to the state account, the third account
    /// of the call. Then it calls the token program with `set_owner`, which
    /// hands the pool over from the initializer to the authority address of
    /// the program; the call is given the pool, the initializer and the token
    /// program, the second, first and fifth account.
    Initialized { state_data: Vec<u8>, set_owner: CpiInstruction },
    /// The pool was distributed.
    ///
    /// The host calls the token program with each of `transfers`, in order
    /// and until one fails, and signs each call for the authority address
    /// with the seeds [`AUTHORITY_SEED`] and `bump_seed`; each call is given
    /// the pool, the authority and the token program, the third, fifth and
    /// fourth account. Then it writes `state_data` to the state account, the
    /// second account of the call.
    Withdrawn { transfers: Vec<CpiInstruction>, bump_seed: u8, state_data: Vec<u8> },
}

/// What [`Effects`] stand for.
pub enum EffectsView {
    Initialized { state_data: Seq<u8>, set_owner: CpiInstructionView },
    Withdrawn { transfers: Seq<CpiInstructionView>, bump_seed: u8, state_data: Seq<u8> },
}

impl View for Effects {
    type V = EffectsView;

    open spec fn view(&self) -> EffectsView {
        match self {
            Effects::Initialized { state_data, set_owner } => EffectsView::Initialized {
                state_data: state_data@,
                set_owner: set_owner@,
            },
            Effects::Withdrawn { transfers, bump_seed, state_data } => EffectsView::Withdrawn {
                transfers: Seq::new(transfers@.len(), |k: int| transfers@[k]@),
                bump_seed: *bump_seed,
                state_data: state_data@,
            },
        }
    }
}

/// The outcome of a protocol: the effects or the error.
pub type Outcome = Result<EffectsView, RoyaltyDistributorError>;

/// What the outcome of a protocol stands for.
pub open spec fn outcome_view(result: Result<Effects, RoyaltyDistributorError>) -> Outcome {
    match result {
        Ok(effects) => Ok(effects@),
        Err(e) => Err(e),
    }
}

/// Whether `members` can be the members of a distributor: two to eight
/// addresses of 32 bytes.
pub open spec fn valid_members(members: Seq<Seq<u8>>) -> bool {
    &&& valid_member_count(members.len())
    &&& forall|k: int| 0 <= k < members.len() ==> (#[trigger] members[k]).len() == 32
}

/// The state that an initialization writes: the flag set, and for each member
/// its address with its share.
pub open spec fn initial_state(members: Seq<Seq<u8>>, shares: Seq<u16>) -> RoyaltyDistributorView {
    RoyaltyDistributorView {
        is_initialized: true,
        members: Seq::new(
            members.len(),
            |k: int| MemberView { pubkey: members[k], shares: shares[k] },
        ),
    }
}

/// The end of an initialization, once its preconditions hold and the
/// authority address has been looked for.
///
/// It fails with `InvalidSeeds` if there is no authority address, and with
/// `IncorrectProgramId` if `token_program` is not the token program. Else the
/// state of `members` and `shares` is written, and one call hands the pool
/// over from the initializer to the authority address.
pub open spec fn initialization_outcome(
    members: Seq<Seq<u8>>,
    shares: Seq<u16>,
    initializer: Seq<u8>,
    pool: Seq<u8>,
    token_program: Seq<u8>,
    derived: Option<(Seq<u8>, u8)>,
) -> Outcome {
    match derived {
        None => Err(RoyaltyDistributorError::InvalidSeeds),
        Some((authority, _)) => if token_program != token_program_id() {
            Err(RoyaltyDistributorError::IncorrectProgramId)
        } else {
            Ok(
                EffectsView::Initialized {
                    state_data: encode(initial_state(members, shares)),
                    set_owner: set_owner_instruction(token_program, pool, authority, initializer),
                },
            )
        },
    }
}

/// The outcome of an initialization.
///
/// The checks, in their order:
///
/// 1. the first account, the initializer, has signed: else
///    `MissingRequiredSignature`;
/// 2. the second account, the pool, is owned by the token program: else
///    `IncorrectOwnership`;
/// 3. the rent sysvar, the fourth account, can be read (else
///    `InvalidArgument`) and finds the state account exempt: else
///    `NotRentExempt`;
/// 4. the third account, the state account, decodes (else
///    `InvalidAccountData`) to a state that is not initialized: else
///    `AccountAlreadyInitialized`.
///
/// An account that a check needs and the call does not have fails that check
/// with `NotEnoughAccountKeys`. The fifth account is the token program.
pub open spec fn initialize_outcome(
    members: Seq<Seq<u8>>,
    program_id: Seq<u8>,
    accounts: Seq<AccountView>,
    shares: Seq<u16>,
    deposit: DepositVerdict,
) -> Outcome {
    if accounts.len() < 1 {
        Err(RoyaltyDistributorError::NotEnoughAccountKeys)
    } else if !accounts[0].is_signer {
        Err(RoyaltyDistributorError::MissingRequiredSignature)
    } else if accounts.len() < 2 {
        Err(RoyaltyDistributorError::NotEnoughAccountKeys)
    } else if accounts[1].owner != token_program_id() {
        Err(RoyaltyDistributorError::IncorrectOwnership)
    } else if accounts.len() < 4 {
        Err(RoyaltyDistributorError::NotEnoughAccountKeys)
    } else if deposit == DepositVerdict::Unreadable {
        Err(RoyaltyDistributorError::InvalidArgument)
    } else if deposit == DepositVerdict::NotExempt {
        Err(RoyaltyDistributorError::NotRentExempt)
    } else {
        match decode_exact(accounts[2].data, members.len()) {
            Err(e) => Err(e),
            Ok(state) => if state.is_initialized {
                Err(RoyaltyDistributorError::AccountAlreadyInitialized)
            } else if accounts.len() < 5 {
                Err(RoyaltyDistributorError::NotEnoughAccountKeys)
            } else {
                initialization_outcome(
                    members,
                    shares,
                    accounts[0].key,
                    accounts[1].key,
                    accounts[4].key,
                    program_derived_address(AUTHORITY_SEED@, program_id),
                )
            },
        }
    }
}

/// The transfers of a withdrawal: to each member of `state`, in order, its
/// amount of `balance`, out of `pool` and on the word of `authority`.
pub open spec fn member_transfers(
    state: RoyaltyDistributorView,
    pool: Seq<u8>,
    token_program: Seq<u8>,
    balance: u64,
    authority: Seq<u8>,
) -> Seq<CpiInstructionView> {
    Seq::new(
        state.members.len(),
        |k: int|
            transfer_instruction(
                token_program,
                pool,
                state.members[k].pubkey,
                authority,
                member_amount(balance, state.members[k].shares),
            ),
    )
}

/// The end of a withdrawal, once its preconditions hold, the pool's balance
/// has been read and the authority address has been found.
///
/// It fails with `IncorrectProgramId` if `token_program` is not the token
/// program. Else every member is paid its amount of `balance`, and the state
/// is written back as it was read.
pub open spec fn withdrawal_outcome(
    state: RoyaltyDistributorView,
    pool: Seq<u8>,
    token_program: Seq<u8>,
    balance: u64,
    authority: Seq<u8>,
    bump_seed: u8,
) -> Outcome {
    if token_program != token_program_id() {
        Err(RoyaltyDistributorError::IncorrectProgramId)
    } else {
        Ok(
            EffectsView::Withdrawn {
                transfers: member_transfers(state, pool, token_program, balance, authority),
                bump_seed,
                state_data: encode(state),
            },
        )
    }
}

/// The outcome of a withdrawal from a distributor of `count` members.
///
/// The checks, in their order:
///
/// 1. the first account, who asks for the distribution, has signed: else
///    `MissingRequiredSignature`;
/// 2. the second account, the state account, decodes (else
///    `InvalidAccountData`) to an initialized state: else
///    `UninitializedAccount`;
/// 3. the third account, the pool, is a token account: else the error with
///    which the token program refuses its data;
/// 4. the program has an authority address: else `InvalidSeeds`.
///
/// An account that a check needs and the call does not have fails that check
/// with `NotEnoughAccountKeys`; so does a call without the fourth account, the
/// token program, or the fifth, the authority.
pub open spec fn withdraw_outcome(
    count: nat,
    program_id: Seq<u8>,
    accounts: Seq<AccountView>,
) -> Outcome {
    if accounts.len() < 1 {
        Err(RoyaltyDistributorError::NotEnoughAccountKeys)
    } else if !accounts[0].is_signer {
        Err(RoyaltyDistributorError::MissingRequiredSignature)
    } else if accounts.len() < 2 {
        Err(RoyaltyDistributorError::NotEnoughAccountKeys)
    } else {
        match decode_initialized(accounts[1].data, count) {
            Err(e) => Err(e),
            Ok(state) => if accounts.len() < 3 {
                Err(RoyaltyDistributorError::NotEnoughAccountKeys)
            } else {
                match token_account_amount(accounts[2].data) {
                    Err(e) => Err(e),
                    Ok(balance) => match program_derived_address(AUTHORITY_SEED@, program_id) {
                        None => Err(RoyaltyDistributorError::InvalidSeeds),
                        Some((authority, bump_seed)) => if accounts.len() < 5 {
                            Err(RoyaltyDistributorError::NotEnoughAccountKeys)
                        } else {
                            withdrawal_outcome(
                                state,
                                accounts[2].key,
                                accounts[3].key,
                                balance,
                                authority,
                                bump_seed,
                            )
                        },
                    },
                }
            },
        }
    }
}

/// The outcome of a call: the instruction is decoded, and its protocol run.
pub open spec fn process_outcome(
    members: Seq<Seq<u8>>,
    program_id: Seq<u8>,
    accounts: Seq<AccountView>,
    instruction_data: Seq<u8>,
    deposit: DepositVerdict,
) -> Outcome {
    match decode_instruction(instruction_data, members.len()) {
        Err(e) => Err(e),
        Ok(InstructionView::InitRoyaltyDistributor { shares }) => initialize_outcome(
            members,
            program_id,
            accounts,
            shares,
            deposit,
        ),
        Ok(InstructionView::Withdraw) => withdraw_outcome(members.len(), program_id, accounts),
    }
}

/// A state account can be initialized once: after an initialization has
/// succeeded and its state has been written, another initialization of the
/// same account is refused with `AccountAlreadyInitialized`, whatever shares
/// it brings. Refused, it has no effects, so what the first one wrote stays.
pub proof fn lemma_initialized_once(
    members: Seq<Seq<u8>>,
    program_id: Seq<u8>,
    accounts: Seq<AccountView>,
    shares: Seq<u16>,
    deposit: DepositVerdict,
    later_shares: Seq<u16>,
)
    requires
        valid_members(members),
        initialize_outcome(members, program_id, accounts, shares, deposit) is Ok,
    ensures
        initialize_outcome(members, program_id, accounts, shares, deposit)->Ok_0 is Initialized,
        initialize_outcome(
            members,
            program_id,
            accounts.update(
                2,
                AccountView {
                    data: initialize_outcome(
                        members,
                        program_id,
                        accounts,
                        shares,
                        deposit,
                    )->Ok_0->Initialized_state_data,
                    ..accounts[2]
                },
            ),
            later_shares,
            deposit,
        ) == Err::<EffectsView, _>(RoyaltyDistributorError::AccountAlreadyInitialized),
{
    lemma_decode_encode(initial_state(members, shares));
}

/// A withdrawal keeps no record of what it paid: it writes the state back as
/// it was read, so a second withdrawal against an unchanged balance has the
/// same outcome as the first, transfer for transfer.
pub proof fn lemma_withdraw_repeats(count: nat, program_id: Seq<u8>, accounts: Seq<AccountView>)
    requires
        withdraw_outcome(count, program_id, accounts) is Ok,
    ensures
        withdraw_outcome(count, program_id, accounts)->Ok_0 is Withdrawn,
        withdraw_outcome(count, program_id, accounts)->Ok_0->Withdrawn_state_data
            == accounts[1].data,
        withdraw_outcome(
            count,
            program_id,
            accounts.update(
                1,
                AccountView {
                    data: withdraw_outcome(count, program_id, accounts)->Ok_0->Withdrawn_state_data,
                    ..accounts[1]
                },
            ),
        ) == withdraw_outcome(count, program_id, accounts),
{
    let data = accounts[1].data;
    lemma_encode_decode(data, count);
    assert(data.subrange(0, packed_len(count) as int) =~= data);
}

/// A withdrawal does not ask what the shares add up to: with the token program
/// in its place it pays every member its amount, also where the shares stand
/// for more than the whole balance.
pub proof fn lemma_withdrawal_pays_every_member(
    state: RoyaltyDistributorView,
    pool: Seq<u8>,
    token_program: Seq<u8>,
    balance: u64,
    authority: Seq<u8>,
    bump_seed: u8,
)
    requires
        token_program == token_program_id(),
    ensures
        withdrawal_outcome(state, pool, token_program, balance, authority, bump_seed) is Ok,
        withdrawal_outcome(state, pool, token_program, balance, authority, bump_seed)->Ok_0
            is Withdrawn,
        withdrawal_outcome(
            state,
            pool,
            token_program,
            balance,
            authority,
            bump_seed,
        )->Ok_0->Withdrawn_transfers.len() == state.members.len(),
        forall|k: int|
            0 <= k < state.members.len() ==> (#[trigger] withdrawal_outcome(
                state,
                pool,
                token_program,
                balance,
                authority,
                bump_seed,
            )->Ok_0->Withdrawn_transfers[k]) == transfer_instruction(
                token_program,
                pool,
                state.members[k].pubkey,
                authority,
                member_amount(balance, state.members[k].shares),
            ),
{
}

/// The state account is written for good once: a call that succeeds either
/// initializes a state account that was not initialized, with the members of
/// the deployment, or is a withdrawal and writes the state back byte for
/// byte. So the members of an initialized state never change.
pub proof fn lemma_state_written_once(
    members: Seq<Seq<u8>>,
    program_id: Seq<u8>,
    accounts: Seq<AccountView>,
    instruction_data: Seq<u8>,
    deposit: DepositVerdict,
)
    requires
        valid_members(members),
        process_outcome(members, program_id, accounts, instruction_data, deposit) is Ok,
    ensures
        match process_outcome(members, program_id, accounts, instruction_data, deposit)->Ok_0 {
            EffectsView::Initialized { state_data, .. } => {
                &&& decode_exact(accounts[2].data, members.len()) is Ok
                &&& !decode_exact(accounts[2].data, members.len())->Ok_0.is_initialized
                &&& decode_initialized(state_data, members.len()) is Ok
                &&& decode_initialized(state_data, members.len())->Ok_0.members.len()
                    == members.len()
                &&& forall|k: int|
                    0 <= k < members.len() ==> (#[trigger] decode_initialized(
                        state_data,
                        members.len(),
                    )->Ok_0.members[k]).pubkey == members[k]
            },
            EffectsView::Withdrawn { state_data, .. } => {
                &&& decode_initialized(accounts[1].data, members.len()) is Ok
                &&& state_data == accounts[1].data
            },
        },
{
    match decode_instruction(instruction_data, members.len()) {
        Ok(InstructionView::InitRoyaltyDistributor { shares }) => {
            lemma_decode_encode(initial_state(members, shares));
        },
        Ok(InstructionView::Withdraw) => {
            lemma_withdraw_repeats(members.len(), program_id, accounts);
        },
        Err(_) => {},
    }
}

/// The program of one deployment: it knows the members, and so their number.
#[derive(Debug)]
pub struct Processor {
    members: Vec<Address>,
}

impl Processor {
    #[verifier::type_invariant]
    spec fn well_formed(&self) -> bool {
        valid_member_count(self.members@.len())
    }

    /// The addresses of the members, in the order of the state's encoding.
    pub closed spec fn member_keys(&self) -> Seq<Seq<u8>> {
        addresses_view(self.members@)
    }

    /// The program for the members `members`; `None` unless there are two to
    /// eight of them.
    pub fn new(members: Vec<Address>) -> (processor: Option<Processor>)
        ensures
            processor is Some <==> valid_member_count(members@.len()),
            processor matches Some(p) ==> p.member_keys() == addresses_view(members@),
    {
        if members.len() < MIN_MEMBERS || members.len() > MAX_MEMBERS {
            None
        } else {
            Some(Processor { members })
        }
    }

    /// The addresses of the members.
    pub fn members(&self) -> (members: &Vec<Address>)
        ensures
            addresses_view(members@) == self.member_keys(),
            valid_members(self.member_keys()),
    {
        proof {
            use_type_invariant(self);
        }
        &self.members
    }

    /// The number of members.
    pub fn member_count(&self) -> (count: usize)
        ensures
            count == self.member_keys().len(),
            valid_member_count(count as nat),
    {
        proof {
            use_type_invariant(self);
        }
        self.members.len()
    }

    /// Looks for the authority address of the program `program_id`: the
    /// address that the host derives for it from [`AUTHORITY_SEED`], and the
    /// bump seed that goes with it.
    ///
    /// The outcome depends on `program_id` alone: whoever derives the
    /// address again finds the same address and the same bump seed.
    pub fn authority_address(program_id: &Address) -> (found: Option<(Address, u8)>)
        ensures
            match found {
                Some((authority, bump_seed)) => program_derived_address(
                    AUTHORITY_SEED@,
                    program_id@,
                ) == Some((authority@, bump_seed)),
                None => program_derived_address(AUTHORITY_SEED@, program_id@) is None,
            },
    {
        find_program_address(AUTHORITY_SEED.as_slice(), program_id)
    }

    /// Runs the instruction that `instruction_data` encodes on the accounts
    /// of the call.
    ///
    /// `deposit` is what the rent sysvar says of the state account of an
    /// initialization; a withdrawal does not look at it.
    pub fn process(
        &self,
        program_id: &Address,
        accounts: &[Account],
        instruction_data: &[u8],
        deposit: DepositVerdict,
    ) -> (result: Result<Effects, RoyaltyDistributorError>)
        ensures
            outcome_view(result) == process_outcome(
                self.member_keys(),
                program_id@,
                accounts_view(accounts@),
                instruction_data@,
                deposit,
            ),
    {
        let instruction = RoyaltyDistributorInstruction::unpack(
            instruction_data,
            self.member_count(),
        )?;
        match instruction {
            RoyaltyDistributorInstruction::InitRoyaltyDistributor { shares } => {
                self.process_init_royalty_distributor(accounts, &shares, program_id, deposit)
            },
            RoyaltyDistributorInstruction::Withdraw {  } => {
                self.process_withdraw(accounts, program_id)
            },
        }
    }

    /// Runs an initialization with the shares `shares`, one for each member.
    pub fn process_init_royalty_distributor(
        &self,
        accounts: &[Account],
        shares: &Vec<u16>,
        program_id: &Address,
        deposit: DepositVerdict,
    ) -> (result: Result<Effects, RoyaltyDistributorError>)
        requires
            shares@.len() == self.member_keys().len(),
        ensures
            outcome_view(result) == initialize_outcome(
                self.member_keys(),
                program_id@,
                accounts_view(accounts@),
                shares@,
                deposit,
            ),
    {
        if accounts.len() < 1 {
            return Err(RoyaltyDistributorError::NotEnoughAccountKeys);
        }
        let initializer = &accounts[0];
        if !initializer.is_signer {
            return Err(RoyaltyDistributorError::MissingRequiredSignature);
        }
        if accounts.len() < 2 {
            return Err(RoyaltyDistributorError::NotEnoughAccountKeys);
        }
        let pool = &accounts[1];
        if !same_address(&pool.owner, &token_program_address()) {
            return Err(RoyaltyDistributorError::IncorrectOwnership);
        }
        if accounts.len() < 4 {
            return Err(RoyaltyDistributorError::NotEnoughAccountKeys);
        }
        let state_account = &accounts[2];
        match deposit {
            DepositVerdict::Unreadable => {
                return Err(RoyaltyDistributorError::InvalidArgument);
            },
            DepositVerdict::NotExempt => {
                return Err(RoyaltyDistributorError::NotRentExempt);
            },
            DepositVerdict::Exempt => {},
        }
        let state = RoyaltyDistributor::unpack_unchecked(
            state_account.data.as_slice(),
            self.member_count(),
        )?;
        if state.is_initialized() {
            return Err(RoyaltyDistributorError::AccountAlreadyInitialized);
        }
        if accounts.len() < 5 {
            return Err(RoyaltyDistributorError::NotEnoughAccountKeys);
        }
        let token_program = &accounts[4];
        let derived = Self::authority_address(program_id);
        self.initialization(&initializer.key, &pool.key, &token_program.key, shares, derived)
    }

    /// Ends an initialization: writes the state of the members with `shares`,
    /// and hands the pool `pool` over from `initializer` to the authority
    /// address `derived`, the outcome of the search for it.
    pub fn initialization(
        &self,
        initializer: &Address,
        pool: &Address,
        token_program: &Address,
        shares: &Vec<u16>,
        derived: Option<(Address, u8)>,
    ) -> (result: Result<Effects, RoyaltyDistributorError>)
        requires
            shares@.len() == self.member_keys().len(),
        ensures
            outcome_view(result) == initialization_outcome(
                self.member_keys(),
                shares@,
                initializer@,
                pool@,
                token_program@,
                match derived {
                    Some((authority, bump_seed)) => Some((authority@, bump_seed)),
                    None => None,
                },
            ),
    {
        proof {
            use_type_invariant(self);
        }
        let mut members: Vec<Member> = Vec::new();
        let mut k: usize = 0;
        while k < self.members.len()
            invariant
                k <= self.members@.len(),
                shares@.len() == self.members@.len(),
                members@.len() == k,
                forall|j: int|
                    0 <= j < k ==> (#[trigger] members@[j])@ == (MemberView {
                        pubkey: self.members@[j]@,
                        shares: shares@[j],
                    }),
            decreases self.members@.len() - k,
        {
            members.push(Member { pubkey: self.members[k], shares: shares[k] });
            k += 1;
        }
        let state = RoyaltyDistributor { is_initialized: true, members };
        assert(state@.members =~= initial_state(self.member_keys(), shares@).members);
        let state_data = state.to_bytes();
        let authority = match derived {
            Some((authority, _)) => authority,
            None => {
                return Err(RoyaltyDistributorError::InvalidSeeds);
            },
        };
        match build_set_owner(token_program, pool, &authority, initializer) {
            Some(set_owner) => Ok(Effects::Initialized { state_data, set_owner }),
            None => Err(RoyaltyDistributorError::IncorrectProgramId),
        }
    }

    /// Runs a withdrawal.
    pub fn process_withdraw(&self, accounts: &[Account], program_id: &Address) -> (result: Result<
        Effects,
        RoyaltyDistributorError,
    >)
        ensures
            outcome_view(result) == withdraw_outcome(
                self.member_keys().len(),
                program_id@,
                accounts_view(accounts@),
            ),
            result matches Ok(Effects::Withdrawn { state_data, .. }) ==> state_data@
                == accounts@[1].data@,
    {
        if accounts.len() < 1 {
            return Err(RoyaltyDistributorError::NotEnoughAccountKeys);
        }
        let caller = &accounts[0];
        if !caller.is_signer {
            return Err(RoyaltyDistributorError::MissingRequiredSignature);
        }
        if accounts.len() < 2 {
            return Err(RoyaltyDistributorError::NotEnoughAccountKeys);
        }
        let state_account = &accounts[1];
        let state = RoyaltyDistributor::unpack(state_account.data.as_slice(), self.member_count())?;
        if accounts.len() < 3 {
            return Err(RoyaltyDistributorError::NotEnoughAccountKeys);
        }
        let pool = &accounts[2];
        let balance = read_token_amount(pool.data.as_slice())?;
        let (authority, bump_seed) = match Self::authority_address(program_id) {
            Some(found) => found,
            None => {
                return Err(RoyaltyDistributorError::InvalidSeeds);
            },
        };
        if accounts.len() < 5 {
            return Err(RoyaltyDistributorError::NotEnoughAccountKeys);
        }
        let token_program = &accounts[3];
        proof {
            lemma_encode_decode(state_account.data@, self.member_keys().len());
        }
        Self::withdrawal(&state, &pool.key, &token_program.key, balance, &authority, bump_seed)
    }

    /// Ends a withdrawal: pays every member of `state` its amount of
    /// `balance` out of the pool `pool`, on the word of the authority address
    /// `authority`, and writes the state back.
    pub fn withdrawal(
        state: &RoyaltyDistributor,
        pool: &Address,
        token_program: &Address,
        balance: u64,
        authority: &Address,
        bump_seed: u8,
    ) -> (result: Result<Effects, RoyaltyDistributorError>)
        requires
            state.wf(),
        ensures
            outcome_view(result) == withdrawal_outcome(
                state@,
                pool@,
                token_program@,
                balance,
                authority@,
                bump_seed,
            ),
    {
        let amounts = distribute(balance, &state.members);
        let mut transfers: Vec<CpiInstruction> = Vec::new();
        let mut k: usize = 0;
        while k < state.members.len()
            invariant
                k <= state.members@.len(),
                state.wf(),
                amounts@ == member_amounts(balance, state@.members),
                k > 0 ==> token_program@ == token_program_id(),
                transfers@.len() == k,
                forall|j: int|
                    0 <= j < k ==> (#[trigger] transfers@[j])@ == transfer_instruction(
                        token_program@,
                        pool@,
                        state.members@[j].pubkey@,
                        authority@,
                        member_amount(balance, state.members@[j].shares),
                    ),
            decreases state.members@.len() - k,
        {
            let member = state.members[k];
            match build_transfer(token_program, pool, &member.pubkey, authority, amounts[k]) {
                Some(transfer) => {
                    transfers.push(transfer);
                },
                None => {
                    return Err(RoyaltyDistributorError::IncorrectProgramId);
                },
            }
            k += 1;
        }
        let state_data = state.to_bytes();
        let effects = Effects::Withdrawn { transfers, bump_seed, state_data };
        assert(effects@->Withdrawn_transfers =~= member_transfers(
            state@,
            pool@,
            token_program@,
            balance,
            authority@,
        ));
        Ok(effects)
    }
}

} // verus!
