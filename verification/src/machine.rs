use vstd::prelude::*;
use crate::errors::ErrorCode;
use crate::ids::AccountId;
use crate::ids::ContractId;
use crate::ids::EscrowId;
use crate::ids::derive_contract_id;
use crate::ids::derive_escrow_id;
use crate::events::ContractInitialized;
use crate::events::ContractFunded;
use crate::events::ContractLive;
use crate::events::ContractSettled;
use crate::events::ContractCancelled;
use crate::escrow::Escrow;
use crate::oracle::feed_valid;
use crate::oracle::feed_raw_price;
use crate::oracle::feed_expo;
use crate::oracle::feed_conf;
use crate::oracle::normalized_price;
use crate::oracle::read_price_feed;
use crate::payoff::spec_long_payoff;
use crate::payoff::spec_short_payoff;
use crate::payoff::compute_payoff;

verus! {

// ---------------------------------------------------------------------------
// The contract lifecycle state machine. It is the sole writer of the state,
// the funding flags, and the settlement fields, and the sole authority over
// the contract's escrow pool. Each operation is an indivisible unit of work:
// on any error it returns with the contract and the escrow untouched, and
// the environment performs the value transfers an outcome describes.
// ---------------------------------------------------------------------------

/// Seconds between the funding deadline and the expiry: seven days.
pub const FUNDING_WINDOW: i64 = 7 * 24 * 60 * 60;

/// Lifecycle states. `Settled` and `Cancelled` are terminal.
#[derive(Clone, Copy, Debug, PartialEq, Eq, Structural)]
pub enum ContractState {
    Init,
    PartiallyFunded,
    Live,
    Settled,
    Cancelled,
}

/// Which counterparty is depositing collateral.
#[derive(Clone, Copy, Debug, PartialEq, Eq, Structural)]
pub enum FundingSide {
    A,
    B,
}

/// One bilateral derivative contract. Created once, mutated only by the
/// operations below, never deleted: settlement and cancellation are terminal
/// states, not removal.
#[derive(Debug)]
pub struct Contract {
    pub underlying_id: u8,
    /// Fixed-point strike, scale 1e-8; never zero (it is used as a divisor).
    pub strike: i64,
    pub expiry_ts: i64,
    /// Unsigned quantity; never zero.
    pub notional: u64,
    /// The external price feed this contract trusts.
    pub oracle: AccountId,
    /// The currency mint collateral is denominated in.
    pub usdc_mint: AccountId,
    pub state: ContractState,
    /// Each flag is set exactly once, false to true.
    pub funded_a: bool,
    pub funded_b: bool,
    pub party_a: AccountId,
    pub party_b: AccountId,
    /// Written exactly once, on the transition into `Settled`.
    pub settlement_price: Option<i64>,
    pub settlement_confidence: Option<u64>,
    /// Opaque authority tag of the record, assigned by the environment.
    pub bump: u8,
}

/// The identity a contract record derives from its individuating fields.
pub open spec fn contract_id_of(c: Contract) -> ContractId {
    ContractId { underlying_id: c.underlying_id, strike: c.strike, expiry_ts: c.expiry_ts }
}

pub open spec fn is_terminal(s: ContractState) -> bool {
    s is Settled || s is Cancelled
}

/// States in which a side may still deposit collateral (and from which the
/// contract may still be cancelled).
pub open spec fn fundable_state(s: ContractState) -> bool {
    s is Init || s is PartiallyFunded
}

/// The lifecycle graph: every change of `state` that a single successful
/// operation may make. No edge leaves `Settled` or `Cancelled`.
pub open spec fn lawful_step(pre: ContractState, post: ContractState) -> bool {
    ||| (pre is Init && post is PartiallyFunded)
    ||| (pre is PartiallyFunded && post is Live)
    ||| (pre is Live && post is Settled)
    ||| (pre is Init && post is Cancelled)
    ||| (pre is PartiallyFunded && post is Cancelled)
}

/// No lawful lifecycle step leaves a terminal state: once a contract is
/// settled or cancelled, no operation moves it again.
pub proof fn lemma_terminal_states_are_final(pre: ContractState, post: ContractState)
    requires
        lawful_step(pre, post),
    ensures
        !is_terminal(pre),
{
}

/// The funding flag of one side.
pub open spec fn side_flag(c: Contract, side: FundingSide) -> bool {
    if side is A {
        c.funded_a
    } else {
        c.funded_b
    }
}

/// Well-formedness of a contract record: the creation-time invariants plus
/// the coherence of the state with the funding flags and the single-write
/// settlement fields.
pub open spec fn contract_wf(c: Contract) -> bool {
    &&& c.strike != 0
    &&& c.notional > 0
    &&& c.party_a != c.party_b
    &&& c.expiry_ts >= i64::MIN + FUNDING_WINDOW
    &&& (c.state is Init ==> !c.funded_a && !c.funded_b)
    &&& (c.state is PartiallyFunded ==> (c.funded_a != c.funded_b))
    &&& (c.state is Live ==> c.funded_a && c.funded_b)
    &&& (c.state is Settled ==> c.funded_a && c.funded_b)
    &&& (c.state is Cancelled ==> !(c.funded_a && c.funded_b))
    &&& (c.settlement_price is Some <==> c.state is Settled)
    &&& (c.settlement_confidence is Some <==> c.state is Settled)
}

/// The binding between a contract and its escrow pool: the pool carries the
/// identity derived from the contract (the contract is its sole authority),
/// it is open exactly while the contract is not terminal, and it can hold
/// value only once some side has funded.
pub open spec fn escrow_matches(c: Contract, e: Escrow) -> bool {
    &&& e.id == (EscrowId { contract: contract_id_of(c) })
    &&& (e.is_open <==> !is_terminal(c.state))
    &&& (!c.funded_a && !c.funded_b ==> e.balance == 0)
    &&& (is_terminal(c.state) ==> e.balance == 0)
}

/// The fields no operation ever rewrites after creation.
pub open spec fn static_fields_unchanged(pre: Contract, post: Contract) -> bool {
    &&& post.underlying_id == pre.underlying_id
    &&& post.strike == pre.strike
    &&& post.expiry_ts == pre.expiry_ts
    &&& post.notional == pre.notional
    &&& post.oracle == pre.oracle
    &&& post.usdc_mint == pre.usdc_mint
    &&& post.party_a == pre.party_a
    &&& post.party_b == pre.party_b
    &&& post.bump == pre.bump
}

/// The accounts a contract creation touches.
#[derive(Debug)]
pub struct InitializeContract {
    pub party_a: AccountId,
    pub party_b: AccountId,
    pub oracle: AccountId,
    pub usdc_mint: AccountId,
}

/// The accounts a funding deposit touches.
#[derive(Debug)]
pub struct FundContract {
    pub payer: AccountId,
    pub payer_token_account: AccountId,
}

/// The accounts and raw feed record a settlement touches. The environment
/// reads the oracle account's bytes and hands them over unparsed.
#[derive(Debug)]
pub struct SettleContract {
    pub oracle_data: Vec<u8>,
    pub long_token_account: AccountId,
    pub short_token_account: AccountId,
    pub payer: AccountId,
}

/// The accounts a cancellation touches.
#[derive(Debug)]
pub struct CancelUnfunded {
    pub party_a_token_account: AccountId,
    pub party_b_token_account: AccountId,
    pub payer: AccountId,
}

/// What a successful funding deposit asks of the environment: the deposit
/// transfer is payer's token account to the escrow pool, for the funded
/// amount of the event.
#[derive(Debug)]
pub struct FundOutcome {
    pub funded_event: ContractFunded,
    pub live_event: Option<ContractLive>,
}

/// What a successful settlement asks of the environment: a transfer of each
/// non-zero amount from the escrow pool to the long and short destinations,
/// then closure of the drained pool (residue to the caller).
#[derive(Debug)]
pub struct SettlementOutcome {
    pub long_payout: u64,
    pub short_payout: u64,
    pub refund_long: u64,
    pub refund_short: u64,
    pub event: ContractSettled,
}

/// What a successful cancellation asks of the environment: one refund
/// transfer (if any) from the escrow pool, then closure of the pool.
#[derive(Debug)]
pub struct CancelOutcome {
    pub refunded_amount: u64,
    pub refund_destination: Option<AccountId>,
    pub event: ContractCancelled,
}

/// Create a contract in `Init` with an empty escrow pool exclusively
/// authorized by it. Rejects a zero strike or notional, identical parties,
/// and an expiry so early its funding deadline would underflow.
pub fn initialize_contract(
    accounts: &InitializeContract,
    underlying_id: u8,
    strike: i64,
    expiry_ts: i64,
    notional: u64,
    bump: u8,
) -> (r: Result<(Contract, Escrow, ContractInitialized), ErrorCode>)
    ensures
        (strike == 0 || notional == 0 || accounts.party_a == accounts.party_b || expiry_ts
            < i64::MIN + FUNDING_WINDOW) <==> r is Err,
        r is Err ==> r == Err::<(Contract, Escrow, ContractInitialized), ErrorCode>(
            ErrorCode::InvalidParameters,
        ),
        r matches Ok(out) ==> {
            &&& out.0 == (Contract {
                underlying_id,
                strike,
                expiry_ts,
                notional,
                oracle: accounts.oracle,
                usdc_mint: accounts.usdc_mint,
                state: ContractState::Init,
                funded_a: false,
                funded_b: false,
                party_a: accounts.party_a,
                party_b: accounts.party_b,
                settlement_price: None::<i64>,
                settlement_confidence: None::<u64>,
                bump,
            })
            &&& out.1 == (Escrow {
                id: EscrowId { contract: contract_id_of(out.0) },
                balance: 0,
                is_open: true,
            })
            &&& out.2 == (ContractInitialized {
                contract: contract_id_of(out.0),
                underlying_id,
                strike,
                expiry_ts,
                notional,
            })
            &&& contract_wf(out.0)
            &&& escrow_matches(out.0, out.1)
        },
{
    if strike == 0 || notional == 0 || accounts.party_a == accounts.party_b || expiry_ts < i64::MIN
        + FUNDING_WINDOW {
        return Err(ErrorCode::InvalidParameters);
    }
    let contract = Contract {
        underlying_id,
        strike,
        expiry_ts,
        notional,
        oracle: accounts.oracle,
        usdc_mint: accounts.usdc_mint,
        state: ContractState::Init,
        funded_a: false,
        funded_b: false,
        party_a: accounts.party_a,
        party_b: accounts.party_b,
        settlement_price: None,
        settlement_confidence: None,
        bump,
    };
    let cid = derive_contract_id(underlying_id, strike, expiry_ts);
    let escrow = Escrow::new(derive_escrow_id(cid));
    let event = ContractInitialized { contract: cid, underlying_id, strike, expiry_ts, notional };
    Ok((contract, escrow, event))
}

/// Deposit collateral for one side. Valid only in `Init` or
/// `PartiallyFunded`; each side funds exactly once. When the second side
/// arrives the contract goes `Live`, otherwise `PartiallyFunded`.
pub fn fund_contract(
    contract: &mut Contract,
    escrow: &mut Escrow,
    accounts: &FundContract,
    side: FundingSide,
    amount: u64,
) -> (r: Result<FundOutcome, ErrorCode>)
    requires
        contract_wf(*old(contract)),
        escrow_matches(*old(contract), *old(escrow)),
        old(escrow).balance + amount <= u64::MAX,
    ensures
        contract_wf(*final(contract)),
        escrow_matches(*final(contract), *final(escrow)),
        r is Err ==> *final(contract) == *old(contract) && *final(escrow) == *old(escrow),
        !fundable_state(old(contract).state) ==> r == Err::<FundOutcome, ErrorCode>(
            ErrorCode::InvalidContractStatus,
        ),
        fundable_state(old(contract).state) && side_flag(*old(contract), side) ==> r == Err::<
            FundOutcome,
            ErrorCode,
        >(ErrorCode::AlreadyFunded),
        fundable_state(old(contract).state) && !side_flag(*old(contract), side) ==> r is Ok,
        r matches Ok(out) ==> {
            &&& static_fields_unchanged(*old(contract), *final(contract))
            &&& final(contract).funded_a == (old(contract).funded_a || side is A)
            &&& final(contract).funded_b == (old(contract).funded_b || side is B)
            &&& final(contract).state == (if final(contract).funded_a
                && final(contract).funded_b {
                ContractState::Live
            } else {
                ContractState::PartiallyFunded
            })
            &&& final(contract).settlement_price == old(contract).settlement_price
            &&& final(contract).settlement_confidence == old(contract).settlement_confidence
            &&& final(escrow).id == old(escrow).id
            &&& final(escrow).is_open
            &&& final(escrow).balance == old(escrow).balance + amount
            &&& lawful_step(old(contract).state, final(contract).state)
            &&& out.funded_event == (ContractFunded {
                contract: contract_id_of(*old(contract)),
                side: if side is A { 0u8 } else { 1u8 },
                amount,
            })
            &&& out.live_event == (if final(contract).funded_a && final(contract).funded_b {
                Some(ContractLive { contract: contract_id_of(*old(contract)) })
            } else {
                None::<ContractLive>
            })
        },
{
    let startable = match contract.state {
        ContractState::Init => true,
        ContractState::PartiallyFunded => true,
        _ => false,
    };
    if !startable {
        return Err(ErrorCode::InvalidContractStatus);
    }
    match side {
        FundingSide::A => {
            if contract.funded_a {
                return Err(ErrorCode::AlreadyFunded);
            }
            contract.funded_a = true;
        },
        FundingSide::B => {
            if contract.funded_b {
                return Err(ErrorCode::AlreadyFunded);
            }
            contract.funded_b = true;
        },
    }
    escrow.deposit(amount);
    let went_live = contract.funded_a && contract.funded_b;
    contract.state = if went_live {
        ContractState::Live
    } else {
        ContractState::PartiallyFunded
    };
    let cid = derive_contract_id(contract.underlying_id, contract.strike, contract.expiry_ts);
    let side_tag: u8 = match side {
        FundingSide::A => 0,
        FundingSide::B => 1,
    };
    Ok(
        FundOutcome {
            funded_event: ContractFunded { contract: cid, side: side_tag, amount },
            live_event: if went_live {
                Some(ContractLive { contract: cid })
            } else {
                None
            },
        },
    )
}

/// Settle a live, expired contract against its validated price feed. The
/// winner's entitlement is capped to the escrow balance, the loser's to what
/// remains; any residual is split evenly, the odd unit going to the short
/// destination; the drained pool is closed. The whole balance is paid out:
/// no value is created or destroyed.
pub fn settle_contract(
    contract: &mut Contract,
    escrow: &mut Escrow,
    accounts: &SettleContract,
    now: i64,
) -> (r: Result<SettlementOutcome, ErrorCode>)
    requires
        contract_wf(*old(contract)),
        escrow_matches(*old(contract), *old(escrow)),
    ensures
        contract_wf(*final(contract)),
        escrow_matches(*final(contract), *final(escrow)),
        r is Err ==> *final(contract) == *old(contract) && *final(escrow) == *old(escrow),
        !(old(contract).state is Live) ==> r == Err::<SettlementOutcome, ErrorCode>(
            ErrorCode::InvalidContractStatus,
        ),
        old(contract).state is Live && now < old(contract).expiry_ts ==> r == Err::<
            SettlementOutcome,
            ErrorCode,
        >(ErrorCode::ContractNotExpired),
        old(contract).state is Live && now >= old(contract).expiry_ts && !feed_valid(
            accounts.oracle_data@,
            now as int,
        ) ==> r == Err::<SettlementOutcome, ErrorCode>(ErrorCode::OracleFeedError),
        old(contract).state is Live && now >= old(contract).expiry_ts && feed_valid(
            accounts.oracle_data@,
            now as int,
        ) ==> r is Ok,
        r matches Ok(out) ==> {
            let d = accounts.oracle_data@;
            let price = normalized_price(feed_raw_price(d), feed_expo(d));
            let longp = spec_long_payoff(
                old(contract).strike as int,
                old(contract).notional as int,
                price,
            );
            let shortp = spec_short_payoff(
                old(contract).strike as int,
                old(contract).notional as int,
                price,
            );
            let bal = old(escrow).balance as int;
            let long_payout = if longp <= bal { longp } else { bal };
            let short_payout = if long_payout < bal {
                if shortp <= bal - long_payout {
                    shortp
                } else {
                    bal - long_payout
                }
            } else {
                0
            };
            let residual = bal - long_payout - short_payout;
            &&& out.long_payout == long_payout
            &&& out.short_payout == short_payout
            &&& out.refund_long == residual / 2
            &&& out.refund_short == residual - residual / 2
            &&& out.long_payout + out.short_payout + out.refund_long + out.refund_short == bal
            &&& static_fields_unchanged(*old(contract), *final(contract))
            &&& final(contract).funded_a == old(contract).funded_a
            &&& final(contract).funded_b == old(contract).funded_b
            &&& final(contract).state is Settled
            &&& final(contract).settlement_price == Some(price as i64)
            &&& final(contract).settlement_confidence == Some(feed_conf(d) as u64)
            &&& final(escrow).id == old(escrow).id
            &&& final(escrow).balance == 0
            &&& !final(escrow).is_open
            &&& lawful_step(old(contract).state, final(contract).state)
            &&& out.event == (ContractSettled {
                contract: contract_id_of(*old(contract)),
                price: price as i64,
                confidence: feed_conf(d) as u64,
                timestamp: now,
                long_payout: out.long_payout,
                short_payout: out.short_payout,
            })
        },
{
    let live = match contract.state {
        ContractState::Live => true,
        _ => false,
    };
    if !live {
        return Err(ErrorCode::InvalidContractStatus);
    }
    if now < contract.expiry_ts {
        return Err(ErrorCode::ContractNotExpired);
    }
    let price_data = match read_price_feed(&accounts.oracle_data, now) {
        Ok(p) => p,
        Err(e) => {
            return Err(e);
        },
    };
    let (long_payoff, short_payoff) = compute_payoff(
        contract.strike,
        contract.notional,
        price_data.price,
    );
    let bal = escrow.balance;
    let long_payout = if long_payoff <= bal {
        long_payoff
    } else {
        bal
    };
    let short_payout = if long_payout < bal {
        let rem = bal - long_payout;
        if short_payoff <= rem {
            short_payoff
        } else {
            rem
        }
    } else {
        0
    };
    let residual = bal - long_payout - short_payout;
    let refund_long = residual / 2;
    let refund_short = residual - refund_long;
    escrow.payout(long_payout);
    escrow.payout(short_payout);
    escrow.payout(refund_long);
    escrow.payout(refund_short);
    escrow.close();
    contract.state = ContractState::Settled;
    contract.settlement_price = Some(price_data.price);
    contract.settlement_confidence = Some(price_data.conf);
    let cid = derive_contract_id(contract.underlying_id, contract.strike, contract.expiry_ts);
    Ok(
        SettlementOutcome {
            long_payout,
            short_payout,
            refund_long,
            refund_short,
            event: ContractSettled {
                contract: cid,
                price: price_data.price,
                confidence: price_data.conf,
                timestamp: now,
                long_payout,
                short_payout,
            },
        },
    )
}

/// Cancel a contract that never went live, once the funding deadline (seven
/// days before expiry) has passed. The full escrow balance is refunded to
/// whichever side funded, and the pool is closed.
pub fn cancel_unfunded(
    contract: &mut Contract,
    escrow: &mut Escrow,
    accounts: &CancelUnfunded,
    now: i64,
) -> (r: Result<CancelOutcome, ErrorCode>)
    requires
        contract_wf(*old(contract)),
        escrow_matches(*old(contract), *old(escrow)),
    ensures
        contract_wf(*final(contract)),
        escrow_matches(*final(contract), *final(escrow)),
        r is Err ==> *final(contract) == *old(contract) && *final(escrow) == *old(escrow),
        !fundable_state(old(contract).state) ==> r == Err::<CancelOutcome, ErrorCode>(
            ErrorCode::InvalidContractStatus,
        ),
        fundable_state(old(contract).state) && now < old(contract).expiry_ts - FUNDING_WINDOW
            ==> r == Err::<CancelOutcome, ErrorCode>(ErrorCode::FundingDeadlineNotPassed),
        fundable_state(old(contract).state) && now >= old(contract).expiry_ts - FUNDING_WINDOW
            ==> r is Ok,
        r matches Ok(out) ==> {
            &&& out.refunded_amount == old(escrow).balance
            &&& out.refund_destination == (if old(escrow).balance > 0
                && old(contract).funded_a {
                Some(accounts.party_a_token_account)
            } else if old(escrow).balance > 0 && old(contract).funded_b {
                Some(accounts.party_b_token_account)
            } else {
                None::<AccountId>
            })
            &&& static_fields_unchanged(*old(contract), *final(contract))
            &&& final(contract).funded_a == old(contract).funded_a
            &&& final(contract).funded_b == old(contract).funded_b
            &&& final(contract).state is Cancelled
            &&& final(contract).settlement_price == old(contract).settlement_price
            &&& final(contract).settlement_confidence == old(contract).settlement_confidence
            &&& final(escrow).id == old(escrow).id
            &&& final(escrow).balance == 0
            &&& !final(escrow).is_open
            &&& lawful_step(old(contract).state, final(contract).state)
            &&& out.event == (ContractCancelled {
                contract: contract_id_of(*old(contract)),
                refunded_amount: old(escrow).balance,
            })
        },
{
    let startable = match contract.state {
        ContractState::Init => true,
        ContractState::PartiallyFunded => true,
        _ => false,
    };
    if !startable {
        return Err(ErrorCode::InvalidContractStatus);
    }
    let funding_deadline = contract.expiry_ts - FUNDING_WINDOW;
    if now < funding_deadline {
        return Err(ErrorCode::FundingDeadlineNotPassed);
    }
    let bal = escrow.balance;
    let dest: Option<AccountId> = if bal > 0 {
        if contract.funded_a {
            Some(accounts.party_a_token_account)
        } else {
            Some(accounts.party_b_token_account)
        }
    } else {
        None
    };
    escrow.payout(bal);
    escrow.close();
    contract.state = ContractState::Cancelled;
    let cid = derive_contract_id(contract.underlying_id, contract.strike, contract.expiry_ts);
    Ok(
        CancelOutcome {
            refunded_amount: bal,
            refund_destination: dest,
            event: ContractCancelled { contract: cid, refunded_amount: bal },
        },
    )
}

} // verus!
