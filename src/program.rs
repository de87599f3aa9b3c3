//! The operations callers invoke. Each takes the accounts it works on as
//! plain values, checks them and the caller's role, applies the lifecycle
//! step and returns the token movements for the ledger to carry out. An
//! operation that fails leaves every account as it was.
use vstd::prelude::*;
use crate::auth::{authorize, holder, refusal, Role};
use crate::machine::{payment_due, step, Action};
use crate::settlement::{compute_shares, shares_of, sum};
use crate::state::{Address, ISAConfig, InvestorStake, IsaError, IsaState, TokenAccount, TokenTransfer};

verus! {

/// A stake record handed in for a distribution, with the token account
/// that receives that investor's share.
#[derive(Clone, Copy, Debug)]
pub struct StakeEntry {
    pub stake: InvestorStake,
    pub recipient: TokenAccount,
}

/// The accounts of a distribution.
#[derive(Clone, Copy, Debug)]
pub struct DistributePayments {
    pub isa_state: IsaState,
    pub isa_key: Address,
    pub vault: TokenAccount,
}

/// The stake amounts of the entries, in order.
pub open spec fn stake_amounts(entries: Seq<StakeEntry>) -> Seq<u64> {
    entries.map_values(|e: StakeEntry| e.stake.amount)
}

/// The transfers from `vault` that pay each entry its share, skipping the
/// entries whose share is zero.
pub open spec fn payouts(vault: Address, entries: Seq<StakeEntry>, shares: Seq<u64>) -> Seq<TokenTransfer>
    decreases entries.len(),
{
    if entries.len() == 0 || shares.len() == 0 {
        Seq::empty()
    } else {
        let rest = payouts(vault, entries.drop_last(), shares.drop_last());
        if shares.last() == 0 {
            rest
        } else {
            rest.push(TokenTransfer { from: vault, to: entries.last().recipient.key, amount: shares.last() })
        }
    }
}

/// Every entry's stake belongs to the agreement at `isa_key`.
pub open spec fn all_belong(entries: Seq<StakeEntry>, isa_key: Address) -> bool {
    forall|i: int| 0 <= i < entries.len() ==> (#[trigger] entries[i]).stake.isa@ == isa_key@
}

/// Splits `amount_to_distribute` from the escrow over the supplied stakes in
/// proportion to their amounts, and adds what is handed out to the
/// agreement's distributed total. The stakes are the caller's choice.
pub fn distribute_payments(
    ctx: &mut DistributePayments,
    remaining: &Vec<StakeEntry>,
    amount_to_distribute: u64,
) -> (r: Result<Vec<TokenTransfer>, IsaError>)
    ensures
        old(ctx).vault.key@ != old(ctx).isa_state.vault@ ==> r == Err::<Vec<TokenTransfer>, IsaError>(
            IsaError::InvalidVault,
        ),
        old(ctx).vault.key@ == old(ctx).isa_state.vault@ && amount_to_distribute == 0 ==> r
            == Err::<Vec<TokenTransfer>, IsaError>(IsaError::InvalidAmount),
        old(ctx).vault.key@ == old(ctx).isa_state.vault@ && amount_to_distribute > 0
            && old(ctx).vault.amount < amount_to_distribute ==> r == Err::<Vec<TokenTransfer>, IsaError>(
            IsaError::NoFunds,
        ),
        old(ctx).vault.key@ == old(ctx).isa_state.vault@ && amount_to_distribute > 0
            && old(ctx).vault.amount >= amount_to_distribute && remaining.len() == 0 ==> r
            == Err::<Vec<TokenTransfer>, IsaError>(IsaError::InvalidAccounts),
        old(ctx).vault.key@ == old(ctx).isa_state.vault@ && amount_to_distribute > 0
            && old(ctx).vault.amount >= amount_to_distribute && remaining.len() > 0 && !all_belong(
            remaining@,
            old(ctx).isa_key,
        ) ==> r == Err::<Vec<TokenTransfer>, IsaError>(IsaError::InvalidStake),
        old(ctx).vault.key@ == old(ctx).isa_state.vault@ && amount_to_distribute > 0
            && old(ctx).vault.amount >= amount_to_distribute && remaining.len() > 0 && all_belong(
            remaining@,
            old(ctx).isa_key,
        ) && sum(stake_amounts(remaining@)) == 0 ==> r == Err::<Vec<TokenTransfer>, IsaError>(
            IsaError::NoInvestors,
        ),
        old(ctx).vault.key@ == old(ctx).isa_state.vault@ && amount_to_distribute > 0
            && old(ctx).vault.amount >= amount_to_distribute && remaining.len() > 0 && all_belong(
            remaining@,
            old(ctx).isa_key,
        ) && sum(stake_amounts(remaining@)) > 0 ==> {
            let shares = shares_of(amount_to_distribute, stake_amounts(remaining@));
            &&& sum(shares) <= amount_to_distribute
            &&& step(old(ctx).isa_state, Action::Distribute(sum(shares) as u64)) matches Err(e)
                ==> r == Err::<Vec<TokenTransfer>, IsaError>(e)
            &&& step(old(ctx).isa_state, Action::Distribute(sum(shares) as u64)) matches Ok(n) ==> {
                &&& r matches Ok(v) && v@ == payouts(old(ctx).vault.key, remaining@, shares)
                &&& final(ctx).isa_state == n
                &&& final(ctx).isa_key == old(ctx).isa_key
                &&& final(ctx).vault == old(ctx).vault
            }
        },
        r is Err ==> *final(ctx) == *old(ctx),
{
    if !ctx.vault.key.same(&ctx.isa_state.vault) {
        return Err(IsaError::InvalidVault);
    }
    if amount_to_distribute == 0 {
        return Err(IsaError::InvalidAmount);
    }
    if ctx.vault.amount < amount_to_distribute {
        return Err(IsaError::NoFunds);
    }
    if remaining.len() == 0 {
        return Err(IsaError::InvalidAccounts);
    }
    let ghost entries = remaining@;
    let mut amounts: Vec<u64> = Vec::new();
    let mut i: usize = 0;
    while i < remaining.len()
        invariant
            0 <= i <= remaining.len(),
            entries == remaining@,
            *ctx == *old(ctx),
            ctx.vault.key@ == ctx.isa_state.vault@,
            amount_to_distribute > 0,
            ctx.vault.amount >= amount_to_distribute,
            remaining.len() > 0,
            amounts@ == stake_amounts(entries).take(i as int),
            forall|j: int| 0 <= j < i ==> (#[trigger] entries[j]).stake.isa@ == ctx.isa_key@,
        decreases remaining.len() - i,
    {
        let entry = &remaining[i];
        if !entry.stake.isa.same(&ctx.isa_key) {
            return Err(IsaError::InvalidStake);
        }
        amounts.push(entry.stake.amount);
        i = i + 1;
        assert(amounts@ =~= stake_amounts(entries).take(i as int));
    }
    assert(amounts@ =~= stake_amounts(entries));
    let shares = match compute_shares(amount_to_distribute, &amounts) {
        Ok(s) => s,
        Err(e) => {
            return Err(e);
        },
    };
    assert(shares@.len() == entries.len());
    let mut transfers: Vec<TokenTransfer> = Vec::new();
    let mut distributed: u64 = 0;
    let mut k: usize = 0;
    while k < shares.len()
        invariant
            0 <= k <= shares.len(),
            shares.len() == entries.len(),
            entries == remaining@,
            *ctx == *old(ctx),
            sum(shares@) <= amount_to_distribute,
            distributed == sum(shares@.take(k as int)),
            transfers@ == payouts(ctx.vault.key, entries.take(k as int), shares@.take(k as int)),
        decreases shares.len() - k,
    {
        proof {
            crate::settlement::lemma_sum_prefix_le(shares@, k as int + 1);
            crate::settlement::lemma_sum_take_last(shares@, k as int);
        }
        let share = shares[k];
        if share > 0 {
            transfers.push(TokenTransfer { from: ctx.vault.key, to: remaining[k].recipient.key, amount: share });
        }
        distributed = distributed + share;
        k = k + 1;
        assert(entries.take(k as int).drop_last() =~= entries.take(k as int - 1));
        assert(shares@.take(k as int).drop_last() =~= shares@.take(k as int - 1));
    }
    assert(entries.take(k as int) =~= entries);
    assert(shares@.take(k as int) =~= shares@);
    let next = match ctx.isa_state.record_distribution(distributed) {
        Ok(n) => n,
        Err(e) => {
            return Err(e);
        },
    };
    ctx.isa_state = next;
    Ok(transfers)
}


/// The accounts of an investment.
#[derive(Clone, Copy, Debug)]
pub struct Invest {
    pub isa_state: IsaState,
    pub isa_key: Address,
    pub investor_stake: InvestorStake,
    pub stake_bump: u8,
    pub investor: Address,
    pub investor_ata: TokenAccount,
    pub vault: TokenAccount,
}

/// The investor's stake after adding `amount`: a fresh record on the first
/// investment, the same record grown on a later one.
pub open spec fn stake_after(
    stake: InvestorStake,
    isa_key: Address,
    investor: Address,
    amount: u64,
    bump: u8,
) -> Result<InvestorStake, IsaError> {
    if !stake.initialized {
        Ok(InvestorStake { isa: isa_key, investor, amount, initialized: true, bump })
    } else if stake.isa@ != isa_key@ {
        Err(IsaError::InvalidStake)
    } else if stake.investor@ != investor@ {
        Err(IsaError::InvalidStakeOwner)
    } else if stake.amount + amount > u64::MAX {
        Err(IsaError::MathOverflow)
    } else {
        Ok(InvestorStake { amount: (stake.amount + amount) as u64, ..stake })
    }
}

/// A token account of `owner` that holds the agreement's unit of value.
pub open spec fn holds_mint_of(ata: TokenAccount, isa: IsaState, owner: Address) -> bool {
    ata.mint@ == isa.token_mint@ && ata.owner@ == owner@
}

fn check_token_account(ata: &TokenAccount, isa: &IsaState, owner: &Address) -> (r: Result<(), IsaError>)
    ensures
        holds_mint_of(*ata, *isa, *owner) ==> r is Ok,
        !holds_mint_of(*ata, *isa, *owner) ==> r == Err::<(), IsaError>(IsaError::InvalidTokenAccount),
{
    if ata.mint.same(&isa.token_mint) && ata.owner.same(owner) {
        Ok(())
    } else {
        Err(IsaError::InvalidTokenAccount)
    }
}

fn check_vault(vault: &TokenAccount, isa: &IsaState) -> (r: Result<(), IsaError>)
    ensures
        vault.key@ == isa.vault@ ==> r is Ok,
        vault.key@ != isa.vault@ ==> r == Err::<(), IsaError>(IsaError::InvalidVault),
{
    if vault.key.same(&isa.vault) {
        Ok(())
    } else {
        Err(IsaError::InvalidVault)
    }
}

/// An investor adds `amount` to the funding while the agreement is in
/// `Learning`; the amount moves from the investor's token account to the
/// escrow and accumulates in the investor's one stake record.
pub fn invest(ctx: &mut Invest, amount: u64) -> (r: Result<TokenTransfer, IsaError>)
    ensures
        !holds_mint_of(old(ctx).investor_ata, old(ctx).isa_state, old(ctx).investor) ==> r
            == Err::<TokenTransfer, IsaError>(IsaError::InvalidTokenAccount),
        holds_mint_of(old(ctx).investor_ata, old(ctx).isa_state, old(ctx).investor)
            && old(ctx).vault.key@ != old(ctx).isa_state.vault@ ==> r == Err::<TokenTransfer, IsaError>(
            IsaError::InvalidVault,
        ),
        holds_mint_of(old(ctx).investor_ata, old(ctx).isa_state, old(ctx).investor)
            && old(ctx).vault.key@ == old(ctx).isa_state.vault@ ==> {
            let s = step(old(ctx).isa_state, Action::Invest(amount));
            let k = stake_after(
                old(ctx).investor_stake,
                old(ctx).isa_key,
                old(ctx).investor,
                amount,
                old(ctx).stake_bump,
            );
            &&& s matches Err(e) ==> r == Err::<TokenTransfer, IsaError>(e)
            &&& s is Ok ==> (k matches Err(e) ==> r == Err::<TokenTransfer, IsaError>(e))
            &&& s matches Ok(n) ==> (k matches Ok(st) ==> {
                &&& r == Ok::<TokenTransfer, IsaError>(
                    TokenTransfer { from: old(ctx).investor_ata.key, to: old(ctx).vault.key, amount },
                )
                &&& *final(ctx) == (Invest { isa_state: n, investor_stake: st, ..*old(ctx) })
            })
        },
        r is Err ==> *final(ctx) == *old(ctx),
{
    match check_token_account(&ctx.investor_ata, &ctx.isa_state, &ctx.investor) {
        Ok(()) => {},
        Err(e) => {
            return Err(e);
        },
    }
    match check_vault(&ctx.vault, &ctx.isa_state) {
        Ok(()) => {},
        Err(e) => {
            return Err(e);
        },
    }
    let next = match ctx.isa_state.record_investment(amount) {
        Ok(n) => n,
        Err(e) => {
            return Err(e);
        },
    };
    let stake = ctx.investor_stake;
    let grown = if !stake.initialized {
        InvestorStake {
            isa: ctx.isa_key,
            investor: ctx.investor,
            amount,
            initialized: true,
            bump: ctx.stake_bump,
        }
    } else {
        if !stake.isa.same(&ctx.isa_key) {
            return Err(IsaError::InvalidStake);
        }
        if !stake.investor.same(&ctx.investor) {
            return Err(IsaError::InvalidStakeOwner);
        }
        match stake.amount.checked_add(amount) {
            Some(a) => InvestorStake { amount: a, ..stake },
            None => {
                return Err(IsaError::MathOverflow);
            },
        }
    };
    ctx.isa_state = next;
    ctx.investor_stake = grown;
    Ok(TokenTransfer { from: ctx.investor_ata.key, to: ctx.vault.key, amount })
}

/// The accounts of an installment payment.
#[derive(Clone, Copy, Debug)]
pub struct PayShare {
    pub isa_state: IsaState,
    pub student: Address,
    pub student_ata: TokenAccount,
    pub vault: TokenAccount,
}

/// The student pays the installment due, `floor(last_salary * percent / 100)`
/// cut down to what is left under the cap, from their token account into
/// the escrow.
pub fn pay_share(ctx: &mut PayShare) -> (r: Result<TokenTransfer, IsaError>)
    ensures
        !holds_mint_of(old(ctx).student_ata, old(ctx).isa_state, old(ctx).student) ==> r
            == Err::<TokenTransfer, IsaError>(IsaError::InvalidTokenAccount),
        holds_mint_of(old(ctx).student_ata, old(ctx).isa_state, old(ctx).student)
            && old(ctx).vault.key@ != old(ctx).isa_state.vault@ ==> r == Err::<TokenTransfer, IsaError>(
            IsaError::InvalidVault,
        ),
        holds_mint_of(old(ctx).student_ata, old(ctx).isa_state, old(ctx).student)
            && old(ctx).vault.key@ == old(ctx).isa_state.vault@ ==> {
            let s = step(old(ctx).isa_state, Action::PayShare);
            &&& s matches Err(e) ==> r == Err::<TokenTransfer, IsaError>(e)
            &&& s matches Ok(n) ==> {
                &&& r == Ok::<TokenTransfer, IsaError>(
                    TokenTransfer {
                        from: old(ctx).student_ata.key,
                        to: old(ctx).vault.key,
                        amount: payment_due(old(ctx).isa_state) as u64,
                    },
                )
                &&& *final(ctx) == (PayShare { isa_state: n, ..*old(ctx) })
            }
        },
        r matches Ok(t) ==> final(ctx).isa_state.already_paid == old(ctx).isa_state.already_paid
            + t.amount,
        r is Err ==> *final(ctx) == *old(ctx),
{
    match check_token_account(&ctx.student_ata, &ctx.isa_state, &ctx.student) {
        Ok(()) => {},
        Err(e) => {
            return Err(e);
        },
    }
    match check_vault(&ctx.vault, &ctx.isa_state) {
        Ok(()) => {},
        Err(e) => {
            return Err(e);
        },
    }
    let (next, due) = match ctx.isa_state.record_payment() {
        Ok(p) => p,
        Err(e) => {
            return Err(e);
        },
    };
    ctx.isa_state = next;
    Ok(TokenTransfer { from: ctx.student_ata.key, to: ctx.vault.key, amount: due })
}

/// The accounts of opening an agreement.
#[derive(Clone, Copy, Debug)]
pub struct InitializeIsa {
    pub isa_state: IsaState,
    pub isa_key: Address,
    pub isa_bump: u8,
    pub vault: TokenAccount,
    pub mint: Address,
    pub student: Address,
}

/// The student opens an agreement with these terms; the escrow must hold
/// the agreement's unit of value and be owned by the agreement's record.
pub fn initialize_isa(ctx: &mut InitializeIsa, course_cost: u64, percent: u8, max_cap: u64) -> (r: Result<
    (),
    IsaError,
>)
    ensures
        !(0 < percent <= 100) ==> r == Err::<(), IsaError>(IsaError::InvalidPercent),
        0 < percent <= 100 && old(ctx).vault.mint@ != old(ctx).mint@ ==> r == Err::<(), IsaError>(
            IsaError::InvalidVault,
        ),
        0 < percent <= 100 && old(ctx).vault.mint@ == old(ctx).mint@ && old(ctx).vault.owner@ != old(
            ctx,
        ).isa_key@ ==> r == Err::<(), IsaError>(IsaError::InvalidVaultOwner),
        0 < percent <= 100 && old(ctx).vault.mint@ == old(ctx).mint@ && old(ctx).vault.owner@ == old(
            ctx,
        ).isa_key@ ==> r is Ok && *final(ctx) == (InitializeIsa {
            isa_state: IsaState {
                owner: old(ctx).student,
                token_mint: old(ctx).mint,
                vault: old(ctx).vault.key,
                course_cost,
                percent,
                max_cap,
                total_invested: 0,
                already_paid: 0,
                total_distributed: 0,
                last_salary: 0,
                status: crate::state::IsaStatus::Learning,
                bump: old(ctx).isa_bump,
            },
            ..*old(ctx)
        }),
        r is Ok ==> final(ctx).isa_state.wf(),
        r is Err ==> *final(ctx) == *old(ctx),
{
    let fresh = match IsaState::open_agreement(
        ctx.student,
        ctx.mint,
        ctx.vault.key,
        course_cost,
        percent,
        max_cap,
        ctx.isa_bump,
    ) {
        Ok(s) => s,
        Err(e) => {
            return Err(e);
        },
    };
    if !ctx.vault.mint.same(&fresh.token_mint) {
        return Err(IsaError::InvalidVault);
    }
    if !ctx.vault.owner.same(&ctx.isa_key) {
        return Err(IsaError::InvalidVaultOwner);
    }
    ctx.isa_state = fresh;
    Ok(())
}

/// The accounts of paying the course funds to the university.
#[derive(Clone, Copy, Debug)]
pub struct ReleaseFunds {
    pub isa_state: IsaState,
    pub vault: TokenAccount,
    pub config: ISAConfig,
    pub university_ata: TokenAccount,
}

/// Moves the whole escrow balance to the university's token account, on
/// the agreement's own authority, and leaves funding for `StudyingPaid`.
pub fn release_funds_to_university(ctx: &mut ReleaseFunds) -> (r: Result<TokenTransfer, IsaError>)
    ensures
        old(ctx).vault.key@ != old(ctx).isa_state.vault@ ==> r == Err::<TokenTransfer, IsaError>(
            IsaError::InvalidVault,
        ),
        old(ctx).vault.key@ == old(ctx).isa_state.vault@ && old(ctx).university_ata.owner@ != old(
            ctx,
        ).config.university@ ==> r == Err::<TokenTransfer, IsaError>(IsaError::InvalidUniversity),
        old(ctx).vault.key@ == old(ctx).isa_state.vault@ && old(ctx).university_ata.owner@ == old(
            ctx,
        ).config.university@ ==> {
            let s = step(old(ctx).isa_state, Action::Release(old(ctx).vault.amount));
            &&& s matches Err(e) ==> r == Err::<TokenTransfer, IsaError>(e)
            &&& s matches Ok(n) ==> {
                &&& r == Ok::<TokenTransfer, IsaError>(
                    TokenTransfer {
                        from: old(ctx).vault.key,
                        to: old(ctx).university_ata.key,
                        amount: old(ctx).vault.amount,
                    },
                )
                &&& *final(ctx) == (ReleaseFunds { isa_state: n, ..*old(ctx) })
            }
        },
        r is Err ==> *final(ctx) == *old(ctx),
{
    match check_vault(&ctx.vault, &ctx.isa_state) {
        Ok(()) => {},
        Err(e) => {
            return Err(e);
        },
    }
    if !ctx.university_ata.owner.same(&ctx.config.university) {
        return Err(IsaError::InvalidUniversity);
    }
    let next = match ctx.isa_state.record_release(ctx.vault.amount) {
        Ok(n) => n,
        Err(e) => {
            return Err(e);
        },
    };
    ctx.isa_state = next;
    Ok(TokenTransfer { from: ctx.vault.key, to: ctx.university_ata.key, amount: ctx.vault.amount })
}


/// The accounts of a salary report.
#[derive(Clone, Copy, Debug)]
pub struct UpdateSalary {
    pub isa_state: IsaState,
    pub config: ISAConfig,
    pub oracle: Address,
}

/// The oracle reports the student's salary: `Unemployed` on zero, `Working`
/// otherwise, whatever the status was before.
pub fn update_salary(ctx: &mut UpdateSalary, salary: u64) -> (r: Result<(), IsaError>)
    ensures
        old(ctx).oracle@ != holder(old(ctx).config, Role::Oracle)@ ==> r == Err::<(), IsaError>(
            refusal(Role::Oracle),
        ),
        old(ctx).oracle@ == holder(old(ctx).config, Role::Oracle)@ ==> r is Ok && Ok::<
            IsaState,
            IsaError,
        >(final(ctx).isa_state) == step(old(ctx).isa_state, Action::UpdateSalary(salary)),
        final(ctx).config == old(ctx).config,
        final(ctx).oracle == old(ctx).oracle,
        r is Err ==> *final(ctx) == *old(ctx),
{
    match authorize(&ctx.config, Role::Oracle, &ctx.oracle) {
        Ok(()) => {},
        Err(e) => {
            return Err(e);
        },
    }
    ctx.isa_state = ctx.isa_state.record_salary(salary);
    Ok(())
}

/// The accounts of a dropout report.
#[derive(Clone, Copy, Debug)]
pub struct ReportDropout {
    pub isa_state: IsaState,
    pub config: ISAConfig,
    pub university: Address,
}

/// The university reports that the student dropped out: the rate and the
/// cap become zero for good and the agreement ends in `DroppedOut`.
pub fn report_dropout(ctx: &mut ReportDropout) -> (r: Result<(), IsaError>)
    ensures
        old(ctx).university@ != holder(old(ctx).config, Role::University)@ ==> r == Err::<
            (),
            IsaError,
        >(refusal(Role::University)),
        old(ctx).university@ == holder(old(ctx).config, Role::University)@ ==> {
            let s = step(old(ctx).isa_state, Action::ReportDropout);
            &&& s matches Err(e) ==> r == Err::<(), IsaError>(e)
            &&& s matches Ok(n) ==> r is Ok && *final(ctx) == (ReportDropout { isa_state: n, ..*old(ctx) })
        },
        r is Err ==> *final(ctx) == *old(ctx),
{
    match authorize(&ctx.config, Role::University, &ctx.university) {
        Ok(()) => {},
        Err(e) => {
            return Err(e);
        },
    }
    let next = match ctx.isa_state.record_dropout() {
        Ok(n) => n,
        Err(e) => {
            return Err(e);
        },
    };
    ctx.isa_state = next;
    Ok(())
}

/// The accounts of a delinquency report.
#[derive(Clone, Copy, Debug)]
pub struct ReportDelinquency {
    pub isa_state: IsaState,
    pub config: ISAConfig,
    pub oracle: Address,
}

/// The oracle reports that a student with a reported salary fell behind.
pub fn report_delinquency(ctx: &mut ReportDelinquency) -> (r: Result<(), IsaError>)
    ensures
        old(ctx).oracle@ != holder(old(ctx).config, Role::Oracle)@ ==> r == Err::<(), IsaError>(
            refusal(Role::Oracle),
        ),
        old(ctx).oracle@ == holder(old(ctx).config, Role::Oracle)@ ==> {
            let s = step(old(ctx).isa_state, Action::ReportDelinquency);
            &&& s matches Err(e) ==> r == Err::<(), IsaError>(e)
            &&& s matches Ok(n) ==> r is Ok && *final(ctx) == (ReportDelinquency { isa_state: n, ..*old(ctx) })
        },
        r is Err ==> *final(ctx) == *old(ctx),
{
    match authorize(&ctx.config, Role::Oracle, &ctx.oracle) {
        Ok(()) => {},
        Err(e) => {
            return Err(e);
        },
    }
    let next = match ctx.isa_state.record_delinquency() {
        Ok(n) => n,
        Err(e) => {
            return Err(e);
        },
    };
    ctx.isa_state = next;
    Ok(())
}

/// The accounts of creating the configuration.
#[derive(Clone, Copy, Debug)]
pub struct InitializeConfig {
    pub config: ISAConfig,
    pub config_bump: u8,
    pub payer: Address,
}

/// Creates the configuration: whoever pays for it becomes the administrator.
pub fn initialize_config(ctx: &mut InitializeConfig, oracle_key: Address, university_key: Address) -> (r: Result<
    (),
    IsaError,
>)
    ensures
        r is Ok,
        *final(ctx) == (InitializeConfig {
            config: ISAConfig {
                admin: old(ctx).payer,
                oracle: oracle_key,
                university: university_key,
                bump: old(ctx).config_bump,
            },
            ..*old(ctx)
        }),
{
    ctx.config = ISAConfig {
        admin: ctx.payer,
        oracle: oracle_key,
        university: university_key,
        bump: ctx.config_bump,
    };
    Ok(())
}

/// The accounts of changing the oracle.
#[derive(Clone, Copy, Debug)]
pub struct SetOracle {
    pub config: ISAConfig,
    pub admin: Address,
}

/// The administrator names a new oracle.
pub fn set_oracle(ctx: &mut SetOracle, new_oracle_key: Address) -> (r: Result<(), IsaError>)
    ensures
        old(ctx).admin@ != holder(old(ctx).config, Role::Admin)@ ==> r == Err::<(), IsaError>(
            refusal(Role::Admin),
        ),
        old(ctx).admin@ == holder(old(ctx).config, Role::Admin)@ ==> r is Ok && *final(ctx) == (SetOracle {
            config: ISAConfig { oracle: new_oracle_key, ..old(ctx).config },
            ..*old(ctx)
        }),
        r is Err ==> *final(ctx) == *old(ctx),
{
    match authorize(&ctx.config, Role::Admin, &ctx.admin) {
        Ok(()) => {},
        Err(e) => {
            return Err(e);
        },
    }
    ctx.config.oracle = new_oracle_key;
    Ok(())
}

/// The accounts of changing the university.
#[derive(Clone, Copy, Debug)]
pub struct SetUniversity {
    pub config: ISAConfig,
    pub admin: Address,
}

/// The administrator names a new university.
pub fn set_university(ctx: &mut SetUniversity, new_university_key: Address) -> (r: Result<(), IsaError>)
    ensures
        old(ctx).admin@ != holder(old(ctx).config, Role::Admin)@ ==> r == Err::<(), IsaError>(
            refusal(Role::Admin),
        ),
        old(ctx).admin@ == holder(old(ctx).config, Role::Admin)@ ==> r is Ok && *final(ctx) == (SetUniversity {
            config: ISAConfig { university: new_university_key, ..old(ctx).config },
            ..*old(ctx)
        }),
        r is Err ==> *final(ctx) == *old(ctx),
{
    match authorize(&ctx.config, Role::Admin, &ctx.admin) {
        Ok(()) => {},
        Err(e) => {
            return Err(e);
        },
    }
    ctx.config.university = new_university_key;
    Ok(())
}

} // verus!
