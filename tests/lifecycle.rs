use skillvest::auth::{authorize, Role};
use skillvest::program::{
    distribute_payments, initialize_config, initialize_isa, invest, pay_share, release_funds_to_university,
    report_delinquency, report_dropout, set_oracle, set_university, update_salary, DistributePayments,
    InitializeConfig, InitializeIsa, Invest, PayShare, ReleaseFunds, ReportDelinquency, ReportDropout,
    SetOracle, SetUniversity, StakeEntry, UpdateSalary,
};
use skillvest::settlement::{compute_shares, total_stake};
use skillvest::state::{
    Address, ErrorKind, ISAConfig, InvestorStake, IsaError, IsaState, IsaStatus, TokenAccount,
};

fn addr(n: u8) -> Address {
    Address([n; 32])
}

const STUDENT: u8 = 1;
const MINT: u8 = 2;
const VAULT: u8 = 3;
const ISA: u8 = 4;
const ADMIN: u8 = 5;
const ORACLE: u8 = 6;
const UNIVERSITY: u8 = 7;

fn config() -> ISAConfig {
    ISAConfig { admin: addr(ADMIN), oracle: addr(ORACLE), university: addr(UNIVERSITY), bump: 0 }
}

fn blank_state() -> IsaState {
    IsaState {
        owner: addr(0),
        token_mint: addr(0),
        vault: addr(0),
        course_cost: 0,
        percent: 0,
        max_cap: 0,
        total_invested: 0,
        already_paid: 0,
        total_distributed: 0,
        last_salary: 0,
        status: IsaStatus::Learning,
        bump: 0,
    }
}

fn token(key: u8, owner: u8, amount: u64) -> TokenAccount {
    TokenAccount { key: addr(key), mint: addr(MINT), owner: addr(owner), amount }
}

fn blank_stake() -> InvestorStake {
    InvestorStake { isa: addr(0), investor: addr(0), amount: 0, initialized: false, bump: 0 }
}

fn opened(course_cost: u64, percent: u8, max_cap: u64) -> IsaState {
    let mut ctx = InitializeIsa {
        isa_state: blank_state(),
        isa_key: addr(ISA),
        isa_bump: 9,
        vault: token(VAULT, ISA, 0),
        mint: addr(MINT),
        student: addr(STUDENT),
    };
    assert_eq!(initialize_isa(&mut ctx, course_cost, percent, max_cap), Ok(()));
    ctx.isa_state
}

fn invest_as(state: IsaState, stake: InvestorStake, investor: u8, amount: u64) -> (Result<u64, IsaError>, IsaState, InvestorStake) {
    let mut ctx = Invest {
        isa_state: state,
        isa_key: addr(ISA),
        investor_stake: stake,
        stake_bump: 3,
        investor: addr(investor),
        investor_ata: token(100 + investor, investor, 10_000),
        vault: token(VAULT, ISA, 0),
    };
    let r = invest(&mut ctx, amount).map(|t| t.amount);
    (r, ctx.isa_state, ctx.investor_stake)
}

fn with_salary(state: IsaState, salary: u64) -> IsaState {
    let mut ctx = UpdateSalary { isa_state: state, config: config(), oracle: addr(ORACLE) };
    assert_eq!(update_salary(&mut ctx, salary), Ok(()));
    ctx.isa_state
}

fn pay(state: IsaState) -> (Result<u64, IsaError>, IsaState) {
    let mut ctx = PayShare {
        isa_state: state,
        student: addr(STUDENT),
        student_ata: token(50, STUDENT, 1_000_000),
        vault: token(VAULT, ISA, 0),
    };
    let r = pay_share(&mut ctx).map(|t| t.amount);
    (r, ctx.isa_state)
}

fn released(state: IsaState, balance: u64) -> (Result<u64, IsaError>, IsaState) {
    let mut ctx = ReleaseFunds {
        isa_state: state,
        vault: token(VAULT, ISA, balance),
        config: config(),
        university_ata: token(60, UNIVERSITY, 0),
    };
    let r = release_funds_to_university(&mut ctx).map(|t| t.amount);
    (r, ctx.isa_state)
}

fn entry(isa: u8, investor: u8, amount: u64) -> StakeEntry {
    StakeEntry {
        stake: InvestorStake { isa: addr(isa), investor: addr(investor), amount, initialized: true, bump: 0 },
        recipient: token(100 + investor, investor, 0),
    }
}

#[test]
fn full_repayment_scenario() {
    let s = opened(1000, 10, 300);
    assert_eq!(s.status, IsaStatus::Learning);
    let (r, s, a) = invest_as(s, blank_stake(), 20, 600);
    assert_eq!(r, Ok(600));
    assert_eq!(a.amount, 600);
    let (r, s, b) = invest_as(s, blank_stake(), 21, 400);
    assert_eq!(r, Ok(400));
    assert_eq!(b.amount, 400);
    assert_eq!(s.total_invested, 1000);
    let (r, s) = released(s, 1000);
    assert_eq!(r, Ok(1000));
    assert_eq!(s.status, IsaStatus::StudyingPaid);
    let s = with_salary(s, 2000);
    assert_eq!(s.status, IsaStatus::Working);
    let (r, s) = pay(s);
    assert_eq!(r, Ok(200));
    assert_eq!(s.already_paid, 200);
    assert_eq!(s.status, IsaStatus::Working);
    let s = with_salary(s, 2000);
    let (r, s) = pay(s);
    assert_eq!(r, Ok(100));
    assert_eq!(s.already_paid, 300);
    assert_eq!(s.status, IsaStatus::Completed);
    let (r, _) = pay(s);
    assert_eq!(r, Err(IsaError::InvalidStatus));
}

#[test]
fn distribution_scenario() {
    let mut s = opened(1000, 10, 300);
    s.total_distributed = 7;
    let mut ctx = DistributePayments { isa_state: s, isa_key: addr(ISA), vault: token(VAULT, ISA, 150) };
    let entries = vec![entry(ISA, 20, 600), entry(ISA, 21, 400)];
    let r = distribute_payments(&mut ctx, &entries, 150).unwrap();
    assert_eq!(r.len(), 2);
    assert_eq!(r[0].amount, 90);
    assert_eq!(r[0].to, addr(120));
    assert_eq!(r[0].from, addr(VAULT));
    assert_eq!(r[1].amount, 60);
    assert_eq!(r[1].to, addr(121));
    assert_eq!(ctx.isa_state.total_distributed, 157);
}

#[test]
fn distribution_floors_and_skips_zero_shares() {
    let s = opened(1000, 10, 300);
    let mut ctx = DistributePayments { isa_state: s, isa_key: addr(ISA), vault: token(VAULT, ISA, 10) };
    let entries = vec![entry(ISA, 20, 1), entry(ISA, 21, 1), entry(ISA, 22, 1), entry(ISA, 23, 1000)];
    let r = distribute_payments(&mut ctx, &entries, 10).unwrap();
    assert_eq!(r.len(), 1);
    assert_eq!(r[0].amount, 9);
    assert_eq!(r[0].to, addr(123));
    assert_eq!(ctx.isa_state.total_distributed, 9);
}

#[test]
fn distribution_errors() {
    let s = opened(1000, 10, 300);
    let base = DistributePayments { isa_state: s, isa_key: addr(ISA), vault: token(VAULT, ISA, 100) };
    let good = vec![entry(ISA, 20, 600)];

    let mut ctx = base;
    ctx.vault.key = addr(99);
    assert_eq!(distribute_payments(&mut ctx, &good, 10).err(), Some(IsaError::InvalidVault));

    let mut ctx = base;
    assert_eq!(distribute_payments(&mut ctx, &good, 0).err(), Some(IsaError::InvalidAmount));
    assert_eq!(distribute_payments(&mut ctx, &good, 101).err(), Some(IsaError::NoFunds));
    assert_eq!(distribute_payments(&mut ctx, &vec![], 10).err(), Some(IsaError::InvalidAccounts));
    let foreign = vec![entry(ISA, 20, 600), entry(44, 21, 400)];
    assert_eq!(distribute_payments(&mut ctx, &foreign, 10).err(), Some(IsaError::InvalidStake));
    let empty = vec![entry(ISA, 20, 0), entry(ISA, 21, 0)];
    assert_eq!(distribute_payments(&mut ctx, &empty, 10).err(), Some(IsaError::NoInvestors));
    assert_eq!(ctx.isa_state.total_distributed, 0);

    let mut ctx = base;
    ctx.isa_state.total_distributed = u64::MAX - 5;
    assert_eq!(distribute_payments(&mut ctx, &good, 10).err(), Some(IsaError::MathOverflow));
    assert_eq!(ctx.isa_state.total_distributed, u64::MAX - 5);
}

#[test]
fn subset_of_stakes_changes_proportions() {
    let s = opened(1000, 10, 300);
    let mut ctx = DistributePayments { isa_state: s, isa_key: addr(ISA), vault: token(VAULT, ISA, 150) };
    let r = distribute_payments(&mut ctx, &vec![entry(ISA, 20, 600)], 150).unwrap();
    assert_eq!(r.len(), 1);
    assert_eq!(r[0].amount, 150);
}

#[test]
fn shares_are_floored_and_bounded() {
    let stakes = vec![600u64, 400];
    assert_eq!(total_stake(&stakes), 1000);
    assert_eq!(compute_shares(150, &stakes), Ok(vec![90, 60]));
    let stakes = vec![1u64, 1, 1];
    let shares = compute_shares(100, &stakes).unwrap();
    assert_eq!(shares, vec![33, 33, 33]);
    assert!(shares.iter().sum::<u64>() <= 100);
    assert_eq!(compute_shares(100, &vec![0u64, 0]), Err(IsaError::NoInvestors));
    let big = vec![u64::MAX, u64::MAX, u64::MAX];
    assert_eq!(total_stake(&big), 3 * (u64::MAX as u128));
    assert_eq!(compute_shares(u64::MAX, &big), Ok(vec![u64::MAX / 3; 3]));
}

#[test]
fn investments_accumulate_in_one_stake() {
    let s = opened(1000, 10, 300);
    let (r, s, st) = invest_as(s, blank_stake(), 20, 300);
    assert_eq!(r, Ok(300));
    assert!(st.initialized);
    assert_eq!(st.isa, addr(ISA));
    assert_eq!(st.investor, addr(20));
    assert_eq!(st.bump, 3);
    let (r, s, st) = invest_as(s, st, 20, 250);
    assert_eq!(r, Ok(250));
    assert_eq!(st.amount, 550);
    assert_eq!(s.total_invested, 550);
    let (r, s2, st2) = invest_as(s, st, 20, 451);
    assert_eq!(r, Err(IsaError::FundingExceedsCourseCost));
    assert_eq!(s2.total_invested, 550);
    assert_eq!(st2.amount, 550);
    let (r, s, _) = invest_as(s, st, 20, 450);
    assert_eq!(r, Ok(450));
    assert_eq!(s.total_invested, s.course_cost);
}

#[test]
fn invest_errors() {
    let s = opened(1000, 10, 300);
    let (r, _, _) = invest_as(s, blank_stake(), 20, 0);
    assert_eq!(r, Err(IsaError::InvalidAmount));
    let mut other = blank_stake();
    other.initialized = true;
    other.isa = addr(44);
    other.investor = addr(20);
    let (r, s2, _) = invest_as(s, other, 20, 10);
    assert_eq!(r, Err(IsaError::InvalidStake));
    assert_eq!(s2.total_invested, 0);
    other.isa = addr(ISA);
    other.investor = addr(21);
    let (r, _, _) = invest_as(s, other, 20, 10);
    assert_eq!(r, Err(IsaError::InvalidStakeOwner));
    other.investor = addr(20);
    other.amount = u64::MAX;
    let (r, _, _) = invest_as(s, other, 20, 10);
    assert_eq!(r, Err(IsaError::MathOverflow));
    let mut huge = opened(u64::MAX, 10, 300);
    huge.total_invested = u64::MAX - 1;
    let (r, _, _) = invest_as(huge, blank_stake(), 20, 2);
    assert_eq!(r, Err(IsaError::MathOverflow));
    let (_, paid) = released(s, 5);
    let (r, _, _) = invest_as(paid, blank_stake(), 20, 10);
    assert_eq!(r, Err(IsaError::InvalidStatus));

    let mut ctx = Invest {
        isa_state: s,
        isa_key: addr(ISA),
        investor_stake: blank_stake(),
        stake_bump: 0,
        investor: addr(20),
        investor_ata: token(120, 21, 100),
        vault: token(VAULT, ISA, 0),
    };
    assert_eq!(invest(&mut ctx, 10).map(|t| t.amount), Err(IsaError::InvalidTokenAccount));
    ctx.investor_ata = token(120, 20, 100);
    ctx.vault = token(98, ISA, 0);
    assert_eq!(invest(&mut ctx, 10).map(|t| t.amount), Err(IsaError::InvalidVault));
    assert_eq!(ctx.isa_state.total_invested, 0);
}

#[test]
fn initialize_isa_errors() {
    let base = InitializeIsa {
        isa_state: blank_state(),
        isa_key: addr(ISA),
        isa_bump: 9,
        vault: token(VAULT, ISA, 0),
        mint: addr(MINT),
        student: addr(STUDENT),
    };
    let mut ctx = base;
    assert_eq!(initialize_isa(&mut ctx, 1000, 0, 300), Err(IsaError::InvalidPercent));
    assert_eq!(initialize_isa(&mut ctx, 1000, 101, 300), Err(IsaError::InvalidPercent));
    ctx.vault.mint = addr(77);
    assert_eq!(initialize_isa(&mut ctx, 1000, 10, 300), Err(IsaError::InvalidVault));
    let mut ctx = base;
    ctx.vault.owner = addr(STUDENT);
    assert_eq!(initialize_isa(&mut ctx, 1000, 10, 300), Err(IsaError::InvalidVaultOwner));
    let mut ctx = base;
    assert_eq!(initialize_isa(&mut ctx, 1000, 100, 300), Ok(()));
    let s = ctx.isa_state;
    assert_eq!(s.owner, addr(STUDENT));
    assert_eq!(s.token_mint, addr(MINT));
    assert_eq!(s.vault, addr(VAULT));
    assert_eq!((s.course_cost, s.percent, s.max_cap, s.bump), (1000, 100, 300, 9));
    assert_eq!((s.total_invested, s.already_paid, s.total_distributed, s.last_salary), (0, 0, 0, 0));
}

#[test]
fn release_errors() {
    let s = opened(1000, 10, 300);
    let (r, s2) = released(s, 0);
    assert_eq!(r, Err(IsaError::NoFunds));
    assert_eq!(s2.status, IsaStatus::Learning);
    let mut ctx = ReleaseFunds {
        isa_state: s,
        vault: token(VAULT, ISA, 10),
        config: config(),
        university_ata: token(60, 61, 0),
    };
    assert_eq!(release_funds_to_university(&mut ctx).map(|t| t.amount), Err(IsaError::InvalidUniversity));
    ctx.vault.key = addr(98);
    assert_eq!(release_funds_to_university(&mut ctx).map(|t| t.amount), Err(IsaError::InvalidVault));
    let (r, paid) = released(s, 10);
    assert_eq!(r, Ok(10));
    let (r, _) = released(paid, 10);
    assert_eq!(r, Err(IsaError::InvalidStatus));
}

#[test]
fn pay_share_errors() {
    let s = opened(1000, 10, 300);
    let (r, _) = pay(s);
    assert_eq!(r, Err(IsaError::InvalidStatus));
    let unemployed = with_salary(s, 0);
    assert_eq!(unemployed.status, IsaStatus::Unemployed);
    let (r, _) = pay(unemployed);
    assert_eq!(r, Err(IsaError::InvalidStatus));
    let mut no_salary = with_salary(s, 5);
    no_salary.last_salary = 0;
    let (r, _) = pay(no_salary);
    assert_eq!(r, Err(IsaError::NoSalary));
    let small = with_salary(s, 9);
    let (r, unchanged) = pay(small);
    assert_eq!(r, Err(IsaError::NothingToPay));
    assert_eq!(unchanged.already_paid, 0);
    let overflow = with_salary(s, u64::MAX / 5);
    let (r, _) = pay(overflow);
    assert_eq!(r, Err(IsaError::MathOverflow));
    let mut near = with_salary(opened(1000, 10, u64::MAX), 1000);
    near.already_paid = u64::MAX - 50;
    let (r, _) = pay(near);
    assert_eq!(r, Err(IsaError::MathOverflow));

    let mut ctx = PayShare {
        isa_state: with_salary(s, 2000),
        student: addr(STUDENT),
        student_ata: token(50, 51, 100),
        vault: token(VAULT, ISA, 0),
    };
    assert_eq!(pay_share(&mut ctx).map(|t| t.amount), Err(IsaError::InvalidTokenAccount));
    ctx.student_ata = token(50, STUDENT, 100);
    ctx.vault.key = addr(97);
    assert_eq!(pay_share(&mut ctx).map(|t| t.amount), Err(IsaError::InvalidVault));
}

#[test]
fn delinquent_payment_returns_to_working() {
    let s = with_salary(opened(1000, 10, 300), 1000);
    let mut ctx = ReportDelinquency { isa_state: s, config: config(), oracle: addr(ORACLE) };
    assert_eq!(report_delinquency(&mut ctx), Ok(()));
    assert_eq!(ctx.isa_state.status, IsaStatus::Delinquent);
    let (r, s) = pay(ctx.isa_state);
    assert_eq!(r, Ok(100));
    assert_eq!(s.status, IsaStatus::Working);
}

#[test]
fn delinquency_errors() {
    let s = opened(1000, 10, 300);
    let mut ctx = ReportDelinquency { isa_state: s, config: config(), oracle: addr(ORACLE) };
    assert_eq!(report_delinquency(&mut ctx), Err(IsaError::InvalidStatusForDelinquency));
    ctx.isa_state = with_salary(s, 0);
    assert_eq!(report_delinquency(&mut ctx), Err(IsaError::NoSalaryToReportDelinquency));
    ctx.isa_state = with_salary(s, 10);
    ctx.oracle = addr(ADMIN);
    assert_eq!(report_delinquency(&mut ctx), Err(IsaError::UnauthorizedOracle));
    assert_eq!(ctx.isa_state.status, IsaStatus::Working);
}

#[test]
fn dropout_is_irreversible() {
    let s = with_salary(opened(1000, 10, 300), 2000);
    let mut ctx = ReportDropout { isa_state: s, config: config(), university: addr(ORACLE) };
    assert_eq!(report_dropout(&mut ctx), Err(IsaError::UnauthorizedUniversity));
    ctx.university = addr(UNIVERSITY);
    assert_eq!(report_dropout(&mut ctx), Ok(()));
    let d = ctx.isa_state;
    assert_eq!((d.percent, d.max_cap, d.status), (0, 0, IsaStatus::DroppedOut));
    assert_eq!(report_dropout(&mut ctx), Err(IsaError::InvalidStatus));
    let (r, _) = pay(d);
    assert_eq!(r, Err(IsaError::InvalidStatus));
    // a salary report still goes through, but nothing more can be collected
    let back = with_salary(d, 5000);
    assert_eq!(back.status, IsaStatus::Working);
    let (r, _) = pay(back);
    assert_eq!(r, Err(IsaError::NothingToPay));
    assert_eq!((back.percent, back.max_cap), (0, 0));
}

#[test]
fn dropout_refused_after_completion() {
    let mut s = with_salary(opened(1000, 10, 100), 2000);
    let (r, done) = pay(s);
    assert_eq!(r, Ok(100));
    assert_eq!(done.status, IsaStatus::Completed);
    s = done;
    let mut ctx = ReportDropout { isa_state: s, config: config(), university: addr(UNIVERSITY) };
    assert_eq!(report_dropout(&mut ctx), Err(IsaError::InvalidStatus));
    assert_eq!(ctx.isa_state.max_cap, 100);
}

#[test]
fn salary_update_needs_oracle() {
    let s = opened(1000, 10, 300);
    let mut ctx = UpdateSalary { isa_state: s, config: config(), oracle: addr(ADMIN) };
    assert_eq!(update_salary(&mut ctx, 10), Err(IsaError::UnauthorizedOracle));
    assert_eq!(ctx.isa_state.last_salary, 0);
    assert_eq!(ctx.isa_state.status, IsaStatus::Learning);
}

#[test]
fn configuration_roles() {
    let mut ctx = InitializeConfig { config: config(), config_bump: 4, payer: addr(40) };
    assert_eq!(initialize_config(&mut ctx, addr(41), addr(42)), Ok(()));
    let c = ctx.config;
    assert_eq!((c.admin, c.oracle, c.university, c.bump), (addr(40), addr(41), addr(42), 4));

    let mut so = SetOracle { config: c, admin: addr(41) };
    assert_eq!(set_oracle(&mut so, addr(43)), Err(IsaError::UnauthorizedAdmin));
    assert_eq!(so.config.oracle, addr(41));
    so.admin = addr(40);
    assert_eq!(set_oracle(&mut so, addr(43)), Ok(()));
    assert_eq!(so.config.oracle, addr(43));

    let mut su = SetUniversity { config: c, admin: addr(42) };
    assert_eq!(set_university(&mut su, addr(44)), Err(IsaError::UnauthorizedAdmin));
    su.admin = addr(40);
    assert_eq!(set_university(&mut su, addr(44)), Ok(()));
    assert_eq!(su.config.university, addr(44));
    assert_eq!(su.config.admin, addr(40));
}

#[test]
fn gate_checks_each_role() {
    let c = config();
    assert_eq!(authorize(&c, Role::Admin, &addr(ADMIN)), Ok(()));
    assert_eq!(authorize(&c, Role::Admin, &addr(ORACLE)), Err(IsaError::UnauthorizedAdmin));
    assert_eq!(authorize(&c, Role::Oracle, &addr(ORACLE)), Ok(()));
    assert_eq!(authorize(&c, Role::Oracle, &addr(UNIVERSITY)), Err(IsaError::UnauthorizedOracle));
    assert_eq!(authorize(&c, Role::University, &addr(UNIVERSITY)), Ok(()));
    assert_eq!(authorize(&c, Role::University, &addr(ADMIN)), Err(IsaError::UnauthorizedUniversity));
    let mut near = [ORACLE; 32];
    near[31] = 0;
    assert_eq!(authorize(&c, Role::Oracle, &Address(near)), Err(IsaError::UnauthorizedOracle));
}

#[test]
fn status_codes_round_trip() {
    for c in 0u8..7 {
        assert_eq!(IsaStatus::from_code(c).unwrap().code(), c);
    }
    assert_eq!(IsaStatus::from_code(7), None);
    assert_eq!(IsaStatus::Completed.code(), 5);
    assert_eq!(IsaError::InvalidStatusForDelinquency.kind(), ErrorKind::InvalidState);
    assert_eq!(IsaError::MathOverflow.kind(), ErrorKind::ArithmeticOverflow);
    assert_eq!(IsaError::UnauthorizedAdmin.kind(), ErrorKind::Unauthorized);
}

#[test]
fn state_level_steps() {
    let s = opened(1000, 10, 300);
    assert_eq!(s.record_investment(0).unwrap_err(), IsaError::InvalidAmount);
    let w = s.record_salary(3000);
    assert_eq!(w.due_now(), Ok(300));
    let (after, due) = w.record_payment().unwrap();
    assert_eq!(due, 300);
    assert_eq!(after.status, IsaStatus::Completed);
    assert_eq!(w.record_distribution(5).unwrap().total_distributed, 5);
    assert_eq!(w.record_dropout().unwrap().status, IsaStatus::DroppedOut);
    assert_eq!(w.record_delinquency().unwrap().status, IsaStatus::Delinquent);
    assert_eq!(s.record_release(1).unwrap().status, IsaStatus::StudyingPaid);
}
