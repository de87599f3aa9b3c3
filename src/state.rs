//! The records of the program and the identities they refer to.
use vstd::prelude::*;

verus! {

/// A 32-byte account identity (a public key or a derived record address).
#[derive(Clone, Copy, Debug)]
pub struct Address(pub [u8; 32]);

impl Address {
    pub open spec fn view(&self) -> Seq<u8> {
        self.0@
    }

    /// Byte-by-byte comparison of two identities.
    pub fn same(&self, other: &Address) -> (r: bool)
        ensures
            r == (self@ == other@),
    {
        let mut i: usize = 0;
        while i < 32
            invariant
                0 <= i <= 32,
                self@.len() == 32,
                other@.len() == 32,
                forall|j: int| 0 <= j < i ==> self@[j] == other@[j],
            decreases 32 - i,
        {
            if self.0[i] != other.0[i] {
                return false;
            }
            i = i + 1;
        }
        assert(self@ =~= other@);
        true
    }
}

impl PartialEq for Address {
    fn eq(&self, other: &Address) -> (r: bool) {
        self.same(other)
    }
}

impl vstd::std_specs::cmp::PartialEqSpecImpl for Address {
    open spec fn obeys_eq_spec() -> bool {
        true
    }

    open spec fn eq_spec(&self, other: &Address) -> bool {
        self@ == other@
    }
}

impl Eq for Address {
}


/// Where an agreement stands in its lifecycle.
#[derive(Clone, Copy, Debug, PartialEq, Eq, Structural)]
pub enum IsaStatus {
    Learning,
    StudyingPaid,
    Working,
    Delinquent,
    DroppedOut,
    Completed,
    Unemployed,
}

impl IsaStatus {
    pub open spec fn code_spec(self) -> u8 {
        match self {
            IsaStatus::Learning => 0,
            IsaStatus::StudyingPaid => 1,
            IsaStatus::Working => 2,
            IsaStatus::Delinquent => 3,
            IsaStatus::DroppedOut => 4,
            IsaStatus::Completed => 5,
            IsaStatus::Unemployed => 6,
        }
    }

    /// The byte under which the status is stored in an account.
    pub fn code(&self) -> (r: u8)
        ensures
            r == self.code_spec(),
    {
        match self {
            IsaStatus::Learning => 0,
            IsaStatus::StudyingPaid => 1,
            IsaStatus::Working => 2,
            IsaStatus::Delinquent => 3,
            IsaStatus::DroppedOut => 4,
            IsaStatus::Completed => 5,
            IsaStatus::Unemployed => 6,
        }
    }

    /// Reads a stored status byte back; `None` for a byte no status has.
    pub fn from_code(c: u8) -> (r: Option<IsaStatus>)
        ensures
            r matches Some(st) ==> st.code_spec() == c,
            r is None <==> c > 6,
    {
        match c {
            0 => Some(IsaStatus::Learning),
            1 => Some(IsaStatus::StudyingPaid),
            2 => Some(IsaStatus::Working),
            3 => Some(IsaStatus::Delinquent),
            4 => Some(IsaStatus::DroppedOut),
            5 => Some(IsaStatus::Completed),
            6 => Some(IsaStatus::Unemployed),
            _ => None,
        }
    }
}

/// The broad classes of failure an operation can end in.
#[derive(Clone, Copy, Debug, PartialEq, Eq, Structural)]
pub enum ErrorKind {
    InvalidParameter,
    InvalidState,
    Unauthorized,
    ArithmeticOverflow,
    InsufficientFunds,
    InvalidReference,
    ConfigurationMismatch,
}

/// Every way an operation can fail. A failed operation changes nothing.
#[derive(Clone, Copy, Debug, PartialEq, Eq, Structural)]
pub enum IsaError {
    InvalidPercent,
    InvalidStatus,
    UnauthorizedOracle,
    UnauthorizedAdmin,
    UnauthorizedUniversity,
    InvalidUniversity,
    MathOverflow,
    NoFunds,
    NoSalary,
    InvalidAmount,
    NoInvestors,
    InvalidAccounts,
    InvalidStake,
    InvalidStakeOwner,
    InvalidVault,
    InvalidVaultOwner,
    InvalidTokenAccount,
    FundingExceedsCourseCost,
    NothingToPay,
    InvalidStatusForDelinquency,
    NoSalaryToReportDelinquency,
}

impl IsaError {
    pub open spec fn kind_spec(self) -> ErrorKind {
        match self {
            IsaError::InvalidPercent => ErrorKind::InvalidParameter,
            IsaError::InvalidAmount => ErrorKind::InvalidParameter,
            IsaError::FundingExceedsCourseCost => ErrorKind::InvalidParameter,
            IsaError::InvalidStatus => ErrorKind::InvalidState,
            IsaError::InvalidStatusForDelinquency => ErrorKind::InvalidState,
            IsaError::UnauthorizedOracle => ErrorKind::Unauthorized,
            IsaError::UnauthorizedAdmin => ErrorKind::Unauthorized,
            IsaError::UnauthorizedUniversity => ErrorKind::Unauthorized,
            IsaError::MathOverflow => ErrorKind::ArithmeticOverflow,
            IsaError::NoFunds => ErrorKind::InsufficientFunds,
            IsaError::NoSalary => ErrorKind::InsufficientFunds,
            IsaError::NothingToPay => ErrorKind::InsufficientFunds,
            IsaError::NoInvestors => ErrorKind::InsufficientFunds,
            IsaError::NoSalaryToReportDelinquency => ErrorKind::InsufficientFunds,
            IsaError::InvalidAccounts => ErrorKind::InvalidReference,
            IsaError::InvalidStake => ErrorKind::InvalidReference,
            IsaError::InvalidStakeOwner => ErrorKind::InvalidReference,
            IsaError::InvalidUniversity => ErrorKind::ConfigurationMismatch,
            IsaError::InvalidVault => ErrorKind::ConfigurationMismatch,
            IsaError::InvalidVaultOwner => ErrorKind::ConfigurationMismatch,
            IsaError::InvalidTokenAccount => ErrorKind::ConfigurationMismatch,
        }
    }

    /// The class this error belongs to.
    pub fn kind(&self) -> (r: ErrorKind)
        ensures
            r == self.kind_spec(),
    {
        match self {
            IsaError::InvalidPercent => ErrorKind::InvalidParameter,
            IsaError::InvalidAmount => ErrorKind::InvalidParameter,
            IsaError::FundingExceedsCourseCost => ErrorKind::InvalidParameter,
            IsaError::InvalidStatus => ErrorKind::InvalidState,
            IsaError::InvalidStatusForDelinquency => ErrorKind::InvalidState,
            IsaError::UnauthorizedOracle => ErrorKind::Unauthorized,
            IsaError::UnauthorizedAdmin => ErrorKind::Unauthorized,
            IsaError::UnauthorizedUniversity => ErrorKind::Unauthorized,
            IsaError::MathOverflow => ErrorKind::ArithmeticOverflow,
            IsaError::NoFunds => ErrorKind::InsufficientFunds,
            IsaError::NoSalary => ErrorKind::InsufficientFunds,
            IsaError::NothingToPay => ErrorKind::InsufficientFunds,
            IsaError::NoInvestors => ErrorKind::InsufficientFunds,
            IsaError::NoSalaryToReportDelinquency => ErrorKind::InsufficientFunds,
            IsaError::InvalidAccounts => ErrorKind::InvalidReference,
            IsaError::InvalidStake => ErrorKind::InvalidReference,
            IsaError::InvalidStakeOwner => ErrorKind::InvalidReference,
            IsaError::InvalidUniversity => ErrorKind::ConfigurationMismatch,
            IsaError::InvalidVault => ErrorKind::ConfigurationMismatch,
            IsaError::InvalidVaultOwner => ErrorKind::ConfigurationMismatch,
            IsaError::InvalidTokenAccount => ErrorKind::ConfigurationMismatch,
        }
    }
}

/// One student's agreement: its terms, running totals and status.
#[derive(Clone, Copy, Debug)]
pub struct IsaState {
    pub owner: Address,
    pub token_mint: Address,
    pub vault: Address,
    pub course_cost: u64,
    pub percent: u8,
    pub max_cap: u64,
    pub total_invested: u64,
    pub already_paid: u64,
    pub total_distributed: u64,
    pub last_salary: u64,
    pub status: IsaStatus,
    pub bump: u8,
}

impl IsaState {
    /// The agreement's invariant. Either the terms are live (a rate in
    /// 1..=100 and nothing paid past the cap) or a dropout has zeroed them,
    /// after which the cap no longer bounds what was paid.
    pub open spec fn wf(self) -> bool {
        &&& self.total_invested <= self.course_cost
        &&& self.percent <= 100
        &&& (self.percent == 0 && self.max_cap == 0) || (0 < self.percent && self.already_paid
            <= self.max_cap)
        &&& self.status == IsaStatus::DroppedOut ==> self.percent == 0 && self.max_cap == 0
    }
}

/// One investor's cumulative contribution to one agreement.
#[derive(Clone, Copy, Debug)]
pub struct InvestorStake {
    pub isa: Address,
    pub investor: Address,
    pub amount: u64,
    pub initialized: bool,
    pub bump: u8,
}

/// The privileged identities: the administrator, the salary oracle and the
/// university that receives course funds and reports dropouts.
#[derive(Clone, Copy, Debug)]
pub struct ISAConfig {
    pub admin: Address,
    pub oracle: Address,
    pub university: Address,
    pub bump: u8,
}

/// What an operation reads of a token account held by the value ledger.
#[derive(Clone, Copy, Debug)]
pub struct TokenAccount {
    pub key: Address,
    pub mint: Address,
    pub owner: Address,
    pub amount: u64,
}

/// A movement of value that the ledger is asked to carry out.
#[derive(Clone, Copy, Debug)]
pub struct TokenTransfer {
    pub from: Address,
    pub to: Address,
    pub amount: u64,
}

} // verus!
