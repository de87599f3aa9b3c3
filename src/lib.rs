//! Income-share agreements: investors fund a student's course into an escrow,
//! the student repays a share of salary up to a cap, and repayments are
//! distributed back to investors in proportion to their stakes.
use vstd::prelude::*;

pub mod auth;
pub mod laws;
pub mod machine;
pub mod program;
pub mod settlement;
pub mod state;

verus! {

} // verus!
