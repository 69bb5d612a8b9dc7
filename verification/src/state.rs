//! Account state of the program: the fundraiser and its contributors.

pub mod contributor;
pub mod fundraiser;

pub use contributor::{Contributor, ContributorModel};
pub use fundraiser::{Fundraiser, FundraiserModel};
