//! Records of the proxy pallet for projects, drawdowns, accounts, transactions
//! and budgets. Bounded lists of the runtime are held as vectors here.

use crate::common::{AccountId, Id};
use vstd::prelude::*;

verus! {

/// A project with one account per role.
#[derive(Clone, Debug, PartialEq, Eq)]
pub struct Project {
    pub developer: Option<AccountId>,
    pub builder: Option<AccountId>,
    pub issuer: Option<AccountId>,
    pub regional_center: Option<AccountId>,
    pub tittle: Vec<u8>,
    pub description: Vec<u8>,
    pub image: Vec<u8>,
    pub creation_date: u64,
    pub completition_date: u64,
    pub updated_date: u64,
}

/// A drawdown of a project.
#[derive(Clone, Copy, Debug, PartialEq, Eq)]
pub struct Drawdown {
    pub project_id: Id,
    pub drawdown_number: u32,
    pub drawdown_type: DrawdownType,
    pub total_amount: u32,
    pub status: DrawdownStatus,
    pub open_date: u64,
    pub close_date: u64,
    pub creator: AccountId,
}

/// A ledger account and its children.
#[derive(Clone, Debug, PartialEq, Eq)]
pub struct Account {
    pub parent_id: AccountId,
    pub childrens: Vec<AccountId>,
    pub name: Vec<u8>,
    pub account_type: AccountType,
    pub account_sub_type: AccountSubType,
    pub naics_code: u32,
    pub jobs_multiplier: u32,
    pub account_category: u32,
}

/// A transaction of a drawdown.
#[derive(Clone, Debug, PartialEq, Eq)]
pub struct Transaction {
    pub drawdown_id: Id,
    pub created_date: u64,
    pub balance: u32,
    pub documents: Vec<u8>,
    pub accounting: Vec<u8>,
}

/// The budget of an account.
#[derive(Clone, Copy, Debug, PartialEq, Eq, Structural)]
pub struct Budgets {
    pub account_id: AccountId,
    pub balance: u32,
    pub created_date: u64,
    pub updated_date: u64,
}

/// A user, its role and its projects.
#[derive(Clone, Debug, PartialEq, Eq)]
pub struct Users {
    pub user: AccountId,
    pub role: UserRole,
    pub related_project: Vec<Id>,
    pub documents: Vec<u8>,
}

/// The review status of a drawdown.
#[derive(Clone, Copy, Debug, PartialEq, Eq, Structural)]
pub enum DrawdownStatus {
    Draft,
    Submitted,
    Approved,
    Reviewed,
}

/// The type of a ledger account.
#[derive(Clone, Debug, PartialEq, Eq)]
pub struct AccountType {
    pub name: Vec<u8>,
    pub class: AccountClass,
    pub account_category: u32,
}

/// A part of a transaction booked on one account.
#[derive(Clone, Debug, PartialEq, Eq)]
pub struct TransactionSubtype {
    pub account_name: Vec<u8>,
    pub balance: u32,
}

/// An amount in a currency.
#[derive(Clone, Copy, Debug, PartialEq, Eq, Structural)]
pub struct Balance {
    pub amount: u32,
    pub symbol: Symbol,
}

/// Where the money of a drawdown comes from.
#[derive(Clone, Copy, Debug, PartialEq, Eq, Structural)]
pub enum DrawdownType {
    EB5,
    ConstructionLoan,
    DeveloperEquity,
}

/// The class of a ledger account.
#[derive(Clone, Copy, Debug, PartialEq, Eq, Structural)]
pub enum AccountClass {
    HardCost,
    SoftCost,
}

/// The role of a user of the proxy pallet.
#[derive(Clone, Copy, Debug, PartialEq, Eq, Structural)]
pub enum UserRole {
    Admin,
    Developer,
    Founder,
    Issuer,
    RegionalCenter,
}

/// The sub-type of a ledger account.
#[derive(Clone, Copy, Debug, PartialEq, Eq, Structural)]
pub enum AccountSubType {
    Assets,
    Equity,
    Expenses,
    Income,
    LiabiLiabilities,
}

/// The currency of a balance.
#[derive(Clone, Copy, Debug, PartialEq, Eq, Structural)]
pub enum Symbol {
    USD,
}

} // verus!
