//! What comes in with a command and what goes out with its answer.

use vstd::prelude::*;
use crate::coin::{bundle_view, Coin, CoinView};
use crate::state::{State, StateView};

verus! {

/// Who sent a command, and the funds that came with it.
#[derive(Clone, Debug, PartialEq, Eq)]
pub struct MessageInfo {
    pub sender: String,
    pub funds: Vec<Coin>,
}

/// The terms of a new option.
#[derive(Clone, Debug, PartialEq, Eq)]
pub struct InstantiateMsg {
    pub asset: Vec<Coin>,
    pub collateral: Vec<Coin>,
    pub premium: Vec<Coin>,
    pub expires: u64,
}

/// The terms that an underwriter agrees to.
#[derive(Clone, Debug, PartialEq, Eq)]
pub struct UnderwriteOptionRequest {
    pub asset: Vec<Coin>,
    pub collateral: Vec<Coin>,
    pub premium: Vec<Coin>,
    pub expires: u64,
}

/// The economic terms of an option: three bundles and a deadline.
pub struct TermsView {
    pub asset: Seq<CoinView>,
    pub collateral: Seq<CoinView>,
    pub premium: Seq<CoinView>,
    pub expires: nat,
}

impl View for InstantiateMsg {
    type V = TermsView;

    open spec fn view(&self) -> TermsView {
        TermsView {
            asset: bundle_view(self.asset@),
            collateral: bundle_view(self.collateral@),
            premium: bundle_view(self.premium@),
            expires: self.expires as nat,
        }
    }
}

impl View for UnderwriteOptionRequest {
    type V = TermsView;

    open spec fn view(&self) -> TermsView {
        TermsView {
            asset: bundle_view(self.asset@),
            collateral: bundle_view(self.collateral@),
            premium: bundle_view(self.premium@),
            expires: self.expires as nat,
        }
    }
}

/// The commands that act on an instantiated option.
#[derive(Clone, Debug, PartialEq, Eq)]
pub enum ExecuteMsg {
    TransferOption { recipient: String },
    FundPremium {},
    FundOption {},
    UnderwriteOption { underwrite_option_req: UnderwriteOptionRequest },
    ExecuteOption {},
    WithdrawExpiredOption {},
    WithdrawUnlockedOption {},
}

/// The questions that can be asked of an option.
#[derive(Clone, Copy, Debug, PartialEq, Eq)]
pub enum QueryMsg {
    GetOptionContract {},
}

/// The answer to `GetOptionContract`: the whole record.
#[derive(Clone, Debug, PartialEq, Eq)]
pub struct ConfigResponse {
    pub state: State,
}

impl View for ConfigResponse {
    type V = StateView;

    open spec fn view(&self) -> StateView {
        self.state@
    }
}

/// An instruction to the ledger: pay `amount` out of custody to `to_address`.
#[derive(Clone, Debug, PartialEq, Eq)]
pub struct TransferInstruction {
    pub to_address: String,
    pub amount: Vec<Coin>,
}

/// What a transfer instruction stands for.
pub struct TransferView {
    pub to_address: Seq<char>,
    pub amount: Seq<CoinView>,
}

impl View for TransferInstruction {
    type V = TransferView;

    open spec fn view(&self) -> TransferView {
        TransferView { to_address: self.to_address@, amount: bundle_view(self.amount@) }
    }
}

/// The answer to an accepted command: the payments that the ledger is to make
/// together with the change of the record, in this order.
#[derive(Clone, Debug, PartialEq, Eq)]
pub struct Response {
    pub messages: Vec<TransferInstruction>,
}

impl View for Response {
    type V = Seq<TransferView>;

    open spec fn view(&self) -> Seq<TransferView> {
        self.messages@.map_values(|m: TransferInstruction| m@)
    }
}

} // verus!
