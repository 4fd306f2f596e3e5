//! The lifecycle as mathematics: for each command, on what it is refused, and
//! what an accepted command writes and pays.
//!
//! A contract is a funding mode and at most one record. In the mode with
//! collateral at instantiation the creator deposits the collateral when the
//! option is made, the premium alone comes with the funding step, and the asset
//! stays in custody until settlement. In the other mode the funding step brings
//! premium and collateral as two legs of one deposit, and the asset goes to the
//! holder as soon as the underwriter has locked the option.

use vstd::prelude::*;
use vstd::multiset::Multiset;
use crate::coin::{same_funds, CoinView};
use crate::error::{ContractError, ErrorView};
use crate::coin::bundle_view;
use crate::msg::{ConfigResponse, ExecuteMsg, MessageInfo, Response, TermsView, TransferView};
use crate::state::{OptionStatus, StateView};

verus! {

/// What a contract stands for: its funding mode and its record, if it has one.
pub struct ContractView {
    pub collateral_at_instantiate: bool,
    pub record: Option<StateView>,
}

impl ContractView {
    /// The record, if there is one, is well formed.
    pub open spec fn wf(self) -> bool {
        match self.record {
            Some(record) => record.wf(),
            None => true,
        }
    }

    /// The same contract with `record` as its record.
    pub open spec fn with_record(self, record: StateView) -> ContractView {
        ContractView { record: Some(record), ..self }
    }
}

/// What a command does: the contract after it, and its answer.
pub struct Outcome {
    pub next: ContractView,
    pub result: Result<Seq<TransferView>, ErrorView>,
}

/// What an answer stands for.
pub open spec fn result_view(result: Result<Response, ContractError>) -> Result<
    Seq<TransferView>,
    ErrorView,
> {
    match result {
        Ok(response) => Ok(response@),
        Err(error) => Err(error@),
    }
}

/// A refused command leaves the contract as it was and pays nothing; an
/// accepted one writes `record` and asks for `payout`.
pub open spec fn settle(
    before: ContractView,
    refusal: Option<ErrorView>,
    record: StateView,
    payout: Seq<TransferView>,
) -> Outcome {
    match refusal {
        Some(error) => Outcome { next: before, result: Err(error) },
        None => Outcome { next: before.with_record(record), result: Ok(payout) },
    }
}

/// A payment of `amount` to `to_address`.
pub open spec fn pay(to_address: Seq<char>, amount: Seq<CoinView>) -> TransferView {
    TransferView { to_address, amount }
}

/// The record of a freshly made option.
pub open spec fn created_record(sender: Seq<char>, terms: TermsView) -> StateView {
    StateView {
        option_status: OptionStatus::CREATED,
        creator: sender,
        holder: sender,
        underwriter: None,
        asset: terms.asset,
        collateral: terms.collateral,
        premium: terms.premium,
        expires: terms.expires,
    }
}

/// Instantiation is refused where a record exists already, and, with
/// collateral at instantiation, where the deposit is not the collateral.
pub open spec fn instantiate_refusal(
    c: ContractView,
    funds: Seq<CoinView>,
    terms: TermsView,
) -> Option<ErrorView> {
    if c.record is Some {
        Some(ErrorView::Unauthorized)
    } else if c.collateral_at_instantiate && !same_funds(funds, terms.collateral) {
        Some(ErrorView::CollateralPriceMismatch { offer: funds, required: terms.collateral })
    } else {
        None
    }
}

/// Instantiation: the sender becomes creator and holder of a new option.
pub open spec fn instantiate_model(
    c: ContractView,
    sender: Seq<char>,
    funds: Seq<CoinView>,
    terms: TermsView,
) -> Outcome {
    settle(c, instantiate_refusal(c, funds, terms), created_record(sender, terms), Seq::empty())
}

/// The funding guard: only the holder may fund, and only an option that was
/// just created.
pub open spec fn may_fund(s: StateView, sender: Seq<char>) -> bool {
    s.holder == sender && s.option_status == OptionStatus::CREATED
}

/// Funding with the premium alone is for the mode with collateral at
/// instantiation, and the deposit must be the premium.
pub open spec fn fund_premium_refusal(
    c: ContractView,
    sender: Seq<char>,
    funds: Seq<CoinView>,
) -> Option<ErrorView> {
    match c.record {
        None => Some(ErrorView::NotFound),
        Some(s) => if !c.collateral_at_instantiate || !may_fund(s, sender) {
            Some(ErrorView::Unauthorized)
        } else if !same_funds(funds, s.premium) {
            Some(ErrorView::PremiumPriceMismatch { offer: funds, required: s.premium })
        } else {
            None
        },
    }
}

/// The first leg of a combined deposit: as many coins as the premium has.
pub open spec fn premium_leg(funds: Seq<CoinView>, premium: Seq<CoinView>) -> Seq<CoinView>
    recommends
        premium.len() <= funds.len(),
{
    funds.take(premium.len() as int)
}

/// The second leg of a combined deposit: what follows the first.
pub open spec fn collateral_leg(funds: Seq<CoinView>, premium: Seq<CoinView>) -> Seq<CoinView>
    recommends
        premium.len() <= funds.len(),
{
    funds.skip(premium.len() as int)
}

/// Funding with premium and collateral is for the mode without collateral at
/// instantiation. The first leg of the deposit must be the premium and the
/// second the collateral.
pub open spec fn fund_option_refusal(
    c: ContractView,
    sender: Seq<char>,
    funds: Seq<CoinView>,
) -> Option<ErrorView> {
    match c.record {
        None => Some(ErrorView::NotFound),
        Some(s) => if c.collateral_at_instantiate || !may_fund(s, sender) {
            Some(ErrorView::Unauthorized)
        } else if funds.len() < s.premium.len() || !same_funds(
            premium_leg(funds, s.premium),
            s.premium,
        ) {
            Some(ErrorView::PremiumPriceMismatch { offer: funds, required: s.premium })
        } else if !same_funds(collateral_leg(funds, s.premium), s.collateral) {
            Some(ErrorView::CollateralPriceMismatch { offer: funds, required: s.collateral })
        } else {
            None
        },
    }
}

/// The record `s` in the phase `status`.
pub open spec fn in_phase(s: StateView, status: OptionStatus) -> StateView {
    StateView { option_status: status, ..s }
}

/// Funding with the premium alone.
pub open spec fn fund_premium_model(
    c: ContractView,
    sender: Seq<char>,
    funds: Seq<CoinView>,
) -> Outcome {
    settle(
        c,
        fund_premium_refusal(c, sender, funds),
        in_phase(c.record.unwrap(), OptionStatus::FUNDED),
        Seq::empty(),
    )
}

/// Funding with premium and collateral.
pub open spec fn fund_option_model(
    c: ContractView,
    sender: Seq<char>,
    funds: Seq<CoinView>,
) -> Outcome {
    settle(
        c,
        fund_option_refusal(c, sender, funds),
        in_phase(c.record.unwrap(), OptionStatus::FUNDED),
        Seq::empty(),
    )
}

/// Only the holder may hand the option on.
pub open spec fn transfer_refusal(c: ContractView, sender: Seq<char>) -> Option<ErrorView> {
    match c.record {
        None => Some(ErrorView::NotFound),
        Some(s) => if sender != s.holder {
            Some(ErrorView::Unauthorized)
        } else {
            None
        },
    }
}

/// Handing the option on: the recipient becomes the holder, in any phase.
pub open spec fn transfer_model(
    c: ContractView,
    sender: Seq<char>,
    recipient: Seq<char>,
) -> Outcome {
    settle(
        c,
        transfer_refusal(c, sender),
        StateView { holder: recipient, ..c.record.unwrap() },
        Seq::empty(),
    )
}

/// The claimed terms are those of the record: each bundle holds the same funds
/// and the deadline is the same.
pub open spec fn terms_agree(s: StateView, terms: TermsView) -> bool {
    &&& same_funds(terms.premium, s.premium)
    &&& same_funds(terms.collateral, s.collateral)
    &&& same_funds(terms.asset, s.asset)
    &&& terms.expires == s.expires
}

/// Underwriting needs a funded option before its deadline, claimed terms that
/// are the record's, and a deposit that is the asset.
pub open spec fn underwrite_refusal(
    c: ContractView,
    now: nat,
    funds: Seq<CoinView>,
    terms: TermsView,
) -> Option<ErrorView> {
    match c.record {
        None => Some(ErrorView::NotFound),
        Some(s) => if s.option_status != OptionStatus::FUNDED {
            Some(ErrorView::Unauthorized)
        } else if now >= s.expires {
            Some(ErrorView::OptionExpired { expired: s.expires })
        } else if !terms_agree(s, terms) {
            Some(ErrorView::AgreementMismatch)
        } else if !same_funds(funds, s.asset) {
            Some(ErrorView::AssetPriceMismatch { offer: funds, required: s.asset })
        } else {
            None
        },
    }
}

/// What locking pays: without collateral at instantiation the asset goes to
/// the holder at once; with it, nothing leaves custody yet.
pub open spec fn underwrite_payout(c: ContractView) -> Seq<TransferView> {
    let s = c.record.unwrap();
    if c.collateral_at_instantiate {
        Seq::empty()
    } else {
        seq![pay(s.holder, s.asset)]
    }
}

/// Underwriting: the sender becomes the underwriter and the option is locked.
pub open spec fn underwrite_model(
    c: ContractView,
    now: nat,
    sender: Seq<char>,
    funds: Seq<CoinView>,
    terms: TermsView,
) -> Outcome {
    settle(
        c,
        underwrite_refusal(c, now, funds, terms),
        StateView {
            option_status: OptionStatus::LOCKED,
            underwriter: Some(sender),
            ..c.record.unwrap()
        },
        underwrite_payout(c),
    )
}

/// Exercise is for the holder, before the deadline, on a locked option.
pub open spec fn execute_refusal(c: ContractView, now: nat, sender: Seq<char>) -> Option<
    ErrorView,
> {
    match c.record {
        None => Some(ErrorView::NotFound),
        Some(s) => if sender != s.holder {
            Some(ErrorView::Unauthorized)
        } else if now >= s.expires {
            Some(ErrorView::OptionExpired { expired: s.expires })
        } else if s.option_status != OptionStatus::LOCKED {
            Some(ErrorView::Unauthorized)
        } else {
            None
        },
    }
}

/// What exercise pays: the collateral to the underwriter, and before it the
/// asset to the holder where the asset is still in custody.
pub open spec fn execute_payout(c: ContractView) -> Seq<TransferView> {
    let s = c.record.unwrap();
    if c.collateral_at_instantiate {
        seq![pay(s.holder, s.asset), pay(s.underwriter.unwrap(), s.collateral)]
    } else {
        seq![pay(s.underwriter.unwrap(), s.collateral)]
    }
}

/// Exercise: the option is executed.
pub open spec fn execute_model(c: ContractView, now: nat, sender: Seq<char>) -> Outcome {
    settle(
        c,
        execute_refusal(c, now, sender),
        in_phase(c.record.unwrap(), OptionStatus::EXECUTED),
        execute_payout(c),
    )
}

/// Settlement after expiry is open to anyone, on a locked option whose
/// deadline has come.
pub open spec fn withdraw_expired_refusal(c: ContractView, now: nat) -> Option<ErrorView> {
    match c.record {
        None => Some(ErrorView::NotFound),
        Some(s) => if s.option_status != OptionStatus::LOCKED {
            Some(ErrorView::Unauthorized)
        } else if now < s.expires {
            Some(ErrorView::OptionExpired { expired: s.expires })
        } else {
            None
        },
    }
}

/// What settlement after expiry pays: the collateral to the holder, and after
/// it the asset back to the underwriter where the asset is still in custody.
pub open spec fn withdraw_expired_payout(c: ContractView) -> Seq<TransferView> {
    let s = c.record.unwrap();
    if c.collateral_at_instantiate {
        seq![pay(s.holder, s.collateral), pay(s.underwriter.unwrap(), s.asset)]
    } else {
        seq![pay(s.holder, s.collateral)]
    }
}

/// Settlement after expiry: the option is expired.
pub open spec fn withdraw_expired_model(c: ContractView, now: nat) -> Outcome {
    settle(
        c,
        withdraw_expired_refusal(c, now),
        in_phase(c.record.unwrap(), OptionStatus::EXPIRED),
        withdraw_expired_payout(c),
    )
}

/// Only the holder may cancel, and only an option that was just created.
pub open spec fn withdraw_unlocked_refusal(c: ContractView, sender: Seq<char>) -> Option<
    ErrorView,
> {
    match c.record {
        None => Some(ErrorView::NotFound),
        Some(s) => if s.option_status != OptionStatus::CREATED || s.holder != sender {
            Some(ErrorView::Unauthorized)
        } else {
            None
        },
    }
}

/// What cancelling pays: the collateral back to the holder where it was
/// deposited at instantiation; otherwise nothing is in custody yet.
pub open spec fn withdraw_unlocked_payout(c: ContractView) -> Seq<TransferView> {
    let s = c.record.unwrap();
    if c.collateral_at_instantiate {
        seq![pay(s.holder, s.collateral)]
    } else {
        Seq::empty()
    }
}

/// Cancelling: the option is cancelled.
pub open spec fn withdraw_unlocked_model(c: ContractView, sender: Seq<char>) -> Outcome {
    settle(
        c,
        withdraw_unlocked_refusal(c, sender),
        in_phase(c.record.unwrap(), OptionStatus::CANCELLED),
        withdraw_unlocked_payout(c),
    )
}

/// What a command of `msg` does, by the kind of command.
pub open spec fn command_model(
    c: ContractView,
    now: nat,
    info: MessageInfo,
    msg: ExecuteMsg,
) -> Outcome {
    let sender = info.sender@;
    let funds = bundle_view(info.funds@);
    match msg {
        ExecuteMsg::TransferOption { recipient } => transfer_model(c, sender, recipient@),
        ExecuteMsg::FundPremium {  } => fund_premium_model(c, sender, funds),
        ExecuteMsg::FundOption {  } => fund_option_model(c, sender, funds),
        ExecuteMsg::UnderwriteOption { underwrite_option_req } => underwrite_model(
            c,
            now,
            sender,
            funds,
            underwrite_option_req@,
        ),
        ExecuteMsg::ExecuteOption {  } => execute_model(c, now, sender),
        ExecuteMsg::WithdrawExpiredOption {  } => withdraw_expired_model(c, now),
        ExecuteMsg::WithdrawUnlockedOption {  } => withdraw_unlocked_model(c, sender),
    }
}


/// What a query answers: the record as it stands, or that there is none.
pub open spec fn query_model(c: ContractView) -> Result<StateView, ErrorView> {
    match c.record {
        Some(record) => Ok(record),
        None => Err(ErrorView::NotFound),
    }
}

/// What the answer to a query stands for.
pub open spec fn answer_view(answer: Result<ConfigResponse, ContractError>) -> Result<
    StateView,
    ErrorView,
> {
    match answer {
        Ok(response) => Ok(response@),
        Err(error) => Err(error@),
    }
}

/// The coins of all the payments of `payout` together.
pub open spec fn paid(payout: Seq<TransferView>) -> Multiset<CoinView>
    decreases payout.len(),
{
    if payout.len() == 0 {
        Multiset::empty()
    } else {
        paid(payout.drop_last()).add(payout.last().amount.to_multiset())
    }
}

/// The coins that the custodian holds for the option: the legs that were
/// deposited and not yet paid out. The premium, once paid, stays.
pub open spec fn custody(c: ContractView) -> Multiset<CoinView> {
    match c.record {
        None => Multiset::empty(),
        Some(s) => {
            let premium = s.premium.to_multiset();
            let collateral = s.collateral.to_multiset();
            let asset = s.asset.to_multiset();
            match s.option_status {
                OptionStatus::CREATED => if c.collateral_at_instantiate {
                    collateral
                } else {
                    Multiset::empty()
                },
                OptionStatus::FUNDED => premium.add(collateral),
                OptionStatus::LOCKED => if c.collateral_at_instantiate {
                    premium.add(collateral).add(asset)
                } else {
                    premium.add(collateral)
                },
                OptionStatus::EXECUTED => premium,
                OptionStatus::EXPIRED => premium,
                OptionStatus::CANCELLED => Multiset::empty(),
            }
        },
    }
}

/// The coins that a command brings into custody when it is accepted: the
/// deposit of a funding step or of an underwriting. The other commands take
/// no deposit for the option.
pub open spec fn deposit_taken(info: MessageInfo, msg: ExecuteMsg) -> Multiset<CoinView> {
    match msg {
        ExecuteMsg::FundPremium {  } => bundle_view(info.funds@).to_multiset(),
        ExecuteMsg::FundOption {  } => bundle_view(info.funds@).to_multiset(),
        ExecuteMsg::UnderwriteOption { .. } => bundle_view(info.funds@).to_multiset(),
        _ => Multiset::empty(),
    }
}

} // verus!
