//! The commands. Each reads the record, tests its guards in a fixed order,
//! and either refuses, changing nothing, or writes the new record and answers
//! with the payments that the ledger is to make.

use vstd::prelude::*;
use crate::coin::{bundle_view, bundles_match, copy_bundle, copy_range, Coin};
use crate::error::ContractError;
use crate::model::{
    answer_view, command_model, execute_model, execute_payout, fund_option_model,
    fund_premium_model, in_phase, instantiate_model, pay, query_model, result_view,
    terms_agree, transfer_model, underwrite_model, underwrite_payout, withdraw_expired_model,
    withdraw_expired_payout, withdraw_unlocked_model, withdraw_unlocked_payout, ContractView,
};
use crate::msg::{
    ConfigResponse, ExecuteMsg, InstantiateMsg, MessageInfo, QueryMsg, Response,
    TransferInstruction, TransferView, UnderwriteOptionRequest,
};
use crate::state::{OptionStatus, State};

verus! {

/// The custodian of one option: its funding mode, fixed when it is made, and
/// the record of the option once it has been instantiated.
#[derive(Clone, Debug, PartialEq, Eq)]
pub struct OptionContract {
    pub collateral_at_instantiate: bool,
    pub state: Option<State>,
}

impl View for OptionContract {
    type V = ContractView;

    open spec fn view(&self) -> ContractView {
        ContractView {
            collateral_at_instantiate: self.collateral_at_instantiate,
            record: match self.state {
                Some(state) => Some(state@),
                None => None,
            },
        }
    }
}

impl OptionContract {
    /// A custodian without an option yet.
    pub fn new(collateral_at_instantiate: bool) -> (contract: OptionContract)
        ensures
            contract@ == (ContractView { collateral_at_instantiate, record: None }),
            contract@.wf(),
    {
        OptionContract { collateral_at_instantiate, state: None }
    }

    /// Whether the record, if there is one, is well formed.
    pub fn is_well_formed(&self) -> (ok: bool)
        ensures
            ok == self@.wf(),
    {
        match &self.state {
            Some(state) => state.is_well_formed(),
            None => true,
        }
    }
}

/// An instruction to pay a copy of `amount` to `to_address`.
fn pay_to(to_address: &String, amount: &Vec<Coin>) -> (instruction: TransferInstruction)
    ensures
        instruction@ == pay(to_address@, bundle_view(amount@)),
{
    TransferInstruction { to_address: to_address.clone(), amount: copy_bundle(amount) }
}

/// An answer that asks for no payment.
fn no_payment() -> (response: Response)
    ensures
        response@ == Seq::<TransferView>::empty(),
{
    let response = Response { messages: Vec::new() };
    assert(response@ =~= Seq::<TransferView>::empty());
    response
}

/// Makes the option: the sender becomes its creator and holder. With
/// collateral at instantiation the funds sent must be the collateral. A
/// contract that has a record already refuses.
pub fn instantiate(
    contract: &mut OptionContract,
    info: MessageInfo,
    msg: InstantiateMsg,
) -> (result: Result<Response, ContractError>)
    requires
        old(contract)@.wf(),
    ensures
        final(contract)@.wf(),
        final(contract)@ == instantiate_model(
            old(contract)@,
            info.sender@,
            bundle_view(info.funds@),
            msg@,
        ).next,
        result_view(result) == instantiate_model(
            old(contract)@,
            info.sender@,
            bundle_view(info.funds@),
            msg@,
        ).result,
{
    if contract.state.is_some() {
        return Err(ContractError::Unauthorized {  });
    }
    if contract.collateral_at_instantiate && !bundles_match(&info.funds, &msg.collateral) {
        return Err(
            ContractError::CollateralPriceMismatch { offer: info.funds, required: msg.collateral },
        );
    }
    let state = State {
        option_status: OptionStatus::CREATED,
        creator: info.sender.clone(),
        holder: info.sender,
        underwriter: None,
        asset: msg.asset,
        collateral: msg.collateral,
        premium: msg.premium,
        expires: msg.expires,
    };
    contract.state = Some(state);
    Ok(no_payment())
}

/// Writes `status` into the record.
fn enter_phase(contract: &mut OptionContract, status: OptionStatus)
    requires
        old(contract).state is Some,
    ensures
        final(contract)@ == old(contract)@.with_record(
            in_phase(old(contract)@.record.unwrap(), status),
        ),
{
    match &mut contract.state {
        Some(state) => {
            state.option_status = status;
        },
        None => {},
    }
}

/// The holder funds a created option with the premium. This is the funding
/// step of a contract with collateral at instantiation.
pub fn fund_premium(
    contract: &mut OptionContract,
    info: MessageInfo,
) -> (result: Result<Response, ContractError>)
    requires
        old(contract)@.wf(),
    ensures
        final(contract)@.wf(),
        final(contract)@ == fund_premium_model(
            old(contract)@,
            info.sender@,
            bundle_view(info.funds@),
        ).next,
        result_view(result) == fund_premium_model(
            old(contract)@,
            info.sender@,
            bundle_view(info.funds@),
        ).result,
{
    let state: &State = match &contract.state {
        Some(state) => state,
        None => {
            return Err(ContractError::NotFound {  });
        },
    };
    if !contract.collateral_at_instantiate {
        return Err(ContractError::Unauthorized {  });
    }
    if state.holder != info.sender || state.option_status != OptionStatus::CREATED {
        return Err(ContractError::Unauthorized {  });
    }
    if !bundles_match(&info.funds, &state.premium) {
        return Err(
            ContractError::PremiumPriceMismatch {
                offer: info.funds,
                required: copy_bundle(&state.premium),
            },
        );
    }
    enter_phase(contract, OptionStatus::FUNDED);
    Ok(no_payment())
}

/// The holder funds a created option with the premium and the collateral, as
/// the two legs of one deposit. This is the funding step of a contract
/// without collateral at instantiation.
pub fn fund_option(
    contract: &mut OptionContract,
    info: MessageInfo,
) -> (result: Result<Response, ContractError>)
    requires
        old(contract)@.wf(),
    ensures
        final(contract)@.wf(),
        final(contract)@ == fund_option_model(
            old(contract)@,
            info.sender@,
            bundle_view(info.funds@),
        ).next,
        result_view(result) == fund_option_model(
            old(contract)@,
            info.sender@,
            bundle_view(info.funds@),
        ).result,
{
    let state: &State = match &contract.state {
        Some(state) => state,
        None => {
            return Err(ContractError::NotFound {  });
        },
    };
    if contract.collateral_at_instantiate {
        return Err(ContractError::Unauthorized {  });
    }
    if state.holder != info.sender || state.option_status != OptionStatus::CREATED {
        return Err(ContractError::Unauthorized {  });
    }
    let legs_split: usize = state.premium.len();
    if info.funds.len() < legs_split {
        return Err(
            ContractError::PremiumPriceMismatch {
                offer: info.funds,
                required: copy_bundle(&state.premium),
            },
        );
    }
    let first_leg: Vec<Coin> = copy_range(&info.funds, 0, legs_split);
    if !bundles_match(&first_leg, &state.premium) {
        return Err(
            ContractError::PremiumPriceMismatch {
                offer: info.funds,
                required: copy_bundle(&state.premium),
            },
        );
    }
    let second_leg: Vec<Coin> = copy_range(&info.funds, legs_split, info.funds.len());
    if !bundles_match(&second_leg, &state.collateral) {
        return Err(
            ContractError::CollateralPriceMismatch {
                offer: info.funds,
                required: copy_bundle(&state.collateral),
            },
        );
    }
    enter_phase(contract, OptionStatus::FUNDED);
    Ok(no_payment())
}

/// Whether the claimed terms are those of the record.
fn terms_match(state: &State, claimed: &UnderwriteOptionRequest) -> (agree: bool)
    ensures
        agree == terms_agree(state@, claimed@),
{
    bundles_match(&claimed.premium, &state.premium) && bundles_match(
        &claimed.collateral,
        &state.collateral,
    ) && bundles_match(&claimed.asset, &state.asset) && claimed.expires == state.expires
}

/// An underwriter locks a funded option before its deadline by agreeing to its
/// terms and depositing the asset. Without collateral at instantiation the
/// asset is paid on to the holder at once.
pub fn underwrite_option(
    contract: &mut OptionContract,
    now: u64,
    info: MessageInfo,
    underwrite_option_req: UnderwriteOptionRequest,
) -> (result: Result<Response, ContractError>)
    requires
        old(contract)@.wf(),
    ensures
        final(contract)@.wf(),
        final(contract)@ == underwrite_model(
            old(contract)@,
            now as nat,
            info.sender@,
            bundle_view(info.funds@),
            underwrite_option_req@,
        ).next,
        result_view(result) == underwrite_model(
            old(contract)@,
            now as nat,
            info.sender@,
            bundle_view(info.funds@),
            underwrite_option_req@,
        ).result,
{
    let state: &State = match &contract.state {
        Some(state) => state,
        None => {
            return Err(ContractError::NotFound {  });
        },
    };
    if state.option_status != OptionStatus::FUNDED {
        return Err(ContractError::Unauthorized {  });
    }
    if now >= state.expires {
        return Err(ContractError::OptionExpired { expired: state.expires });
    }
    if !terms_match(state, &underwrite_option_req) {
        return Err(ContractError::AgreementMismatch {  });
    }
    if !bundles_match(&info.funds, &state.asset) {
        return Err(
            ContractError::AssetPriceMismatch {
                offer: info.funds,
                required: copy_bundle(&state.asset),
            },
        );
    }
    let mut messages: Vec<TransferInstruction> = Vec::new();
    if !contract.collateral_at_instantiate {
        messages.push(pay_to(&state.holder, &state.asset));
    }
    let response = Response { messages };
    assert(response@ =~= underwrite_payout(contract@));
    match &mut contract.state {
        Some(state) => {
            state.underwriter = Some(info.sender);
            state.option_status = OptionStatus::LOCKED;
        },
        None => {},
    }
    Ok(response)
}

/// The holder hands the option on to `recipient`, in whatever phase it is.
pub fn transfer_option(
    contract: &mut OptionContract,
    info: MessageInfo,
    recipient: String,
) -> (result: Result<Response, ContractError>)
    requires
        old(contract)@.wf(),
    ensures
        final(contract)@.wf(),
        final(contract)@ == transfer_model(old(contract)@, info.sender@, recipient@).next,
        result_view(result) == transfer_model(old(contract)@, info.sender@, recipient@).result,
{
    let state: &State = match &contract.state {
        Some(state) => state,
        None => {
            return Err(ContractError::NotFound {  });
        },
    };
    if info.sender != state.holder {
        return Err(ContractError::Unauthorized {  });
    }
    match &mut contract.state {
        Some(state) => {
            state.holder = recipient;
        },
        None => {},
    }
    Ok(no_payment())
}

/// The holder exercises a locked option before its deadline: the collateral
/// goes to the underwriter, and the asset to the holder where it is still in
/// custody.
pub fn execute_option(
    contract: &mut OptionContract,
    now: u64,
    info: MessageInfo,
) -> (result: Result<Response, ContractError>)
    requires
        old(contract)@.wf(),
    ensures
        final(contract)@.wf(),
        final(contract)@ == execute_model(old(contract)@, now as nat, info.sender@).next,
        result_view(result) == execute_model(old(contract)@, now as nat, info.sender@).result,
{
    let state: &State = match &contract.state {
        Some(state) => state,
        None => {
            return Err(ContractError::NotFound {  });
        },
    };
    if info.sender != state.holder {
        return Err(ContractError::Unauthorized {  });
    }
    if now >= state.expires {
        return Err(ContractError::OptionExpired { expired: state.expires });
    }
    if state.option_status != OptionStatus::LOCKED {
        return Err(ContractError::Unauthorized {  });
    }
    let underwriter: &String = state.underwriter.as_ref().unwrap();
    let mut messages: Vec<TransferInstruction> = Vec::new();
    if contract.collateral_at_instantiate {
        messages.push(pay_to(&state.holder, &state.asset));
    }
    messages.push(pay_to(underwriter, &state.collateral));
    let response = Response { messages };
    assert(response@ =~= execute_payout(contract@));
    enter_phase(contract, OptionStatus::EXECUTED);
    Ok(response)
}

/// Anyone settles a locked option whose deadline has come: the collateral goes
/// to the holder, and the asset back to the underwriter where it is still in
/// custody.
pub fn withdraw_expired_option(
    contract: &mut OptionContract,
    now: u64,
) -> (result: Result<Response, ContractError>)
    requires
        old(contract)@.wf(),
    ensures
        final(contract)@.wf(),
        final(contract)@ == withdraw_expired_model(old(contract)@, now as nat).next,
        result_view(result) == withdraw_expired_model(old(contract)@, now as nat).result,
{
    let state: &State = match &contract.state {
        Some(state) => state,
        None => {
            return Err(ContractError::NotFound {  });
        },
    };
    if state.option_status != OptionStatus::LOCKED {
        return Err(ContractError::Unauthorized {  });
    }
    if now < state.expires {
        return Err(ContractError::OptionExpired { expired: state.expires });
    }
    let underwriter: &String = state.underwriter.as_ref().unwrap();
    let mut messages: Vec<TransferInstruction> = Vec::new();
    messages.push(pay_to(&state.holder, &state.collateral));
    if contract.collateral_at_instantiate {
        messages.push(pay_to(underwriter, &state.asset));
    }
    let response = Response { messages };
    assert(response@ =~= withdraw_expired_payout(contract@));
    enter_phase(contract, OptionStatus::EXPIRED);
    Ok(response)
}

/// The holder cancels an option that was created and not yet funded: the
/// collateral goes back to the holder where it was deposited at instantiation.
pub fn withdraw_unlocked_option(
    contract: &mut OptionContract,
    info: MessageInfo,
) -> (result: Result<Response, ContractError>)
    requires
        old(contract)@.wf(),
    ensures
        final(contract)@.wf(),
        final(contract)@ == withdraw_unlocked_model(old(contract)@, info.sender@).next,
        result_view(result) == withdraw_unlocked_model(old(contract)@, info.sender@).result,
{
    let state: &State = match &contract.state {
        Some(state) => state,
        None => {
            return Err(ContractError::NotFound {  });
        },
    };
    if state.option_status != OptionStatus::CREATED || state.holder != info.sender {
        return Err(ContractError::Unauthorized {  });
    }
    let mut messages: Vec<TransferInstruction> = Vec::new();
    if contract.collateral_at_instantiate {
        messages.push(pay_to(&state.holder, &state.collateral));
    }
    let response = Response { messages };
    assert(response@ =~= withdraw_unlocked_payout(contract@));
    enter_phase(contract, OptionStatus::CANCELLED);
    Ok(response)
}

/// Carries out the command `msg`, sent by `info.sender` with `info.funds` at
/// the time `now`.
pub fn execute(
    contract: &mut OptionContract,
    now: u64,
    info: MessageInfo,
    msg: ExecuteMsg,
) -> (result: Result<Response, ContractError>)
    requires
        old(contract)@.wf(),
    ensures
        final(contract)@.wf(),
        final(contract)@ == command_model(old(contract)@, now as nat, info, msg).next,
        result_view(result) == command_model(old(contract)@, now as nat, info, msg).result,
{
    match msg {
        ExecuteMsg::TransferOption { recipient } => transfer_option(contract, info, recipient),
        ExecuteMsg::FundPremium {  } => fund_premium(contract, info),
        ExecuteMsg::FundOption {  } => fund_option(contract, info),
        ExecuteMsg::UnderwriteOption { underwrite_option_req } => underwrite_option(
            contract,
            now,
            info,
            underwrite_option_req,
        ),
        ExecuteMsg::ExecuteOption {  } => execute_option(contract, now, info),
        ExecuteMsg::WithdrawExpiredOption {  } => withdraw_expired_option(contract, now),
        ExecuteMsg::WithdrawUnlockedOption {  } => withdraw_unlocked_option(contract, info),
    }
}

/// The whole record, for anyone who asks. Refused only where no option has
/// been instantiated.
pub fn query_config(contract: &OptionContract) -> (result: Result<ConfigResponse, ContractError>)
    ensures
        answer_view(result) == query_model(contract@),
{
    match &contract.state {
        Some(state) => Ok(ConfigResponse { state: state.duplicate() }),
        None => Err(ContractError::NotFound {  }),
    }
}

/// Answers the question `msg`.
pub fn query(
    contract: &OptionContract,
    msg: QueryMsg,
) -> (result: Result<ConfigResponse, ContractError>)
    ensures
        answer_view(result) == query_model(contract@),
{
    match msg {
        QueryMsg::GetOptionContract {  } => query_config(contract),
    }
}

} // verus!
