//! What holds of the lifecycle as a whole, proved from the model that the
//! commands are verified against.

use vstd::prelude::*;
use vstd::multiset::Multiset;
use crate::coin::{bundle_view, same_funds, CoinView};
use crate::error::ErrorView;
use crate::model::{
    collateral_leg, command_model, created_record, custody, deposit_taken, execute_model,
    fund_option_model, fund_premium_model, instantiate_model, paid, pay, premium_leg,
    query_model, terms_agree, transfer_model, underwrite_model, withdraw_expired_model,
    ContractView,
};
use crate::msg::{ExecuteMsg, MessageInfo, TermsView, TransferView};
use crate::state::{OptionStatus, StateView};

verus! {

/// After an accepted instantiation a query shows a created option whose
/// creator and holder are the sender, that has no underwriter, and whose
/// bundles and deadline are those that were supplied. Instantiation is
/// accepted on a contract without a record, given the collateral as deposit
/// where the contract takes collateral at instantiation.
pub proof fn law_instantiate_then_query(
    c: ContractView,
    sender: Seq<char>,
    funds: Seq<CoinView>,
    terms: TermsView,
)
    requires
        c.record is None,
        c.collateral_at_instantiate ==> same_funds(funds, terms.collateral),
    ensures
        instantiate_model(c, sender, funds, terms).result is Ok,
        query_model(instantiate_model(c, sender, funds, terms).next) == Ok::<_, ErrorView>(
            created_record(sender, terms),
        ),
        ({
            let shown = query_model(instantiate_model(c, sender, funds, terms).next)->Ok_0;
            &&& shown.option_status == OptionStatus::CREATED
            &&& shown.creator == sender
            &&& shown.holder == sender
            &&& shown.underwriter is None
            &&& shown.asset == terms.asset
            &&& shown.collateral == terms.collateral
            &&& shown.premium == terms.premium
            &&& shown.expires == terms.expires
        }),
{
}

/// Funding with a deposit that is not the premium fails and changes nothing;
/// where the holder funds a created option in the mode with collateral at
/// instantiation, the failure is the premium mismatch, with the deposit and
/// the premium in it.
pub proof fn law_fund_premium_wrong_deposit(
    c: ContractView,
    sender: Seq<char>,
    funds: Seq<CoinView>,
)
    requires
        c.record is Some,
        !same_funds(funds, c.record.unwrap().premium),
    ensures
        fund_premium_model(c, sender, funds).result is Err,
        fund_premium_model(c, sender, funds).next == c,
        c.collateral_at_instantiate && c.record.unwrap().holder == sender
            && c.record.unwrap().option_status == OptionStatus::CREATED ==> fund_premium_model(
            c,
            sender,
            funds,
        ).result == Err::<Seq<TransferView>, _>(
            ErrorView::PremiumPriceMismatch { offer: funds, required: c.record.unwrap().premium },
        ),
{
}

/// Funding with a deposit whose two legs are not the premium and the
/// collateral fails and changes nothing; where the holder funds a created
/// option in the mode without collateral at instantiation, the failure is a
/// mismatch.
pub proof fn law_fund_option_wrong_deposit(
    c: ContractView,
    sender: Seq<char>,
    funds: Seq<CoinView>,
)
    requires
        c.record is Some,
        funds.len() < c.record.unwrap().premium.len() || !same_funds(
            premium_leg(funds, c.record.unwrap().premium),
            c.record.unwrap().premium,
        ) || !same_funds(
            collateral_leg(funds, c.record.unwrap().premium),
            c.record.unwrap().collateral,
        ),
    ensures
        fund_option_model(c, sender, funds).result is Err,
        fund_option_model(c, sender, funds).next == c,
        !c.collateral_at_instantiate && c.record.unwrap().holder == sender
            && c.record.unwrap().option_status == OptionStatus::CREATED ==> fund_option_model(
            c,
            sender,
            funds,
        ).result->Err_0.is_mismatch(),
{
}

/// A funding step leaves the option funded exactly when it succeeds, and a
/// failed one leaves the whole contract as it was. Once the option is funded,
/// every further funding attempt fails as unauthorized.
pub proof fn law_funded_once(
    c: ContractView,
    sender: Seq<char>,
    funds: Seq<CoinView>,
    later_sender: Seq<char>,
    later_funds: Seq<CoinView>,
)
    requires
        c.record is Some,
        c.record.unwrap().option_status == OptionStatus::CREATED,
    ensures
        ({
            let step = fund_premium_model(c, sender, funds);
            &&& step.result is Ok <==> query_model(step.next)->Ok_0.option_status
                == OptionStatus::FUNDED
            &&& step.result is Err ==> step.next == c
            &&& step.result is Ok ==> fund_premium_model(
                step.next,
                later_sender,
                later_funds,
            ).result == Err::<Seq<TransferView>, _>(ErrorView::Unauthorized)
        }),
        ({
            let step = fund_option_model(c, sender, funds);
            &&& step.result is Ok <==> query_model(step.next)->Ok_0.option_status
                == OptionStatus::FUNDED
            &&& step.result is Err ==> step.next == c
            &&& step.result is Ok ==> fund_option_model(
                step.next,
                later_sender,
                later_funds,
            ).result == Err::<Seq<TransferView>, _>(ErrorView::Unauthorized)
        }),
{
}

/// Funding an option that is past its created phase fails as unauthorized,
/// whoever tries and whatever is deposited.
pub proof fn law_no_second_funding(c: ContractView, sender: Seq<char>, funds: Seq<CoinView>)
    requires
        c.record is Some,
        c.record.unwrap().option_status != OptionStatus::CREATED,
    ensures
        fund_premium_model(c, sender, funds).result == Err::<Seq<TransferView>, _>(
            ErrorView::Unauthorized,
        ),
        fund_option_model(c, sender, funds).result == Err::<Seq<TransferView>, _>(
            ErrorView::Unauthorized,
        ),
        fund_premium_model(c, sender, funds).next == c,
        fund_option_model(c, sender, funds).next == c,
{
}

/// Underwriting with claimed terms that differ from the record in a bundle or
/// in the deadline fails and sets no underwriter; on a funded option before
/// its deadline the failure is the agreement mismatch.
pub proof fn law_underwrite_terms_must_agree(
    c: ContractView,
    now: nat,
    sender: Seq<char>,
    funds: Seq<CoinView>,
    terms: TermsView,
)
    requires
        c.record is Some,
        !same_funds(terms.premium, c.record.unwrap().premium) || !same_funds(
            terms.collateral,
            c.record.unwrap().collateral,
        ) || !same_funds(terms.asset, c.record.unwrap().asset) || terms.expires
            != c.record.unwrap().expires,
    ensures
        !terms_agree(c.record.unwrap(), terms),
        underwrite_model(c, now, sender, funds, terms).result is Err,
        underwrite_model(c, now, sender, funds, terms).next == c,
        underwrite_model(c, now, sender, funds, terms).next.record.unwrap().underwriter
            == c.record.unwrap().underwriter,
        c.record.unwrap().option_status == OptionStatus::FUNDED && now < c.record.unwrap().expires
            ==> underwrite_model(c, now, sender, funds, terms).result == Err::<
            Seq<TransferView>,
            _,
        >(ErrorView::AgreementMismatch),
{
}

/// Settlement after expiry fails before the deadline and changes nothing.
pub proof fn law_withdraw_expired_too_early(c: ContractView, now: nat)
    requires
        c.record is Some,
        now < c.record.unwrap().expires,
    ensures
        withdraw_expired_model(c, now).result is Err,
        withdraw_expired_model(c, now).next == c,
{
}

/// Settlement of a locked option at or after its deadline pays the collateral
/// to the holder, then the asset to the underwriter where the asset is still in
/// custody, and leaves the option expired with nothing else changed. Any
/// further settlement fails as unauthorized and changes nothing, so nothing is
/// paid twice.
pub proof fn law_withdraw_expired_settles_once(c: ContractView, now: nat, later: nat)
    requires
        c.wf(),
        c.record is Some,
        c.record.unwrap().option_status == OptionStatus::LOCKED,
        now >= c.record.unwrap().expires,
    ensures
        ({
            let s = c.record.unwrap();
            let step = withdraw_expired_model(c, now);
            &&& c.collateral_at_instantiate ==> step.result == Ok::<_, ErrorView>(
                seq![pay(s.holder, s.collateral), pay(s.underwriter.unwrap(), s.asset)],
            )
            &&& !c.collateral_at_instantiate ==> step.result == Ok::<_, ErrorView>(
                seq![pay(s.holder, s.collateral)],
            )
            &&& step.next.record == Some(
                StateView { option_status: OptionStatus::EXPIRED, ..s },
            )
            &&& step.next.wf()
            &&& withdraw_expired_model(step.next, later).result == Err::<
                Seq<TransferView>,
                _,
            >(ErrorView::Unauthorized)
            &&& withdraw_expired_model(step.next, later).next == step.next
        }),
{
}

/// A transfer by the holder makes the recipient the holder and alters nothing
/// else: not the phase, not the creator or the underwriter, no bundle and not
/// the deadline. Where the recipient is someone else, the old holder can then
/// neither fund nor exercise: both fail as unauthorized.
pub proof fn law_transfer_hands_over(
    c: ContractView,
    sender: Seq<char>,
    recipient: Seq<char>,
    now: nat,
    funds: Seq<CoinView>,
)
    requires
        c.record is Some,
        c.record.unwrap().holder == sender,
    ensures
        ({
            let s = c.record.unwrap();
            let step = transfer_model(c, sender, recipient);
            let t = step.next.record.unwrap();
            &&& step.result is Ok
            &&& step.next.collateral_at_instantiate == c.collateral_at_instantiate
            &&& step.next.record is Some
            &&& t.holder == recipient
            &&& t.option_status == s.option_status
            &&& t.creator == s.creator
            &&& t.underwriter == s.underwriter
            &&& t.asset == s.asset
            &&& t.collateral == s.collateral
            &&& t.premium == s.premium
            &&& t.expires == s.expires
            &&& recipient != sender ==> {
                &&& fund_premium_model(step.next, sender, funds).result == Err::<
                    Seq<TransferView>,
                    _,
                >(ErrorView::Unauthorized)
                &&& fund_option_model(step.next, sender, funds).result == Err::<
                    Seq<TransferView>,
                    _,
                >(ErrorView::Unauthorized)
                &&& execute_model(step.next, now, sender).result == Err::<
                    Seq<TransferView>,
                    _,
                >(ErrorView::Unauthorized)
            }
        }),
{
}

/// Whatever the command, the option never goes back: a refused command changes
/// nothing, an accepted one keeps the funding mode, the creator, the bundles
/// and the deadline, keeps the record well formed, and either keeps the phase
/// or moves it to a later one. Only a transfer can be accepted in a terminal
/// phase, and it keeps the phase.
pub proof fn law_option_only_advances(c: ContractView, now: nat, info: MessageInfo, msg: ExecuteMsg)
    requires
        c.wf(),
        c.record is Some,
    ensures
        ({
            let s = c.record.unwrap();
            let step = command_model(c, now, info, msg);
            let t = step.next.record.unwrap();
            &&& step.result is Err ==> step.next == c
            &&& step.next.record is Some
            &&& step.next.wf()
            &&& step.next.collateral_at_instantiate == c.collateral_at_instantiate
            &&& t.creator == s.creator
            &&& t.asset == s.asset
            &&& t.collateral == s.collateral
            &&& t.premium == s.premium
            &&& t.expires == s.expires
            &&& t.option_status == s.option_status || t.option_status.rank()
                > s.option_status.rank()
            &&& s.option_status.is_terminal() ==> t.option_status == s.option_status
            &&& s.option_status.has_underwriter() ==> t.underwriter == s.underwriter
            &&& !(msg is TransferOption) ==> t.holder == s.holder
        }),
{
}

/// The record is made once: instantiation on a contract that has a record is
/// refused as unauthorized and changes nothing, whoever asks and whatever the
/// terms and the deposit.
pub proof fn law_record_is_made_once(
    c: ContractView,
    sender: Seq<char>,
    funds: Seq<CoinView>,
    terms: TermsView,
)
    requires
        c.record is Some,
    ensures
        instantiate_model(c, sender, funds, terms).result == Err::<Seq<TransferView>, _>(
            ErrorView::Unauthorized,
        ),
        instantiate_model(c, sender, funds, terms).next == c,
{
}

/// The deadline splits time in two for a locked option: strictly before it the
/// holder can exercise and nobody can settle the expiry; from it on the expiry
/// can be settled and the holder can no longer exercise. Underwriting a
/// funded option is open strictly before the deadline only.
pub proof fn law_deadline_splits_time(
    c: ContractView,
    now: nat,
    sender: Seq<char>,
    funds: Seq<CoinView>,
    terms: TermsView,
)
    requires
        c.record is Some,
    ensures
        ({
            let s = c.record.unwrap();
            &&& s.option_status == OptionStatus::LOCKED && s.holder == sender ==> (execute_model(
                c,
                now,
                sender,
            ).result is Ok <==> now < s.expires)
            &&& s.option_status == OptionStatus::LOCKED ==> (withdraw_expired_model(
                c,
                now,
            ).result is Ok <==> now >= s.expires)
            &&& execute_model(c, now, sender).result is Ok ==> withdraw_expired_model(
                c,
                now,
            ).result is Err
            &&& underwrite_model(c, now, sender, funds, terms).result is Ok ==> now < s.expires
        }),
{
}

/// No payments pay nothing.
proof fn lemma_paid_none()
    ensures
        paid(Seq::<TransferView>::empty()) =~= Multiset::<CoinView>::empty(),
{
}

/// One payment pays its own coins.
proof fn lemma_paid_one(first: TransferView)
    ensures
        paid(seq![first]) =~= first.amount.to_multiset(),
{
    assert(seq![first].drop_last() =~= Seq::<TransferView>::empty());
    assert(paid(seq![first]) =~= paid(Seq::<TransferView>::empty()).add(
        first.amount.to_multiset(),
    ));
}

/// Two payments pay the coins of both.
proof fn lemma_paid_two(first: TransferView, second: TransferView)
    ensures
        paid(seq![first, second]) =~= first.amount.to_multiset().add(second.amount.to_multiset()),
{
    assert(seq![first, second].drop_last() =~= seq![first]);
    lemma_paid_one(first);
    assert(paid(seq![first, second]) =~= paid(seq![first]).add(second.amount.to_multiset()));
}

/// A deposit holds the coins of its two legs.
proof fn lemma_legs_make_the_deposit(funds: Seq<CoinView>, premium: Seq<CoinView>)
    requires
        premium.len() <= funds.len(),
    ensures
        funds.to_multiset() =~= premium_leg(funds, premium).to_multiset().add(
            collateral_leg(funds, premium).to_multiset(),
        ),
{
    let first = premium_leg(funds, premium);
    let second = collateral_leg(funds, premium);
    assert(funds =~= first + second);
    vstd::seq_lib::lemma_multiset_commutative(first, second);
}

/// An accepted instantiation leaves in custody exactly what was deposited for
/// the option: the collateral where the contract takes it at instantiation,
/// and nothing otherwise.
pub proof fn law_custody_at_instantiation(
    c: ContractView,
    sender: Seq<char>,
    funds: Seq<CoinView>,
    terms: TermsView,
)
    requires
        instantiate_model(c, sender, funds, terms).result is Ok,
    ensures
        c.collateral_at_instantiate ==> custody(instantiate_model(c, sender, funds, terms).next)
            =~= funds.to_multiset(),
        !c.collateral_at_instantiate ==> custody(instantiate_model(c, sender, funds, terms).next)
            =~= Multiset::<CoinView>::empty(),
        paid(instantiate_model(c, sender, funds, terms).result->Ok_0) =~= Multiset::<
            CoinView,
        >::empty(),
{
    lemma_paid_none();
}

/// Custody is conserved: after an accepted command, what is held and what was
/// paid out are together what was held before and what the command deposited.
/// So no command pays out coins that were not deposited for the option, and
/// none pays a leg twice. A refused command leaves custody as it was.
pub proof fn law_custody_is_conserved(c: ContractView, now: nat, info: MessageInfo, msg: ExecuteMsg)
    requires
        c.wf(),
        c.record is Some,
    ensures
        ({
            let step = command_model(c, now, info, msg);
            &&& step.result is Ok ==> custody(step.next).add(paid(step.result->Ok_0)) =~= custody(
                c,
            ).add(deposit_taken(info, msg))
            &&& step.result is Err ==> custody(step.next) =~= custody(c)
        }),
{
    let s = c.record.unwrap();
    let step = command_model(c, now, info, msg);
    let funds = bundle_view(info.funds@);
    if step.result is Ok {
        lemma_paid_none();
        match msg {
            ExecuteMsg::TransferOption { .. } => {},
            ExecuteMsg::FundPremium {  } => {},
            ExecuteMsg::FundOption {  } => {
                lemma_legs_make_the_deposit(funds, s.premium);
            },
            ExecuteMsg::UnderwriteOption { .. } => {
                lemma_paid_one(pay(s.holder, s.asset));
            },
            ExecuteMsg::ExecuteOption {  } => {
                lemma_paid_one(pay(s.underwriter.unwrap(), s.collateral));
                lemma_paid_two(pay(s.holder, s.asset), pay(s.underwriter.unwrap(), s.collateral));
            },
            ExecuteMsg::WithdrawExpiredOption {  } => {
                lemma_paid_one(pay(s.holder, s.collateral));
                lemma_paid_two(pay(s.holder, s.collateral), pay(s.underwriter.unwrap(), s.asset));
            },
            ExecuteMsg::WithdrawUnlockedOption {  } => {
                lemma_paid_one(pay(s.holder, s.collateral));
            },
        }
    }
}

} // verus!
