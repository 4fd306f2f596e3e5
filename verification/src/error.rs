//! Why a command was refused.

use vstd::prelude::*;
use crate::coin::{bundle_view, Coin, CoinView};

verus! {

/// The reasons for which a command is refused. A refused command changes
/// nothing and pays nothing.
#[derive(Clone, Debug, PartialEq, Eq)]
pub enum ContractError {
    /// No option has been instantiated yet.
    NotFound {},
    /// The caller may not make this move in the current phase.
    Unauthorized {},
    /// The command came on the wrong side of the deadline `expired`.
    OptionExpired { expired: u64 },
    /// The deposit is not the premium.
    PremiumPriceMismatch { offer: Vec<Coin>, required: Vec<Coin> },
    /// The deposit is not the collateral.
    CollateralPriceMismatch { offer: Vec<Coin>, required: Vec<Coin> },
    /// The deposit is not the asset.
    AssetPriceMismatch { offer: Vec<Coin>, required: Vec<Coin> },
    /// The terms that the underwriter agreed to are not those of the record.
    AgreementMismatch {},
}

/// What an error stands for.
pub enum ErrorView {
    NotFound,
    Unauthorized,
    OptionExpired { expired: nat },
    PremiumPriceMismatch { offer: Seq<CoinView>, required: Seq<CoinView> },
    CollateralPriceMismatch { offer: Seq<CoinView>, required: Seq<CoinView> },
    AssetPriceMismatch { offer: Seq<CoinView>, required: Seq<CoinView> },
    AgreementMismatch,
}

impl ErrorView {
    /// The error reports a deposit that is not the bundle asked for.
    pub open spec fn is_mismatch(self) -> bool {
        self is PremiumPriceMismatch || self is CollateralPriceMismatch
            || self is AssetPriceMismatch
    }
}

impl View for ContractError {
    type V = ErrorView;

    open spec fn view(&self) -> ErrorView {
        match *self {
            ContractError::NotFound {  } => ErrorView::NotFound,
            ContractError::Unauthorized {  } => ErrorView::Unauthorized,
            ContractError::OptionExpired { expired } => ErrorView::OptionExpired {
                expired: expired as nat,
            },
            ContractError::PremiumPriceMismatch { offer, required } => {
                ErrorView::PremiumPriceMismatch {
                    offer: bundle_view(offer@),
                    required: bundle_view(required@),
                }
            },
            ContractError::CollateralPriceMismatch { offer, required } => {
                ErrorView::CollateralPriceMismatch {
                    offer: bundle_view(offer@),
                    required: bundle_view(required@),
                }
            },
            ContractError::AssetPriceMismatch { offer, required } => {
                ErrorView::AssetPriceMismatch {
                    offer: bundle_view(offer@),
                    required: bundle_view(required@),
                }
            },
            ContractError::AgreementMismatch {  } => ErrorView::AgreementMismatch,
        }
    }
}

impl ContractError {
    /// The error's message.
    pub fn message(&self) -> (text: String)
        ensures
            text@ == match self@ {
                ErrorView::NotFound => "Not Found"@,
                ErrorView::Unauthorized => "Unauthorized"@,
                ErrorView::OptionExpired { .. } => "Expired"@,
                ErrorView::PremiumPriceMismatch { .. } => "Premium Price Mismatch"@,
                ErrorView::CollateralPriceMismatch { .. } => "Collateral Price Mismatch"@,
                ErrorView::AssetPriceMismatch { .. } => "Asset Price Mismatch"@,
                ErrorView::AgreementMismatch => "Option Terms Does Not Match Created Option"@,
            },
    {
        match self {
            ContractError::NotFound {  } => "Not Found".to_string(),
            ContractError::Unauthorized {  } => "Unauthorized".to_string(),
            ContractError::OptionExpired { .. } => "Expired".to_string(),
            ContractError::PremiumPriceMismatch { .. } => "Premium Price Mismatch".to_string(),
            ContractError::CollateralPriceMismatch { .. } => {
                "Collateral Price Mismatch".to_string()
            },
            ContractError::AssetPriceMismatch { .. } => "Asset Price Mismatch".to_string(),
            ContractError::AgreementMismatch {  } => {
                "Option Terms Does Not Match Created Option".to_string()
            },
        }
    }
}

} // verus!
