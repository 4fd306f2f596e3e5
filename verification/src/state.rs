//! The option record and the phases of its life.

use vstd::prelude::*;
use crate::coin::{bundle_view, copy_bundle, Coin, CoinView};

verus! {

/// The phase of the option. It only ever moves forward:
/// `CREATED` to `FUNDED` to `LOCKED`, and from there to `EXECUTED` or
/// `EXPIRED`; or from `CREATED` straight to `CANCELLED`.
#[derive(Clone, Copy, Debug, PartialEq, Eq, Structural)]
pub enum OptionStatus {
    CREATED,
    FUNDED,
    LOCKED,
    EXECUTED,
    CANCELLED,
    EXPIRED,
}

impl OptionStatus {
    /// An underwriter has joined: the option is locked or was settled after locking.
    pub open spec fn has_underwriter(self) -> bool {
        self == OptionStatus::LOCKED || self == OptionStatus::EXECUTED
            || self == OptionStatus::EXPIRED
    }

    /// No command moves the option out of this phase.
    pub open spec fn is_terminal(self) -> bool {
        self == OptionStatus::EXECUTED || self == OptionStatus::CANCELLED
            || self == OptionStatus::EXPIRED
    }

    /// How far the option has come: a later phase has a greater rank.
    pub open spec fn rank(self) -> nat {
        match self {
            OptionStatus::CREATED => 0,
            OptionStatus::FUNDED => 1,
            OptionStatus::LOCKED => 2,
            OptionStatus::EXECUTED => 3,
            OptionStatus::CANCELLED => 3,
            OptionStatus::EXPIRED => 3,
        }
    }
}

/// The one record of the option.
#[derive(Clone, Debug, PartialEq, Eq)]
pub struct State {
    pub option_status: OptionStatus,
    pub creator: String,
    pub holder: String,
    pub underwriter: Option<String>,
    pub asset: Vec<Coin>,
    pub collateral: Vec<Coin>,
    pub premium: Vec<Coin>,
    pub expires: u64,
}

/// What a record stands for.
pub struct StateView {
    pub option_status: OptionStatus,
    pub creator: Seq<char>,
    pub holder: Seq<char>,
    pub underwriter: Option<Seq<char>>,
    pub asset: Seq<CoinView>,
    pub collateral: Seq<CoinView>,
    pub premium: Seq<CoinView>,
    pub expires: nat,
}

impl StateView {
    /// An underwriter is recorded exactly in the phases that have one.
    pub open spec fn wf(self) -> bool {
        self.underwriter is Some <==> self.option_status.has_underwriter()
    }
}

/// The characters of an optional identity.
pub open spec fn party_view(party: Option<String>) -> Option<Seq<char>> {
    match party {
        Some(name) => Some(name@),
        None => None,
    }
}

impl View for State {
    type V = StateView;

    open spec fn view(&self) -> StateView {
        StateView {
            option_status: self.option_status,
            creator: self.creator@,
            holder: self.holder@,
            underwriter: party_view(self.underwriter),
            asset: bundle_view(self.asset@),
            collateral: bundle_view(self.collateral@),
            premium: bundle_view(self.premium@),
            expires: self.expires as nat,
        }
    }
}

impl State {
    /// A copy of the record, field by field.
    pub fn duplicate(&self) -> (copy: State)
        ensures
            copy@ == self@,
    {
        let underwriter: Option<String> = match &self.underwriter {
            Some(name) => Some(name.clone()),
            None => None,
        };
        State {
            option_status: self.option_status,
            creator: self.creator.clone(),
            holder: self.holder.clone(),
            underwriter,
            asset: copy_bundle(&self.asset),
            collateral: copy_bundle(&self.collateral),
            premium: copy_bundle(&self.premium),
            expires: self.expires,
        }
    }

    /// Whether an underwriter is recorded exactly in the phases that have one.
    pub fn is_well_formed(&self) -> (ok: bool)
        ensures
            ok == self@.wf(),
    {
        let locked_or_later: bool = match self.option_status {
            OptionStatus::LOCKED => true,
            OptionStatus::EXECUTED => true,
            OptionStatus::EXPIRED => true,
            _ => false,
        };
        self.underwriter.is_some() == locked_or_later
    }
}

} // verus!
