//! What an operation hands back: what it did, and what the host is to do
//! after it.

use vstd::prelude::*;
use crate::token::{Transfer, TransferView};

verus! {

/// The operations that report themselves.
#[derive(Clone, Copy, Debug, PartialEq, Eq, Structural)]
pub enum Action {
    Instantiate,
    SetConfig,
    OnBalanceChange,
    Buy,
    Sell,
}

impl Action {
    /// The name under which the operation reports itself.
    pub open spec fn spec_name(self) -> Seq<char> {
        match self {
            Action::Instantiate => "instantiate"@,
            Action::SetConfig => "set_config"@,
            Action::OnBalanceChange => "on_balance_change"@,
            Action::Buy => "buy"@,
            Action::Sell => "sell"@,
        }
    }

    /// The name under which the operation reports itself.
    pub fn name(self) -> (r: &'static str)
        ensures
            r@ == self.spec_name(),
    {
        match self {
            Action::Instantiate => "instantiate",
            Action::SetConfig => "set_config",
            Action::OnBalanceChange => "on_balance_change",
            Action::Buy => "buy",
            Action::Sell => "sell",
        }
    }
}

/// The amounts of a trade: what the trader paid, before any fee on the way
/// in, and what the trader receives, after any fee on the way out.
#[derive(Clone, Copy, Debug, PartialEq, Eq, Structural)]
pub struct TradeReceipt {
    pub in_amount: u128,
    pub out_amount: u128,
}

/// The request to create the base asset's token contract.
#[derive(Debug, PartialEq, Eq)]
pub struct TokenInstantiation {
    /// The account that may migrate the token contract.
    pub admin: String,
    /// The code to instantiate.
    pub code_id: u64,
    /// The token contract's instantiation message, encoded.
    pub msg: Vec<u8>,
    /// The label of the new contract.
    pub label: String,
    /// The number under which the host reports the outcome back.
    pub reply_id: u64,
}

/// A `TokenInstantiation` as contracts see it.
pub struct TokenInstantiationView {
    pub admin: Seq<char>,
    pub code_id: u64,
    pub msg: Seq<u8>,
    pub label: Seq<char>,
    pub reply_id: u64,
}

impl View for TokenInstantiation {
    type V = TokenInstantiationView;

    open spec fn view(&self) -> TokenInstantiationView {
        TokenInstantiationView {
            admin: self.admin@,
            code_id: self.code_id,
            msg: self.msg@,
            label: self.label@,
            reply_id: self.reply_id,
        }
    }
}

/// Something the host is to do once the call has returned. If it fails,
/// the host undoes the call.
#[derive(Debug, PartialEq, Eq)]
pub enum SubMsg {
    /// Move an asset.
    Transfer(Transfer),
    /// Create the base asset's token contract and report back.
    Instantiate(TokenInstantiation),
}

/// A `SubMsg` as contracts see it.
pub enum SubMsgView {
    Transfer(TransferView),
    Instantiate(TokenInstantiationView),
}

impl View for SubMsg {
    type V = SubMsgView;

    open spec fn view(&self) -> SubMsgView {
        match self {
            SubMsg::Transfer(t) => SubMsgView::Transfer(t@),
            SubMsg::Instantiate(i) => SubMsgView::Instantiate(i@),
        }
    }
}

/// What an operation hands back.
#[derive(Debug, PartialEq, Eq)]
pub struct Response {
    /// The operation, where it reports itself.
    pub action: Option<Action>,
    /// The amounts, where the operation was a trade.
    pub trade: Option<TradeReceipt>,
    /// What the host is to do, in this order.
    pub messages: Vec<SubMsg>,
}

/// A `Response` as contracts see it.
pub struct ResponseView {
    pub action: Option<Action>,
    pub trade: Option<TradeReceipt>,
    pub messages: Seq<SubMsgView>,
}

impl View for Response {
    type V = ResponseView;

    open spec fn view(&self) -> ResponseView {
        ResponseView {
            action: self.action,
            trade: self.trade,
            messages: self.messages@.map_values(|m: SubMsg| m@),
        }
    }
}

impl ResponseView {
    /// The response that reports nothing and asks for nothing.
    pub open spec fn empty() -> ResponseView {
        ResponseView { action: None, trade: None, messages: Seq::empty() }
    }

    /// The response that reports `action` and asks for nothing.
    pub open spec fn of_action(action: Action) -> ResponseView {
        ResponseView { action: Some(action), trade: None, messages: Seq::empty() }
    }
}

impl Response {
    /// The response that reports nothing and asks for nothing.
    pub fn new() -> (r: Response)
        ensures
            r@ == ResponseView::empty(),
    {
        let r = Response { action: None, trade: None, messages: Vec::new() };
        assert(r.messages@.map_values(|m: SubMsg| m@) =~= Seq::empty());
        r
    }

    /// The response that reports `action` and asks for nothing.
    pub fn of_action(action: Action) -> (r: Response)
        ensures
            r@ == ResponseView::of_action(action),
    {
        let r = Response { action: Some(action), trade: None, messages: Vec::new() };
        assert(r.messages@.map_values(|m: SubMsg| m@) =~= Seq::empty());
        r
    }

    /// Adds one more thing for the host to do, after those already there.
    pub fn add_submessage(self, msg: SubMsg) -> (r: Response)
        ensures
            r@ == (ResponseView { messages: self@.messages.push(msg@), ..self@ }),
    {
        let mut messages = self.messages;
        messages.push(msg);
        let r = Response { action: self.action, trade: self.trade, messages };
        assert(r.messages@.map_values(|m: SubMsg| m@) =~= self.messages@.map_values(
            |m: SubMsg| m@,
        ).push(msg@));
        r
    }
}

} // verus!
