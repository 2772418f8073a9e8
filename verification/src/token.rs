//! The assets that the curve trades, and the funds attached to a call.

use vstd::prelude::*;

verus! {

/// An asset: a native denomination of the ledger, or a token contract
/// known by its address.
#[derive(Debug, PartialEq, Eq)]
pub enum Token {
    /// A native asset, by its denomination.
    Denom(String),
    /// A tracked asset, by the address of its contract.
    Address(String),
}

/// A `Token` as contracts see it.
pub enum TokenView {
    Denom(Seq<char>),
    Address(Seq<char>),
}

impl View for Token {
    type V = TokenView;

    open spec fn view(&self) -> TokenView {
        match self {
            Token::Denom(d) => TokenView::Denom(d@),
            Token::Address(a) => TokenView::Address(a@),
        }
    }
}

impl TokenView {
    /// The denomination or the address, whichever names the asset.
    pub open spec fn name(self) -> Seq<char> {
        match self {
            TokenView::Denom(d) => d,
            TokenView::Address(a) => a,
        }
    }
}

impl Clone for Token {
    fn clone(&self) -> (r: Self)
        ensures
            r == *self,
    {
        match self {
            Token::Denom(d) => Token::Denom(d.clone()),
            Token::Address(a) => Token::Address(a.clone()),
        }
    }
}

/// An amount of a native asset attached to a call.
#[derive(Debug, PartialEq, Eq)]
pub struct Coin {
    /// The denomination.
    pub denom: String,
    /// The number of units.
    pub amount: u128,
}

impl Clone for Coin {
    fn clone(&self) -> (r: Self)
        ensures
            r == *self,
    {
        Coin { denom: self.denom.clone(), amount: self.amount }
    }
}

/// A request to move `amount` units of `token` to `recipient`, to be carried
/// out by the host once the call has returned.
#[derive(Debug, PartialEq, Eq)]
pub struct Transfer {
    /// The asset to move.
    pub token: Token,
    /// The account that receives it.
    pub recipient: String,
    /// The number of units.
    pub amount: u128,
}

/// A `Transfer` as contracts see it.
pub struct TransferView {
    pub token: TokenView,
    pub recipient: Seq<char>,
    pub amount: u128,
}

impl View for Transfer {
    type V = TransferView;

    open spec fn view(&self) -> TransferView {
        TransferView { token: self.token@, recipient: self.recipient@, amount: self.amount }
    }
}

/// The amount of the first coin in `funds` whose denomination is `denom`.
pub open spec fn spec_find_denom(funds: Seq<Coin>, denom: Seq<char>) -> Option<u128>
    decreases funds.len(),
{
    if funds.len() == 0 {
        None
    } else if funds[0].denom@ == denom {
        Some(funds[0].amount)
    } else {
        spec_find_denom(funds.drop_first(), denom)
    }
}

/// What the funds hold of an asset: for a native asset the amount of the
/// first coin of its denomination, for a tracked asset nothing, since funds
/// are native.
pub open spec fn spec_find_in_funds(token: TokenView, funds: Seq<Coin>) -> Option<u128> {
    match token {
        TokenView::Denom(d) => spec_find_denom(funds, d),
        TokenView::Address(_) => None,
    }
}

impl Token {
    /// The denomination, for a native asset.
    pub fn get_denom(&self) -> (r: Option<String>)
        ensures
            match self@ {
                TokenView::Denom(d) => r is Some && r->0@ == d,
                TokenView::Address(_) => r is None,
            },
    {
        match self {
            Token::Denom(d) => Some(d.clone()),
            Token::Address(_) => None,
        }
    }

    /// The contract address, for a tracked asset.
    pub fn get_address(&self) -> (r: Option<String>)
        ensures
            match self@ {
                TokenView::Address(a) => r is Some && r->0@ == a,
                TokenView::Denom(_) => r is None,
            },
    {
        match self {
            Token::Address(a) => Some(a.clone()),
            Token::Denom(_) => None,
        }
    }

    /// The denomination or the address, whichever names the asset.
    pub fn name(&self) -> (r: String)
        ensures
            r@ == self@.name(),
    {
        match self {
            Token::Denom(d) => d.clone(),
            Token::Address(a) => a.clone(),
        }
    }

    /// Whether two tokens name the same asset.
    pub fn same_as(&self, other: &Token) -> (r: bool)
        ensures
            r == (self@ == other@),
    {
        match (self, other) {
            (Token::Denom(a), Token::Denom(b)) => *a == *b,
            (Token::Address(a), Token::Address(b)) => *a == *b,
            _ => false,
        }
    }

    /// The amount of this asset among `funds`, if it is there.
    pub fn find_in_funds(&self, funds: &Vec<Coin>) -> (r: Option<u128>)
        ensures
            r == spec_find_in_funds(self@, funds@),
    {
        match self {
            Token::Address(_) => None,
            Token::Denom(denom) => {
                let mut i: usize = 0;
                assert(funds@.subrange(0, funds@.len() as int) == funds@);
                while i < funds.len()
                    invariant
                        i <= funds.len(),
                        self@ == TokenView::Denom(denom@),
                        spec_find_denom(funds@, denom@) == spec_find_denom(
                            funds@.subrange(i as int, funds@.len() as int),
                            denom@,
                        ),
                    decreases funds.len() - i,
                {
                    let ghost rest = funds@.subrange(i as int, funds@.len() as int);
                    assert(rest[0] == funds@[i as int]);
                    assert(rest.drop_first() == funds@.subrange(i + 1, funds@.len() as int));
                    if funds[i].denom == *denom {
                        return Some(funds[i].amount);
                    }
                    i = i + 1;
                }
                assert(funds@.subrange(i as int, funds@.len() as int).len() == 0);
                None
            },
        }
    }

    /// The request to move `amount` units of this asset to `recipient`.
    pub fn transfer(&self, recipient: &String, amount: u128) -> (r: Transfer)
        ensures
            r@ == (TransferView { token: self@, recipient: recipient@, amount }),
    {
        Transfer { token: self.clone(), recipient: recipient.clone(), amount }
    }
}

} // verus!
