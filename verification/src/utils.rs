//! Who a swap is made for.

use vstd::prelude::*;
use vstd::string::*;
use crate::error::{ContractError, ContractErrorView};

verus! {

/// The refusal given to a sender who is not the operator.
pub open spec fn spec_not_operator_reason(operator: Seq<char>, action: Seq<char>) -> Seq<char> {
    "only operator "@ + operator + " may "@ + action
}

/// The refusal given to a sender who names another account while no
/// operator is configured.
pub open spec fn spec_no_operator_reason() -> Seq<char> {
    "only an operator can act on behalf of another account, but none is configured"@
}

/// The account a swap is made for.
///
/// With an operator configured, only the operator may call, and the swap
/// is made for the account it names, or for the operator itself where it
/// names none. With no operator, the swap is made for the sender, who may
/// name no account but its own.
pub open spec fn spec_resolve_swap_initiator(
    operator: Option<Seq<char>>,
    sender: Seq<char>,
    maybe_initiator: Option<Seq<char>>,
    action: Seq<char>,
) -> Result<Seq<char>, ContractErrorView> {
    match operator {
        Some(operator) => if sender != operator {
            Err(ContractErrorView::NotAuthorized { reason: spec_not_operator_reason(operator, action) })
        } else {
            match maybe_initiator {
                Some(initiator) => Ok(initiator),
                None => Ok(sender),
            }
        },
        None => if maybe_initiator is Some && maybe_initiator->0 != sender {
            Err(ContractErrorView::NotAuthorized { reason: spec_no_operator_reason() })
        } else {
            Ok(sender)
        },
    }
}

/// The characters of an optional text.
pub open spec fn opt_view(s: Option<String>) -> Option<Seq<char>> {
    match s {
        Some(s) => Some(s@),
        None => None,
    }
}

/// Who may swap, and for whom.
#[derive(Debug, PartialEq, Eq)]
pub enum AuthPolicy {
    /// No operator is configured: every sender swaps for itself.
    Direct,
    /// An operator is configured: it alone swaps, for the accounts it names.
    Delegated(String),
}

impl AuthPolicy {
    /// The operator, where the policy has one.
    pub open spec fn operator(self) -> Option<Seq<char>> {
        match self {
            AuthPolicy::Direct => None,
            AuthPolicy::Delegated(operator) => Some(operator@),
        }
    }

    /// The policy that holds with this operator configured, or with none.
    pub fn of(operator: &Option<String>) -> (r: AuthPolicy)
        ensures
            r.operator() == opt_view(*operator),
    {
        match operator {
            Some(operator) => AuthPolicy::Delegated(operator.clone()),
            None => AuthPolicy::Direct,
        }
    }

    /// Decides for which account `sender` swaps under this policy, given the
    /// account that the call names, if any. `action` names the swap in the
    /// refusal.
    pub fn resolve(&self, sender: &String, maybe_initiator: &Option<String>, action: &str) -> (r:
        Result<String, ContractError>)
        ensures
            match spec_resolve_swap_initiator(
                self.operator(),
                sender@,
                opt_view(*maybe_initiator),
                action@,
            ) {
                Ok(initiator) => r is Ok && r->Ok_0@ == initiator,
                Err(e) => r is Err && r->Err_0@ == e,
            },
    {
        match self {
            AuthPolicy::Delegated(operator) => {
                if *sender != *operator {
                    let mut reason = String::from_str("only operator ");
                    reason.append(operator.as_str());
                    reason.append(" may ");
                    reason.append(action);
                    return Err(ContractError::NotAuthorized { reason });
                }
                match maybe_initiator {
                    Some(initiator) => Ok(initiator.clone()),
                    None => Ok(sender.clone()),
                }
            },
            AuthPolicy::Direct => {
                if let Some(initiator) = maybe_initiator {
                    if *initiator != *sender {
                        return Err(
                            ContractError::NotAuthorized {
                                reason: String::from_str(
                                    "only an operator can act on behalf of another account, but none is configured",
                                ),
                            },
                        );
                    }
                }
                Ok(sender.clone())
            },
        }
    }
}

/// Decides for which account `sender` swaps, given the operator that is
/// configured, if any, and the account that the call names, if any.
/// `action` names the swap in the refusal.
pub fn resolve_swap_initiator(
    operator: &Option<String>,
    sender: &String,
    maybe_initiator: &Option<String>,
    action: &str,
) -> (r: Result<String, ContractError>)
    ensures
        match spec_resolve_swap_initiator(
            opt_view(*operator),
            sender@,
            opt_view(*maybe_initiator),
            action@,
        ) {
            Ok(initiator) => r is Ok && r->Ok_0@ == initiator,
            Err(e) => r is Err && r->Err_0@ == e,
        },
{
    AuthPolicy::of(operator).resolve(sender, maybe_initiator, action)
}

} // verus!
