//! Account identifiers of the host ledger.

use vstd::prelude::*;

verus! {

/// A character that separates the parts of an account name.
pub open spec fn is_separator(c: char) -> bool {
    c == '-' || c == '_' || c == '.'
}

/// A lower-case ASCII letter or a decimal digit.
pub open spec fn is_lower_alnum(c: char) -> bool {
    ('a' <= c && c <= 'z') || ('0' <= c && c <= '9')
}

/// The ledger's rule for account names: two to sixty-four characters, each a
/// lower-case letter, a digit or a separator, with no separator at either end
/// and no two separators in a row.
pub open spec fn is_valid_account_id(name: Seq<char>) -> bool {
    &&& 2 <= name.len() <= 64
    &&& forall|i: int|
        0 <= i < name.len() ==> is_lower_alnum(#[trigger] name[i]) || is_separator(name[i])
    &&& !is_separator(name[0])
    &&& !is_separator(name[name.len() - 1])
    &&& forall|i: int|
        0 <= i < name.len() - 1 ==> !(is_separator(#[trigger] name[i]) && is_separator(
            name[i + 1],
        ))
}

/// Calls `near_sdk::AccountId::validate` and reports whether it accepted `name`.
///
/// Trusted: the answer is taken to be the ledger's naming rule as
/// [`is_valid_account_id`] states it.
#[verifier::external_body]
fn validate_name(name: &str) -> (ok: bool)
    ensures
        ok == is_valid_account_id(name@),
{
    near_sdk::AccountId::validate(name).is_ok()
}

/// The name of an account on the ledger. Every value holds a name that the
/// ledger accepts.
#[derive(Debug)]
pub struct AccountId {
    name: String,
}

impl View for AccountId {
    type V = Seq<char>;

    closed spec fn view(&self) -> Seq<char> {
        self.name@
    }
}

impl AccountId {
    #[verifier::type_invariant]
    spec fn well_formed(self) -> bool {
        is_valid_account_id(self.name@)
    }

    /// Makes an account identifier of `name` where the ledger's naming rule
    /// accepts it.
    pub fn parse(name: &str) -> (account: Option<AccountId>)
        ensures
            account is Some <==> is_valid_account_id(name@),
            account matches Some(a) ==> a@ == name@,
    {
        if validate_name(name) {
            Some(AccountId { name: name.to_owned() })
        } else {
            None
        }
    }

    /// The account's name, which obeys the naming rule.
    pub fn as_str(&self) -> (name: &str)
        ensures
            name@ == self@,
            is_valid_account_id(self@),
    {
        proof {
            use_type_invariant(self);
        }
        self.name.as_str()
    }
}

impl Clone for AccountId {
    fn clone(&self) -> (copy: Self)
        ensures
            copy@ == self@,
    {
        proof {
            use_type_invariant(self);
        }
        AccountId { name: self.name.clone() }
    }
}

impl PartialEq for AccountId {
    fn eq(&self, other: &Self) -> (same: bool) {
        self.name == other.name
    }
}

impl Eq for AccountId {

}

impl vstd::std_specs::cmp::PartialEqSpecImpl for AccountId {
    open spec fn obeys_eq_spec() -> bool {
        true
    }

    open spec fn eq_spec(&self, other: &Self) -> bool {
        self@ == other@
    }
}

} // verus!
