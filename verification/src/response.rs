use vstd::prelude::*;

verus! {

/// The value of an emitted attribute: either text or a token amount,
/// which the embedding renders as a decimal numeral.
#[derive(Clone, Debug, PartialEq, Eq)]
pub enum AttrValue {
    Text(String),
    Amount(u128),
}

/// One key/value pair of the structured metadata a handler emits.
#[derive(Clone, Debug, PartialEq, Eq)]
pub struct Attribute {
    pub key: String,
    pub value: AttrValue,
}

/// An instruction to the host to pay native currency to an address.
#[derive(Clone, Debug, PartialEq, Eq)]
pub struct BankPayment {
    pub to_address: String,
    pub denom: String,
    pub amount: u128,
}

/// What a successful handler hands back to the host: emitted attributes
/// and payment instructions to dispatch.
#[derive(Clone, Debug, PartialEq, Eq)]
pub struct Response {
    pub attributes: Vec<Attribute>,
    pub messages: Vec<BankPayment>,
}

/// `a` is the textual attribute `k: v`.
pub open spec fn is_text_attr(a: Attribute, k: Seq<char>, v: Seq<char>) -> bool {
    &&& a.key@ == k
    &&& a.value matches AttrValue::Text(s) && s@ == v
}

/// `a` is the numeric attribute `k: n`.
pub open spec fn is_amount_attr(a: Attribute, k: Seq<char>, n: u128) -> bool {
    &&& a.key@ == k
    &&& a.value == AttrValue::Amount(n)
}

/// A textual attribute.
pub fn text_attr(key: &str, value: String) -> (a: Attribute)
    ensures
        is_text_attr(a, key@, value@),
{
    Attribute { key: key.to_owned(), value: AttrValue::Text(value) }
}

/// A numeric attribute.
pub fn amount_attr(key: &str, n: u128) -> (a: Attribute)
    ensures
        is_amount_attr(a, key@, n),
{
    Attribute { key: key.to_owned(), value: AttrValue::Amount(n) }
}

} // verus!
