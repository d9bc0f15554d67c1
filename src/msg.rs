use vstd::prelude::*;

verus! {

/// An amount of one denomination. The engine never looks inside: it hands
/// coins on exactly as it got them.
#[verifier::external_type_specification]
#[verifier::external_body]
pub struct ExCoin(cosmwasm_std::Coin);

/// What creating an escrow asks for.
#[derive(Clone, Debug, PartialEq, Eq)]
pub struct InstantiateMsg {
    pub arbiter: String,
    pub recipient: String,
    pub end_height: Option<u64>,
    pub end_time: Option<u64>,
}

/// The actions on an existing escrow.
#[derive(Clone, Debug, PartialEq)]
pub enum ExecuteMsg {
    /// Release `quantity` to the recipient, or the whole balance if `None`.
    Approve { quantity: Option<Vec<cosmwasm_std::Coin>> },
    /// Return the whole balance to the source.
    Refund {},
}

/// The read-only queries.
#[derive(Clone, Copy, Debug, PartialEq, Eq)]
pub enum QueryMsg {
    /// Who the arbiter is.
    Arbiter {},
}

/// The answer to `QueryMsg::Arbiter`.
#[derive(Clone, Debug, PartialEq, Eq)]
pub struct ArbiterResponse {
    pub arbiter: String,
}

/// An instruction for the host: send `amount` to `to_address`.
#[derive(Clone, Debug, PartialEq)]
pub struct BankSend {
    pub to_address: String,
    pub amount: Vec<cosmwasm_std::Coin>,
}

/// A key-value pair attached to a response for observers.
#[derive(Clone, Debug, PartialEq, Eq)]
pub struct Attribute {
    pub key: String,
    pub value: String,
}

/// What a successful call hands back to the host: transfers to carry out
/// and attributes to record.
#[derive(Clone, Debug, PartialEq)]
pub struct Response {
    pub messages: Vec<BankSend>,
    pub attributes: Vec<Attribute>,
}

impl Response {
    /// A response with no transfers and no attributes.
    pub fn new() -> (r: Response)
        ensures
            r.messages@.len() == 0,
            r.attributes@.len() == 0,
    {
        Response { messages: Vec::new(), attributes: Vec::new() }
    }

    /// Appends a transfer instruction.
    pub fn add_message(self, msg: BankSend) -> (r: Response)
        ensures
            r.messages@ == self.messages@.push(msg),
            r.attributes@ == self.attributes@,
    {
        let mut r = self;
        r.messages.push(msg);
        r
    }

    /// Appends an attribute.
    pub fn add_attribute(self, key: String, value: String) -> (r: Response)
        ensures
            r.messages@ == self.messages@,
            r.attributes@ == self.attributes@.push((Attribute { key, value })),
    {
        let mut r = self;
        r.attributes.push(Attribute { key, value });
        r
    }
}

} // verus!
