//! The texts and fixed parameters of the bot's outbound sends: the
//! greeting, the credential message, and the invoice.

use vstd::prelude::*;

verus! {

/// The greeting sent on the start command.
pub fn greeting_text() -> (r: String)
    ensures
        r@ == "hi"@,
{
    String::from_str("hi")
}

/// The text of the message that delivers a credential, with the credential
/// set in a code span: `Your API KEY:\n\n`<key>``. The surrounding send
/// marks it as markdown.
pub open spec fn credential_message_text(key: Seq<char>) -> Seq<char> {
    "Your API KEY:\n\n`"@ + key + "`"@
}

/// Builds the credential-delivery message for a fetched credential.
pub fn credential_message(credential: &str) -> (r: String)
    ensures
        r@ == credential_message_text(credential@),
{
    let mut s = String::from_str("Your API KEY:\n\n`");
    s.append(credential);
    s.append("`");
    s
}

/// The fixed invoice sent on the purchase command: every field but the
/// target chat is a constant of the product.
pub struct InvoiceRequest {
    pub target: i64,
    pub title: String,
    pub description: String,
    pub payload: String,
    pub currency: String,
    pub price_amount: i64,
    pub price_label: String,
}

/// Builds the invoice for a target chat.
pub fn invoice_request(target: i64) -> (r: InvoiceRequest)
    ensures
        r.target == target,
        r.title@ == "API KEY"@,
        r.description@ == "WB API KEY for repricing chrome extension"@,
        r.payload@ == "1"@,
        r.currency@ == "XTR"@,
        r.price_amount == 123,
        r.price_label@ == "20"@,
{
    InvoiceRequest {
        target,
        title: String::from_str("API KEY"),
        description: String::from_str("WB API KEY for repricing chrome extension"),
        payload: String::from_str("1"),
        currency: String::from_str("XTR"),
        price_amount: 123,
        price_label: String::from_str("20"),
    }
}

} // verus!
