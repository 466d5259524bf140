//! The JSON-RPC request for the bridge, and JSON and Base64 as the replies carry them.
use fastcrypto::encoding::Encoding;
use vstd::prelude::*;

verus! {

/// The text of the JSON object with two members that are strings and one that is a number.
pub uninterp spec fn json_object_text(
    first_key: Seq<char>,
    first: Seq<char>,
    second_key: Seq<char>,
    second: Seq<char>,
    number_key: Seq<char>,
    number: u64,
) -> Seq<char>;

/// Fills a `serde_json::Map` by `insert` and calls `to_string` of the `serde_json::Value` made of
/// it. How the text escapes strings and orders members is left to the name.
#[verifier::external_body]
fn json_object(
    first_key: &str,
    first: &str,
    second_key: &str,
    second: &str,
    number_key: &str,
    number: u64,
) -> (text: String)
    ensures
        text@ == json_object_text(
            first_key@,
            first@,
            second_key@,
            second@,
            number_key@,
            number,
        ),
{
    let mut members = serde_json::Map::new();
    members.insert(first_key.to_string(), serde_json::Value::from(first));
    members.insert(second_key.to_string(), serde_json::Value::from(second));
    members.insert(number_key.to_string(), serde_json::Value::from(number));
    serde_json::Value::Object(members).to_string()
}

/// The string that JSON text stands for; `None` where it stands for none.
pub uninterp spec fn json_string(raw: Seq<u8>) -> Option<Seq<char>>;

/// Calls `serde_json::from_slice` for a `String`. Which bytes are a JSON string, and which string
/// that is, is left to the name.
#[verifier::external_body]
pub(crate) fn parse_json_string(raw: &[u8]) -> (text: Option<String>)
    ensures
        text is Some <==> json_string(raw@) is Some,
        text is Some ==> text->0@ == json_string(raw@)->0,
{
    match serde_json::from_slice::<String>(raw) {
        Ok(text) => Some(text),
        Err(_) => None,
    }
}

/// The bytes that Base64 text stands for; `None` where it stands for none.
pub uninterp spec fn base64_bytes(text: Seq<char>) -> Option<Seq<u8>>;

/// Calls `fastcrypto::encoding::Base64::decode`. Which text is Base64, and which bytes it stands
/// for, is left to the name.
#[verifier::external_body]
pub(crate) fn decode_base64(text: &str) -> (bytes: Option<Vec<u8>>)
    ensures
        bytes is Some <==> base64_bytes(text@) is Some,
        bytes is Some ==> bytes->0@ == base64_bytes(text@)->0,
{
    match fastcrypto::encoding::Base64::decode(text) {
        Ok(bytes) => Some(bytes),
        Err(_) => None,
    }
}

/// One step of the counter of JSON-RPC states: its two labels and by how much it grows.
#[derive(Debug)]
pub struct StateUpdate {
    pub subject: String,
    pub state: String,
    pub amount: usize,
}

impl View for StateUpdate {
    type V = (Seq<char>, Seq<char>, int);

    open spec fn view(&self) -> (Seq<char>, Seq<char>, int) {
        (self.subject@, self.state@, self.amount as int)
    }
}

impl StateUpdate {
    /// A step of the counter.
    pub fn new(subject: &str, state: &str, amount: usize) -> (update: Self)
        ensures
            update@ == (subject@, state@, amount as int),
            update.subject@ == subject@,
            update.state@ == state@,
            update.amount == amount,
    {
        StateUpdate { subject: subject.to_owned(), state: state.to_owned(), amount }
    }
}

/// A step of the counter stands for its labels and its amount.
pub proof fn update_stands_for(update: StateUpdate)
    ensures
        update@ == (update.subject@, update.state@, update.amount as int),
{
}

/// The method that lists the bridge committee.
pub open spec fn bridge_method() -> Seq<char> {
    "suix_getLatestBridge"@
}

/// A JSON-RPC request, as it is posted.
#[derive(Debug)]
pub struct RpcRequest {
    pub method: String,
    pub content_type: String,
    pub body: String,
}

/// The request for the bridge committee.
pub fn bridge_request() -> (request: RpcRequest)
    ensures
        request.method@ == bridge_method(),
        request.method@ == "suix_getLatestBridge"@,
        request.content_type@ == "application/json"@,
        request.body@ == json_object_text(
            "jsonrpc"@,
            "2.0"@,
            "method"@,
            "suix_getLatestBridge"@,
            "id"@,
            1,
        ),
{
    let method = "suix_getLatestBridge";
    RpcRequest {
        method: method.to_owned(),
        content_type: "application/json".to_owned(),
        body: json_object("jsonrpc", "2.0", "method", method, "id", 1),
    }
}

} // verus!
