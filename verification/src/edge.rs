//! What the edge proxy decides on its own: which peer a request goes to, and what the health check
//! answers.
use crate::config::PeerConfig;
use crate::headers::{append_header, first_header, no_headers};
use crate::text::{decimal_text, same_bytes};
use vstd::prelude::*;
use vstd::slice::slice_to_vec;

verus! {

/// A byte that is a visible ASCII character, a space or a tab.
pub open spec fn is_visible(byte: u8) -> bool {
    32 <= byte < 127 || byte == 9
}

/// The text of a header value; `None` where it holds anything but visible ASCII characters.
pub open spec fn header_text(value: Seq<u8>) -> Option<Seq<char>> {
    if forall|i: int| 0 <= i < value.len() ==> is_visible(#[trigger] value[i]) {
        Some(value.map_values(|byte: u8| byte as char))
    } else {
        None
    }
}

/// What a request says of its transaction.
#[derive(Debug, Clone, Copy, PartialEq, Eq)]
pub enum TransactionType {
    /// It says nothing.
    Absent,
    /// The transaction is to be executed.
    Execute,
    /// It says something else.
    Other,
    /// What it says cannot be read.
    Unreadable,
}

/// What a header value says of the transaction.
pub open spec fn transaction_type(value: Option<Seq<u8>>) -> TransactionType {
    match value {
        None => TransactionType::Absent,
        Some(value) => match header_text(value) {
            None => TransactionType::Unreadable,
            Some(text) => if text == "execute"@ {
                TransactionType::Execute
            } else {
                TransactionType::Other
            },
        },
    }
}

/// The first value of the header that tells the kind of the transaction.
pub open spec fn transaction_header(
    headers: http::HeaderMap<http::HeaderValue>,
) -> Option<Seq<u8>> {
    let contents = crate::headers::header_contents(headers);
    if contents.contains_key("sui-transaction-type"@) {
        Some(contents["sui-transaction-type"@][0])
    } else {
        None
    }
}

/// Only the seven letters `execute`, in lower case and with nothing around them, ask for execution.
pub proof fn execute_is_exact(value: Seq<u8>)
    ensures
        transaction_type(Some(value)) == TransactionType::Execute <==> value
            == vstd::utf8::encode_utf8("execute"@),
{
    reveal_strlit("execute");
    let text = value.map_values(|byte: u8| byte as char);
    let bytes = vstd::utf8::encode_utf8("execute"@);
    vstd::utf8::is_ascii_chars_encode_utf8("execute"@);
    if value == bytes {
        assert(text =~= "execute"@);
    }
    if text == "execute"@ {
        assert forall|i: int| 0 <= i < value.len() implies value[i] == bytes[i] by {
            assert(text[i] == "execute"@[i]);
        }
        assert(value =~= bytes);
    }
}

/// The kind of a transaction is read off the first value of one header, `sui-transaction-type`,
/// whatever else the request holds: it is absent, or the seven letters `execute`, or something else
/// that can be read, or a value with a byte that is no visible character, space or tab.
pub proof fn first_value_decides(headers: http::HeaderMap<http::HeaderValue>)
    ensures
        ({
            let contents = crate::headers::header_contents(headers);
            let name = "sui-transaction-type"@;
            let value = contents[name][0];
            let kind = transaction_type(transaction_header(headers));
            let readable = forall|i: int|
                0 <= i < value.len() ==> 32 <= #[trigger] value[i] < 127 || value[i] == 9;
            &&& kind == TransactionType::Absent <==> !contents.contains_key(name)
            &&& kind == TransactionType::Execute <==> contents.contains_key(name) && value
                == vstd::utf8::encode_utf8("execute"@)
            &&& kind == TransactionType::Unreadable <==> contents.contains_key(name) && !readable
            &&& kind == TransactionType::Other <==> contents.contains_key(name) && readable && value
                != vstd::utf8::encode_utf8("execute"@)
        }),
{
    let contents = crate::headers::header_contents(headers);
    let name = "sui-transaction-type"@;
    if contents.contains_key(name) {
        kind_of_value(contents[name][0]);
    }
}

/// The kind of a transaction, in terms of the bytes of the value.
pub proof fn kind_of_value(value: Seq<u8>)
    ensures
        ({
            let kind = transaction_type(Some(value));
            let readable = forall|i: int|
                0 <= i < value.len() ==> 32 <= #[trigger] value[i] < 127 || value[i] == 9;
            &&& kind != TransactionType::Absent
            &&& kind == TransactionType::Execute <==> value == vstd::utf8::encode_utf8("execute"@)
            &&& kind == TransactionType::Unreadable <==> !readable
            &&& kind == TransactionType::Other <==> readable && value
                != vstd::utf8::encode_utf8("execute"@)
        }),
        transaction_type(None) == TransactionType::Absent,
{
    execute_is_exact(value);
    if forall|i: int| 0 <= i < value.len() ==> 32 <= #[trigger] value[i] < 127 || value[i] == 9 {
        assert forall|i: int| 0 <= i < value.len() implies is_visible(#[trigger] value[i]) by {}
    } else {
        let i = choose|i: int|
            0 <= i < value.len() && !(32 <= #[trigger] value[i] < 127 || value[i] == 9);
        assert(!is_visible(value[i]));
    }
}

/// Requests that agree on the one header are of one kind, whatever their other headers.
pub proof fn other_headers_do_not_count(
    some: http::HeaderMap<http::HeaderValue>,
    other: http::HeaderMap<http::HeaderValue>,
)
    requires
        crate::headers::values_of(
            crate::headers::header_contents(some),
            "sui-transaction-type"@,
        ) == crate::headers::values_of(
            crate::headers::header_contents(other),
            "sui-transaction-type"@,
        ),
        crate::headers::header_contents(some).contains_key("sui-transaction-type"@)
            == crate::headers::header_contents(other).contains_key("sui-transaction-type"@),
    ensures
        transaction_type(transaction_header(some)) == transaction_type(transaction_header(other)),
{
}

fn all_visible(value: &[u8]) -> (visible: bool)
    ensures
        visible == (forall|i: int| 0 <= i < value@.len() ==> is_visible(#[trigger] value@[i])),
{
    let n: usize = value.len();
    let mut i: usize = 0;
    while i < n
        invariant
            i <= n,
            n == value@.len(),
            forall|j: int| 0 <= j < i ==> is_visible(#[trigger] value@[j]),
        decreases n - i,
    {
        let byte: u8 = value[i];
        if !(32 <= byte && byte < 127 || byte == 9) {
            assert(!is_visible(value@[i as int]));
            return false;
        }
        i += 1;
    }
    true
}

/// What a header value says of the transaction.
pub fn read_transaction_type(value: Option<&[u8]>) -> (kind: TransactionType)
    ensures
        kind == transaction_type(crate::text::view_of(value)),
        kind == TransactionType::Absent <==> value is None,
        kind == TransactionType::Execute <==> value is Some && value->0@
            == vstd::utf8::encode_utf8("execute"@),
        kind == TransactionType::Unreadable <==> value is Some && exists|i: int|
            0 <= i < value->0@.len() && !(32 <= #[trigger] value->0@[i] < 127 || value->0@[i] == 9),
{
    proof {
        if let Some(value) = value {
            kind_of_value(value@);
        }
    }
    match value {
        None => TransactionType::Absent,
        Some(value) => {
            if !all_visible(value) {
                return TransactionType::Unreadable;
            }
            let execute = "execute";
            proof {
                execute_is_exact(value@);
            }
            if same_bytes(value, execute.as_bytes()) {
                TransactionType::Execute
            } else {
                TransactionType::Other
            }
        },
    }
}

/// Passes requests on: those to be executed to one peer, all others to another.
#[derive(Debug)]
pub struct LB(PeerConfig, PeerConfig);

impl LB {
    /// The peer for reads.
    pub closed spec fn read_peer(self) -> PeerConfig {
        self.0
    }

    /// The peer for executions.
    pub closed spec fn execution_peer(self) -> PeerConfig {
        self.1
    }

    /// A load balancer over the peer for reads and the peer for executions.
    pub fn new(read_peer: PeerConfig, execution_peer: PeerConfig) -> (lb: Self)
        ensures
            lb.read_peer() == read_peer,
            lb.execution_peer() == execution_peer,
    {
        LB(read_peer, execution_peer)
    }

    /// The peer for a transaction of the given kind.
    pub fn peer_for(&self, kind: TransactionType) -> (peer: &PeerConfig)
        ensures
            *peer == if kind == TransactionType::Execute {
                self.execution_peer()
            } else {
                self.read_peer()
            },
    {
        match kind {
            TransactionType::Execute => &self.1,
            _ => &self.0,
        }
    }

    /// What the headers of a request say of its transaction.
    pub fn request_type(headers: &http::HeaderMap<http::HeaderValue>) -> (kind: TransactionType)
        ensures
            kind == transaction_type(transaction_header(*headers)),
            ({
                let contents = crate::headers::header_contents(*headers);
                let name = "sui-transaction-type"@;
                let value = contents[name][0];
                &&& kind == TransactionType::Absent <==> !contents.contains_key(name)
                &&& kind == TransactionType::Execute <==> contents.contains_key(name) && value
                    == vstd::utf8::encode_utf8("execute"@)
                &&& kind == TransactionType::Unreadable <==> contents.contains_key(name)
                    && exists|i: int|
                    0 <= i < value.len() && !(32 <= #[trigger] value[i] < 127 || value[i] == 9)
            }),
    {
        proof {
            first_value_decides(*headers);
        }
        proof {
            reveal_strlit("Sui-Transaction-Type");
            reveal_strlit("sui-transaction-type");
            assert(crate::headers::lower_text("Sui-Transaction-Type"@)
                =~= "sui-transaction-type"@);
        }
        match first_header(headers, "Sui-Transaction-Type") {
            Some(value) => read_transaction_type(Some(value.as_slice())),
            None => read_transaction_type(None),
        }
    }

    /// The peer that a request with the given headers is passed on to.
    pub fn upstream_peer(&self, headers: &http::HeaderMap<http::HeaderValue>) -> (peer: &PeerConfig)
        ensures
            *peer == if transaction_type(transaction_header(*headers)) == TransactionType::Execute {
                self.execution_peer()
            } else {
                self.read_peer()
            },
            ({
                let contents = crate::headers::header_contents(*headers);
                let name = "sui-transaction-type"@;
                *peer == if contents.contains_key(name) && contents[name][0]
                    == vstd::utf8::encode_utf8("execute"@) {
                    self.execution_peer()
                } else {
                    self.read_peer()
                }
            }),
    {
        self.peer_for(Self::request_type(headers))
    }
}

/// Answers the health check.
#[derive(Debug)]
pub struct HealthCheckApp;

/// The parts of an HTTP response.
#[derive(Debug)]
pub struct HealthResponse {
    pub status: u16,
    pub headers: http::HeaderMap<http::HeaderValue>,
    pub body: Vec<u8>,
}

impl HealthCheckApp {
    /// The answer: the server is up. There are two headers, with one value each.
    pub fn response(&self) -> (response: HealthResponse)
        ensures
            response.status == 200,
            response.body@ == vstd::utf8::encode_utf8("up"@),
            crate::headers::header_contents(response.headers)
                == map![
                "content-type"@ => seq![vstd::utf8::encode_utf8("text/html"@)],
                "content-length"@ => seq![
                    vstd::utf8::encode_utf8(crate::text::decimal(response.body@.len() as int)),
                ],
            ],
    {
        let body: Vec<u8> = slice_to_vec("up".as_bytes());
        let length = decimal_text(body.len() as u64);
        let mut headers = no_headers();
        proof {
            reveal_strlit("content-type");
            reveal_strlit("content-length");
            reveal_strlit("text/html");
            assert(crate::headers::lower_text("content-type"@) =~= "content-type"@);
            assert(crate::headers::lower_text("content-length"@) =~= "content-length"@);
            assert("content-type"@.len() != "content-length"@.len());
            crate::text::decimal_digits(body@.len() as int);
        }
        append_header(&mut headers, "content-type", "text/html");
        append_header(&mut headers, "content-length", length.as_str());
        assert(crate::headers::header_contents(headers)
            =~= map![
            "content-type"@ => seq![vstd::utf8::encode_utf8("text/html"@)],
            "content-length"@ => seq![
                vstd::utf8::encode_utf8(crate::text::decimal(body@.len() as int)),
            ],
        ]);
        HealthResponse { status: 200, headers, body }
    }
}

} // verus!
