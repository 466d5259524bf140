//! The bridge committee: how each member is asked for its key, and what is made of the replies.
use crate::bridge::{BridgeValidator, ValidatorView};
use crate::keys::Ed25519PublicKey;
use crate::rpc::{decode_base64, parse_json_string};
use crate::urls::{parse_url_at_path, UrlParts, UrlSpans};
use vstd::prelude::*;
use vstd::slice::slice_to_vec;

verus! {

/// Calls `String::from_utf8`, which takes the bytes of a text and nothing else.
#[verifier::external_body]
fn text_from_utf8(bytes: Vec<u8>) -> (text: Option<String>)
    ensures
        text is Some <==> vstd::utf8::valid_utf8(bytes@),
        text is Some ==> vstd::utf8::encode_utf8(text->0@) == bytes@,
{
    match String::from_utf8(bytes) {
        Ok(text) => Some(text),
        Err(_) => None,
    }
}

/// A member of the bridge committee, as far as it is read here.
#[derive(Debug)]
pub struct CommitteeMember {
    pub sui_address: String,
    pub http_rest_url: Vec<u8>,
}

/// The bridge committee: its members under their keys.
#[derive(Debug)]
pub struct BridgeCommittee {
    pub members: Vec<(Vec<u8>, CommitteeMember)>,
}

/// The bridge, as far as it is read here.
#[derive(Debug)]
pub struct BridgeSummary {
    pub committee: BridgeCommittee,
}

impl BridgeSummary {
    /// The URLs of the committee members, one after the other.
    pub open spec fn urls(self) -> Seq<Seq<u8>> {
        self.committee.members@.map_values(|m: (Vec<u8>, CommitteeMember)| m.1.http_rest_url@)
    }
}

/// Why a member is not asked for its key.
#[derive(Debug, Clone, Copy, PartialEq, Eq)]
pub enum RequestError {
    InvalidUtf8,
    UnparsableUrl,
    MissingHost,
}

/// The request for the key of a member: where it goes, and the name that the member is known by.
#[derive(Debug)]
pub struct MetricsRequest {
    pub name: String,
    pub url: String,
}

/// What `MetricsRequest` stands for.
pub struct RequestView {
    pub name: Seq<char>,
    pub url: Seq<char>,
}

impl View for MetricsRequest {
    type V = RequestView;

    open spec fn view(&self) -> RequestView {
        RequestView { name: self.name@, url: self.url@ }
    }
}

/// What a result stands for.
pub open spec fn outcome<T: View, E>(result: Result<T, E>) -> Result<T::V, E> {
    match result {
        Ok(value) => Ok(value@),
        Err(error) => Err(error),
    }
}

/// The path under which a member has its key.
pub open spec fn key_path() -> Seq<char> {
    "/metrics_pub_key"@
}

/// The URL is not too long to be given that path.
pub open spec fn url_fits(url: Seq<u8>) -> bool {
    vstd::utf8::valid_utf8(url) ==> crate::urls::takes_path(
        vstd::utf8::decode_utf8(url),
        key_path(),
    )
}

/// The request that is made of a URL: its host is the name.
pub open spec fn request_of(parts: Option<(Option<Seq<char>>, Seq<char>)>) -> Result<
    RequestView,
    RequestError,
> {
    match parts {
        None => Err(RequestError::UnparsableUrl),
        Some((None, _)) => Err(RequestError::MissingHost),
        Some((Some(host), url)) => Ok(RequestView { name: host, url }),
    }
}

/// The request for the key of the member with the given URL.
pub open spec fn requested(url: Seq<u8>) -> Result<RequestView, RequestError> {
    if vstd::utf8::valid_utf8(url) {
        request_of(crate::urls::url_at_path(vstd::utf8::decode_utf8(url), key_path()))
    } else {
        Err(RequestError::InvalidUtf8)
    }
}

/// The request that is made of a URL.
pub fn request_from_url(parts: Option<UrlParts>) -> (request: Result<MetricsRequest, RequestError>)
    ensures
        outcome(request) == request_of(crate::text::view_of(parts)),
        match parts {
            None => request == Err::<MetricsRequest, RequestError>(RequestError::UnparsableUrl),
            Some(parts) => match parts.host {
                None => request == Err::<MetricsRequest, RequestError>(RequestError::MissingHost),
                Some(host) => request is Ok && request->Ok_0.name@ == host@ && request->Ok_0.url@
                    == parts.text@,
            },
        },
{
    match parts {
        None => Err(RequestError::UnparsableUrl),
        Some(parts) => match parts.host {
            None => Err(RequestError::MissingHost),
            Some(host) => Ok(MetricsRequest { name: host, url: parts.text }),
        },
    }
}

/// The request for the key of a member. One that is reached at a host name of ordinary shape is
/// asked there, and that is its name.
pub fn metrics_request(member: &CommitteeMember) -> (request: Result<MetricsRequest, RequestError>)
    requires
        url_fits(member.http_rest_url@),
    ensures
        outcome(request) == requested(member.http_rest_url@),
        ({
            let text = vstd::utf8::decode_utf8(member.http_rest_url@);
            vstd::utf8::valid_utf8(member.http_rest_url@) && crate::urls::plain_site(text) is Some
                ==> outcome(request) == Ok::<RequestView, RequestError>(
                RequestView { name: crate::urls::plain_site(text)->0, url: text + "/metrics_pub_key"@ },
            )
        }),
        !vstd::utf8::valid_utf8(member.http_rest_url@) ==> request == Err::<
            MetricsRequest,
            RequestError,
        >(RequestError::InvalidUtf8),
        vstd::utf8::valid_utf8(member.http_rest_url@) ==> match crate::urls::url_at_path(
            vstd::utf8::decode_utf8(member.http_rest_url@),
            "/metrics_pub_key"@,
        ) {
            None => request == Err::<MetricsRequest, RequestError>(RequestError::UnparsableUrl),
            Some((None, _)) => request == Err::<MetricsRequest, RequestError>(
                RequestError::MissingHost,
            ),
            Some((Some(host), url)) => request is Ok && request->Ok_0.name@ == host
                && request->Ok_0.url@ == url,
        },
{
    match text_from_utf8(slice_to_vec(member.http_rest_url.as_slice())) {
        Some(text) => {
            proof {
                vstd::utf8::encode_utf8_decode_utf8(text@);
                reveal_strlit("/metrics_pub_key");
            }
            request_from_url(parse_url_at_path(text.as_str(), "/metrics_pub_key"))
        },
        None => Err(RequestError::InvalidUtf8),
    }
}

/// The request for the key of a member; `None` where its URL is too long to be given the path. That
/// of a host name of ordinary shape never is.
pub fn try_metrics_request(member: &CommitteeMember) -> (request: Option<
    Result<MetricsRequest, RequestError>,
>)
    ensures
        request is Some <==> url_fits(member.http_rest_url@),
        request is Some ==> outcome(request->0) == requested(member.http_rest_url@),
        ({
            let text = vstd::utf8::decode_utf8(member.http_rest_url@);
            vstd::utf8::valid_utf8(member.http_rest_url@) && crate::urls::plain_site(text) is Some
                ==> request is Some && outcome(request->0) == Ok::<RequestView, RequestError>(
                RequestView { name: crate::urls::plain_site(text)->0, url: text + "/metrics_pub_key"@ },
            )
        }),
        request is Some <==> (vstd::utf8::valid_utf8(member.http_rest_url@)
            ==> crate::urls::takes_path(
            vstd::utf8::decode_utf8(member.http_rest_url@),
            "/metrics_pub_key"@,
        )),
        request is Some && !vstd::utf8::valid_utf8(member.http_rest_url@) ==> request->0 == Err::<
            MetricsRequest,
            RequestError,
        >(RequestError::InvalidUtf8),
        request is Some && vstd::utf8::valid_utf8(member.http_rest_url@)
            ==> match crate::urls::url_at_path(
            vstd::utf8::decode_utf8(member.http_rest_url@),
            "/metrics_pub_key"@,
        ) {
            None => request->0 == Err::<MetricsRequest, RequestError>(RequestError::UnparsableUrl),
            Some((None, _)) => request->0 == Err::<MetricsRequest, RequestError>(
                RequestError::MissingHost,
            ),
            Some((Some(host), url)) => match request->0 {
                Ok(request) => request.name@ == host && request.url@ == url,
                Err(_) => false,
            },
        },
{
    if let Some(text) = text_from_utf8(slice_to_vec(member.http_rest_url.as_slice())) {
        proof {
            vstd::utf8::encode_utf8_decode_utf8(text@);
            reveal_strlit("/metrics_pub_key");
        }
        if let Some(spans) = UrlSpans::measure(text.as_str()) {
            if !spans.take_path(16) {
                return None;
            }
        }
    }
    Some(metrics_request(member))
}

/// Why the reply of a member is not taken for a key.
#[derive(Debug, Clone, Copy, PartialEq, Eq)]
pub enum ReplyError {
    NotAString,
    NotBase64,
    NotAKey,
}

/// The key that bytes stand for.
pub open spec fn key_of_bytes(bytes: Seq<u8>) -> Result<Seq<u8>, ReplyError> {
    if crate::keys::is_ed25519_key(bytes) {
        Ok(bytes)
    } else {
        Err(ReplyError::NotAKey)
    }
}

/// The key that decoded Base64 text, where it was that, stands for.
pub open spec fn key_of_decoded(bytes: Option<Seq<u8>>) -> Result<Seq<u8>, ReplyError> {
    match bytes {
        Some(bytes) => key_of_bytes(bytes),
        None => Err(ReplyError::NotBase64),
    }
}

/// The key that a parsed JSON string, where it was that, stands for.
pub open spec fn key_of_parsed(text: Option<Seq<char>>) -> Result<Seq<u8>, ReplyError> {
    match text {
        Some(text) => key_of_decoded(crate::rpc::base64_bytes(text)),
        None => Err(ReplyError::NotAString),
    }
}

/// The key that a reply stands for: a JSON string, in it Base64, in that the bytes of a key.
pub open spec fn key_of_reply(raw: Seq<u8>) -> Result<Seq<u8>, ReplyError> {
    key_of_parsed(crate::rpc::json_string(raw))
}

/// The key that decoded Base64 text stands for.
pub fn key_from_decoded(bytes: Option<Vec<u8>>) -> (key: Result<Ed25519PublicKey, ReplyError>)
    ensures
        outcome(key) == key_of_decoded(crate::text::view_of(bytes)),
        match bytes {
            None => key == Err::<Ed25519PublicKey, ReplyError>(ReplyError::NotBase64),
            Some(bytes) => if crate::keys::is_ed25519_key(bytes@) {
                key is Ok && key->Ok_0@ == bytes@
            } else {
                key == Err::<Ed25519PublicKey, ReplyError>(ReplyError::NotAKey)
            },
        },
        key is Ok ==> key->Ok_0@.len() == 32,
{
    match bytes {
        Some(bytes) => match Ed25519PublicKey::from_bytes(bytes.as_slice()) {
            Some(key) => Ok(key),
            None => Err(ReplyError::NotAKey),
        },
        None => Err(ReplyError::NotBase64),
    }
}

/// The key that a parsed JSON string stands for.
pub fn key_from_parsed(text: Option<String>) -> (key: Result<Ed25519PublicKey, ReplyError>)
    ensures
        outcome(key) == key_of_parsed(crate::text::view_of(text)),
        match text {
            None => key == Err::<Ed25519PublicKey, ReplyError>(ReplyError::NotAString),
            Some(text) => match crate::rpc::base64_bytes(text@) {
                None => key == Err::<Ed25519PublicKey, ReplyError>(ReplyError::NotBase64),
                Some(bytes) => if crate::keys::is_ed25519_key(bytes) {
                    key is Ok && key->Ok_0@ == bytes
                } else {
                    key == Err::<Ed25519PublicKey, ReplyError>(ReplyError::NotAKey)
                },
            },
        },
        key is Ok ==> key->Ok_0@.len() == 32,
{
    match text {
        Some(text) => key_from_decoded(decode_base64(text.as_str())),
        None => Err(ReplyError::NotAString),
    }
}

/// The key that a reply stands for.
pub fn key_from_reply(raw: &[u8]) -> (key: Result<Ed25519PublicKey, ReplyError>)
    ensures
        outcome(key) == key_of_reply(raw@),
        match crate::rpc::json_string(raw@) {
            None => key == Err::<Ed25519PublicKey, ReplyError>(ReplyError::NotAString),
            Some(text) => match crate::rpc::base64_bytes(text) {
                None => key == Err::<Ed25519PublicKey, ReplyError>(ReplyError::NotBase64),
                Some(bytes) => if crate::keys::is_ed25519_key(bytes) {
                    key is Ok && key->Ok_0@ == bytes
                } else {
                    key == Err::<Ed25519PublicKey, ReplyError>(ReplyError::NotAKey)
                },
            },
        },
        key is Ok ==> key->Ok_0@.len() == 32,
{
    key_from_parsed(parse_json_string(raw))
}

/// An entry of the allow list, with its key.
pub open spec fn entry_of(name: Seq<char>, key: Seq<u8>) -> (Seq<u8>, ValidatorView) {
    (key, ValidatorView { name, public_key: key })
}

/// The entry for a member, if any, given its URL and its reply, if any. A member whose URL is too long
/// has none.
pub open spec fn admitted(url: Seq<u8>, reply: Option<Seq<u8>>) -> Option<
    (Seq<u8>, ValidatorView),
> {
    if url_fits(url) {
        match (requested(url), reply) {
            (Ok(request), Some(raw)) => match key_of_reply(raw) {
                Ok(key) => Some(entry_of(request.name, key)),
                Err(_) => None,
            },
            _ => None,
        }
    } else {
        None
    }
}

/// A member at a host name of ordinary shape that answers with a key: its name is the host.
pub open spec fn answers(
    url: Seq<u8>,
    reply: Option<Seq<u8>>,
    name: Seq<char>,
    key: Seq<u8>,
) -> bool {
    &&& vstd::utf8::valid_utf8(url)
    &&& crate::urls::plain_site(vstd::utf8::decode_utf8(url)) == Some(name)
    &&& reply is Some
    &&& crate::rpc::json_string(reply->0) is Some
    &&& crate::rpc::base64_bytes(crate::rpc::json_string(reply->0)->0) == Some(key)
    &&& crate::keys::is_ed25519_key(key)
}

/// A member answers where its URL is a scheme and a host name of ordinary shape and its reply is the
/// JSON string of the Base64 of a key.
pub proof fn key_is_an_answer(
    url: Seq<u8>,
    raw: Seq<u8>,
    text: Seq<char>,
    name: Seq<char>,
    key: Seq<u8>,
)
    requires
        vstd::utf8::valid_utf8(url),
        crate::urls::plain_site(vstd::utf8::decode_utf8(url)) == Some(name),
        crate::rpc::json_string(raw) == Some(text),
        crate::rpc::base64_bytes(text) == Some(key),
        crate::keys::is_ed25519_key(key),
    ensures
        answers(url, Some(raw), name, key),
{
}

/// The reply to the request with the given index; a request beyond the replies has none.
pub open spec fn reply_at(replies: Seq<Option<Seq<u8>>>, i: int) -> Option<Seq<u8>> {
    if 0 <= i < replies.len() {
        replies[i]
    } else {
        None
    }
}

/// The entries for the members, in the order of the members; a member without one is passed over.
pub open spec fn extracted(urls: Seq<Seq<u8>>, replies: Seq<Option<Seq<u8>>>) -> Seq<
    (Seq<u8>, ValidatorView),
>
    decreases urls.len(),
{
    if urls.len() == 0 {
        Seq::empty()
    } else {
        let before = extracted(urls.drop_last(), replies);
        match admitted(urls.last(), reply_at(replies, urls.len() - 1)) {
            Some(entry) => before.push(entry),
            None => before,
        }
    }
}

/// What replies stand for.
pub open spec fn reply_bytes(replies: Seq<Option<Vec<u8>>>) -> Seq<Option<Seq<u8>>> {
    replies.map_values(|r: Option<Vec<u8>>| crate::text::view_of(r))
}

/// The entry for a member, if any, given its reply, if any.
pub fn entry_for(member: &CommitteeMember, reply: Option<&[u8]>) -> (entry: Option<
    (Ed25519PublicKey, BridgeValidator),
>)
    ensures
        crate::text::view_of(entry) == admitted(
            member.http_rest_url@,
            crate::text::view_of(reply),
        ),
        ({
            let url = member.http_rest_url@;
            let host = crate::urls::plain_site(vstd::utf8::decode_utf8(url));
            vstd::utf8::valid_utf8(url) && host is Some && reply is Some
                ==> match crate::rpc::json_string(reply->0@) {
                None => entry is None,
                Some(text) => match crate::rpc::base64_bytes(text) {
                    None => entry is None,
                    Some(key) => if crate::keys::is_ed25519_key(key) {
                        match entry {
                            Some((listed, validator)) => {
                                &&& listed@ == key
                                &&& validator.name@ == host->0
                                &&& validator.public_key@ == key
                            },
                            None => false,
                        }
                    } else {
                        entry is None
                    },
                },
            }
        }),
{
    match (try_metrics_request(member), reply) {
        (Some(Ok(request)), Some(raw)) => match key_from_reply(raw) {
            Ok(key) => Some(
                (key.clone(), BridgeValidator { name: request.name, public_key: key }),
            ),
            Err(_) => None,
        },
        _ => None,
    }
}

/// The entries for the committee, given the reply of each member that sent one.
pub fn extract_bridge(summary: &BridgeSummary, replies: &Vec<Option<Vec<u8>>>) -> (entries: Vec<
    (Ed25519PublicKey, BridgeValidator),
>)
    ensures
        crate::bridge::entry_views(entries@) == extracted(summary.urls(), reply_bytes(replies@)),
        forall|i: int, name: Seq<char>, key: Seq<u8>|
            #![trigger answers(
                summary.committee.members@[i].1.http_rest_url@,
                crate::text::view_of(replies@[i]),
                name,
                key,
            )]
            {
                &&& 0 <= i < summary.committee.members@.len()
                &&& i < replies@.len()
                &&& answers(
                    summary.committee.members@[i].1.http_rest_url@,
                    crate::text::view_of(replies@[i]),
                    name,
                    key,
                )
            } ==> exists|j: int|
                {
                    &&& 0 <= j < entries@.len()
                    &&& (#[trigger] entries@[j]).0@ == key
                    &&& entries@[j].1.name@ == name
                    &&& entries@[j].1.public_key@ == key
                },
{
    let members = &summary.committee.members;
    let n: usize = members.len();
    let mut entries: Vec<(Ed25519PublicKey, BridgeValidator)> = Vec::new();
    let mut i: usize = 0;
    assert(crate::bridge::entry_views(entries@) =~= extracted(summary.urls().take(0), reply_bytes(replies@)));
    while i < n
        invariant
            i <= n,
            n == members@.len(),
            members == summary.committee.members,
            crate::bridge::entry_views(entries@) == extracted(summary.urls().take(i as int), reply_bytes(replies@)),
            forall|m: int, name: Seq<char>, key: Seq<u8>|
                0 <= m < i && m < replies@.len() && #[trigger] answers(
                    members@[m].1.http_rest_url@,
                    crate::text::view_of(replies@[m]),
                    name,
                    key,
                ) ==> admitted(summary.urls()[m], reply_at(reply_bytes(replies@), m)) == Some(
                    entry_of(name, key),
                ),
        decreases n - i,
    {
        let reply: Option<&[u8]> = if i < replies.len() {
            match &replies[i] {
                Some(raw) => Some(raw.as_slice()),
                None => None,
            }
        } else {
            None
        };
        let ghost held = entries@;
        proof {
            assert(summary.urls()[i as int] == members@[i as int].1.http_rest_url@);
            assert(summary.urls().take(i + 1).drop_last() =~= summary.urls().take(i as int));
            assert(summary.urls().take(i + 1).last() == summary.urls()[i as int]);
            assert(crate::text::view_of(reply) == reply_at(reply_bytes(replies@), i as int));
        }
        match entry_for(&members[i].1, reply) {
            Some(entry) => {
                entries.push(entry);
                assert(crate::bridge::entry_views(entries@) =~= crate::bridge::entry_views(held).push((entry.0@, entry.1@)));
            },
            None => {},
        }
        i += 1;
    }
    assert(summary.urls().take(n as int) =~= summary.urls());
    proof {
        assert forall|m: int, name: Seq<char>, key: Seq<u8>|
            0 <= m < n && m < replies@.len() && #[trigger] answers(
                summary.committee.members@[m].1.http_rest_url@,
                crate::text::view_of(replies@[m]),
                name,
                key,
            ) implies exists|j: int|
            {
                &&& 0 <= j < entries@.len()
                &&& (#[trigger] entries@[j]).0@ == key
                &&& entries@[j].1.name@ == name
                &&& entries@[j].1.public_key@ == key
            } by {
            assert(answers(
                members@[m].1.http_rest_url@,
                crate::text::view_of(replies@[m]),
                name,
                key,
            ));
            extracted_has_admitted(summary.urls(), reply_bytes(replies@), m);
            let views = crate::bridge::entry_views(entries@);
            let j = choose|j: int| 0 <= j < views.len() && views[j] == entry_of(name, key);
            assert(entries@[j].0@ == key);
        }
    }
    entries
}

/// Every entry is under the key of its own validator, and the key is one that was accepted.
pub proof fn extracted_keys_match(urls: Seq<Seq<u8>>, replies: Seq<Option<Seq<u8>>>, i: int)
    requires
        0 <= i < extracted(urls, replies).len(),
    ensures
        extracted(urls, replies)[i].0 == extracted(urls, replies)[i].1.public_key,
        crate::keys::is_ed25519_key(extracted(urls, replies)[i].0),
    decreases urls.len(),
{
    if urls.len() > 0 {
        let before = extracted(urls.drop_last(), replies);
        if i < before.len() {
            extracted_keys_match(urls.drop_last(), replies, i);
        }
    }
}

/// The request for a member is made of its URL with the one path in place, and of the host; the ways in
/// which it fails exclude one another.
pub proof fn requested_is_exact(url: Seq<u8>)
    ensures
        !vstd::utf8::valid_utf8(url) ==> requested(url) == Err::<RequestView, RequestError>(
            RequestError::InvalidUtf8,
        ),
        vstd::utf8::valid_utf8(url) ==> requested(url) == match crate::urls::url_at_path(
            vstd::utf8::decode_utf8(url),
            "/metrics_pub_key"@,
        ) {
            None => Err::<RequestView, RequestError>(RequestError::UnparsableUrl),
            Some((None, _)) => Err(RequestError::MissingHost),
            Some((Some(host), url)) => Ok(RequestView { name: host, url }),
        },
{
}

/// A member has the entry with the given name and key just where its URL, given the path, has that name
/// for its host, and its reply is the JSON string of the Base64 of that key. It has none without a
/// reply, and none but such an entry.
pub proof fn admitted_is_exact(url: Seq<u8>, raw: Seq<u8>, name: Seq<char>, key: Seq<u8>)
    ensures
        admitted(url, None) is None,
        admitted(url, Some(raw)) == Some(
            (key, ValidatorView { name, public_key: key }),
        ) <==> {
            &&& vstd::utf8::valid_utf8(url)
            &&& crate::urls::takes_path(vstd::utf8::decode_utf8(url), "/metrics_pub_key"@)
            &&& match crate::urls::url_at_path(
                vstd::utf8::decode_utf8(url),
                "/metrics_pub_key"@,
            ) {
                Some((Some(host), _)) => host == name,
                _ => false,
            }
            &&& match crate::rpc::json_string(raw) {
                Some(text) => crate::rpc::base64_bytes(text) == Some(key),
                None => false,
            }
            &&& crate::keys::is_ed25519_key(key)
        },
        admitted(url, Some(raw)) is Some ==> {
            let (listed, validator) = admitted(url, Some(raw))->0;
            validator.public_key == listed
        },
{
}

/// One more member brings its own entry to the end of the list, or nothing, and changes nothing else;
/// what decides is its own URL and the reply in its own place.
pub proof fn extracted_grows(urls: Seq<Seq<u8>>, url: Seq<u8>, replies: Seq<Option<Seq<u8>>>)
    ensures
        extracted(Seq::<Seq<u8>>::empty(), replies).len() == 0,
        extracted(urls.push(url), replies) == extracted(urls, replies) + match admitted(
            url,
            if urls.len() < replies.len() {
                replies[urls.len() as int]
            } else {
                None
            },
        ) {
            Some(entry) => seq![entry],
            None => Seq::empty(),
        },
{
    assert(urls.push(url).drop_last() =~= urls);
    let entry = admitted(url, reply_at(replies, urls.len() as int));
    if entry is Some {
        assert(extracted(urls, replies).push(entry->0) =~= extracted(urls, replies) + seq![
            entry->0,
        ]);
    } else {
        assert(extracted(urls, replies) + Seq::empty() =~= extracted(urls, replies));
    }
}

/// Members, replies and requests stand for themselves, one by one.
pub proof fn members_one_by_one(
    summary: BridgeSummary,
    replies: Seq<Option<Vec<u8>>>,
    request: MetricsRequest,
)
    ensures
        summary.urls().len() == summary.committee.members@.len(),
        forall|i: int|
            0 <= i < summary.committee.members@.len() ==> #[trigger] summary.urls()[i]
                == summary.committee.members@[i].1.http_rest_url@,
        reply_bytes(replies).len() == replies.len(),
        forall|i: int|
            0 <= i < replies.len() ==> #[trigger] reply_bytes(replies)[i] == match replies[i] {
                Some(raw) => Some(raw@),
                None => None,
            },
        request@.name == request.name@,
        request@.url == request.url@,
{
}

/// There are no more entries than members.
pub proof fn extracted_len(urls: Seq<Seq<u8>>, replies: Seq<Option<Seq<u8>>>)
    ensures
        extracted(urls, replies).len() <= urls.len(),
    decreases urls.len(),
{
    if urls.len() > 0 {
        extracted_len(urls.drop_last(), replies);
    }
}

/// The entry of a member stands in the list whatever becomes of the others.
pub proof fn extracted_has_admitted(urls: Seq<Seq<u8>>, replies: Seq<Option<Seq<u8>>>, i: int)
    requires
        0 <= i < urls.len(),
        admitted(urls[i], reply_at(replies, i)) is Some,
    ensures
        extracted(urls, replies).contains(admitted(urls[i], reply_at(replies, i))->0),
    decreases urls.len(),
{
    let before = extracted(urls.drop_last(), replies);
    let all = extracted(urls, replies);
    let entry = admitted(urls[i], reply_at(replies, i))->0;
    if i == urls.len() - 1 {
        assert(all[all.len() - 1] == entry);
    } else {
        extracted_has_admitted(urls.drop_last(), replies, i);
        let k = choose|k: int| 0 <= k < before.len() && before[k] == entry;
        assert(all[k] == entry);
    }
}

/// Every entry is that of some member.
pub proof fn extracted_only_admitted(urls: Seq<Seq<u8>>, replies: Seq<Option<Seq<u8>>>, k: int)
    requires
        0 <= k < extracted(urls, replies).len(),
    ensures
        exists|i: int|
            0 <= i < urls.len() && admitted(#[trigger] urls[i], reply_at(replies, i)) == Some(
                extracted(urls, replies)[k],
            ),
    decreases urls.len(),
{
    if urls.len() > 0 {
        let before = extracted(urls.drop_last(), replies);
        if k < before.len() {
            extracted_only_admitted(urls.drop_last(), replies, k);
            let i = choose|i: int|
                0 <= i < urls.drop_last().len() && admitted(
                    #[trigger] urls.drop_last()[i],
                    reply_at(replies, i),
                ) == Some(before[k]);
            assert(urls[i] == urls.drop_last()[i]);
        } else {
            assert(urls[urls.len() - 1] == urls.last());
        }
    }
}

/// The entries come in the order of the members: those of the first members first.
pub proof fn extracted_in_order(urls: Seq<Seq<u8>>, replies: Seq<Option<Seq<u8>>>, n: int)
    requires
        0 <= n <= urls.len(),
    ensures
        extracted(urls.take(n), replies).len() <= extracted(urls, replies).len(),
        extracted(urls.take(n), replies) == extracted(urls, replies).take(
            extracted(urls.take(n), replies).len() as int,
        ),
    decreases urls.len(),
{
    if n == urls.len() {
        assert(urls.take(n) =~= urls);
        assert(extracted(urls, replies).take(extracted(urls, replies).len() as int) =~= extracted(
            urls,
            replies,
        ));
    } else {
        extracted_in_order(urls.drop_last(), replies, n);
        assert(urls.drop_last().take(n) =~= urls.take(n));
        let m = extracted(urls.take(n), replies).len() as int;
        assert(extracted(urls, replies).take(m) =~= extracted(urls.drop_last(), replies).take(m));
    }
}

/// A member that was not reached, or sent nothing, has no entry.
pub proof fn no_reply_no_entry(urls: Seq<Seq<u8>>, replies: Seq<Option<Seq<u8>>>)
    requires
        forall|i: int| 0 <= i < replies.len() ==> (#[trigger] replies[i]) is None,
    ensures
        extracted(urls, replies).len() == 0,
    decreases urls.len(),
{
    if urls.len() > 0 {
        no_reply_no_entry(urls.drop_last(), replies);
    }
}

} // verus!
