//! The allow list of bridge validators: how the committee is asked for, how the list is kept up to
//! date, and who is let in.
use crate::committee::BridgeSummary;
use crate::keys::Ed25519PublicKey;
use crate::rpc::StateUpdate;
use crate::table::KeyTable;
use crate::text::decimal_text;
use std::time::Duration;
use vstd::prelude::*;
use vstd::slice::slice_to_vec;

verus! {

/// A validator of the bridge.
#[derive(Debug, PartialEq, Eq, Hash)]
pub struct BridgeValidator {
    pub name: String,
    pub public_key: Ed25519PublicKey,
}

/// What `BridgeValidator` stands for.
pub struct ValidatorView {
    pub name: Seq<char>,
    pub public_key: Seq<u8>,
}

impl View for BridgeValidator {
    type V = ValidatorView;

    open spec fn view(&self) -> ValidatorView {
        ValidatorView { name: self.name@, public_key: self.public_key@ }
    }
}

impl Clone for BridgeValidator {
    fn clone(&self) -> (copy: Self)
        ensures
            copy@ == self@,
    {
        BridgeValidator { name: self.name.clone(), public_key: self.public_key.clone() }
    }
}

/// What came of asking for the bridge.
#[derive(Debug)]
pub enum FetchReply {
    /// The request could not be sent.
    SendFailed,
    /// The body of the response could not be read.
    ExtractFailed,
    /// The body is not what it should be: the words of the decoder, and the body as it is shown.
    Undecodable { error: String, raw: String },
    /// The bridge.
    Decoded { summary: BridgeSummary },
}

/// What is counted and handed on of a reply.
#[derive(Debug)]
pub struct FetchReport {
    pub update: StateUpdate,
    pub result: Result<BridgeSummary, String>,
}

/// The state that a reply counts as.
pub open spec fn fetch_state(reply: FetchReply) -> Seq<char> {
    match reply {
        FetchReply::SendFailed => "failed_get"@,
        FetchReply::ExtractFailed => "failed_body_extract"@,
        FetchReply::Undecodable { .. } => "failed_json_decode"@,
        FetchReply::Decoded { .. } => "success"@,
    }
}

/// The bridge, or the words for what went wrong.
pub open spec fn fetch_result(reply: FetchReply) -> Result<BridgeSummary, Seq<char>> {
    match reply {
        FetchReply::SendFailed => Err("unable to perform json rpc"@),
        FetchReply::ExtractFailed => Err("unable to extract body bytes from json rpc"@),
        FetchReply::Undecodable { error, raw } => Err(
            "unable to decode json: "@ + error@ + " response from json rpc: "@ + raw@,
        ),
        FetchReply::Decoded { summary } => Ok(summary),
    }
}

/// What was done with the outcome of a poll.
#[derive(Debug)]
pub struct PollReport {
    pub update: StateUpdate,
    pub message: String,
}

/// What entries stand for.
pub open spec fn entry_views(entries: Seq<(Ed25519PublicKey, BridgeValidator)>) -> Seq<
    (Seq<u8>, ValidatorView),
> {
    entries.map_values(|e: (Ed25519PublicKey, BridgeValidator)| (e.0@, e.1@))
}

/// The allow list after a poll: the entries of one that succeeded take the place of what was there,
/// one that failed changes nothing.
pub open spec fn after_poll(
    nodes: Map<Seq<u8>, ValidatorView>,
    fetched: Option<Seq<(Seq<u8>, ValidatorView)>>,
) -> Map<Seq<u8>, ValidatorView> {
    match fetched {
        Some(entries) => crate::table::collected(entries),
        None => nodes,
    }
}

/// Keeps the allow list of bridge validators.
#[derive(Debug)]
pub struct BridgeValidatorProvider {
    nodes: KeyTable<BridgeValidator>,
    rpc_url: String,
    rpc_poll_interval: Duration,
}

/// What `BridgeValidatorProvider` stands for.
pub struct ProviderView {
    pub nodes: Map<Seq<u8>, ValidatorView>,
    pub rpc_url: Seq<char>,
    pub rpc_poll_interval: Duration,
}

impl View for BridgeValidatorProvider {
    type V = ProviderView;

    closed spec fn view(&self) -> ProviderView {
        ProviderView {
            nodes: self.nodes@.map_values(|v: BridgeValidator| v@),
            rpc_url: self.rpc_url@,
            rpc_poll_interval: self.rpc_poll_interval,
        }
    }
}

/// The table of entries.
fn table_of(entries: &Vec<(Ed25519PublicKey, BridgeValidator)>) -> (table: KeyTable<
    BridgeValidator,
>)
    ensures
        table@.map_values(|v: BridgeValidator| v@) == crate::table::collected(
            entry_views(entries@),
        ),
{
    let n: usize = entries.len();
    let mut pairs: Vec<(Vec<u8>, BridgeValidator)> = Vec::new();
    let mut i: usize = 0;
    while i < n
        invariant
            i <= n,
            n == entries@.len(),
            pairs@.len() == i,
            forall|j: int|
                0 <= j < i ==> (#[trigger] pairs@[j]).0@ == entries@[j].0@ && pairs@[j].1@
                    == entries@[j].1@,
        decreases n - i,
    {
        pairs.push((slice_to_vec(entries[i].0.as_bytes()), entries[i].1.clone()));
        i += 1;
    }
    proof {
        let f = |v: BridgeValidator| v@;
        crate::table::collected_mapped(crate::table::pairs_of(pairs@), f);
        assert(crate::table::mapped(crate::table::pairs_of(pairs@), f) =~= entry_views(entries@));
    }
    KeyTable::from_pairs(pairs)
}

impl BridgeValidatorProvider {
    /// A provider that asks at the given URL and as often as given. Its allow list is empty.
    pub fn new(rpc_url: String, rpc_poll_interval: Duration) -> (provider: Self)
        ensures
            provider@.nodes == Map::<Seq<u8>, ValidatorView>::empty(),
            provider@.rpc_url == rpc_url@,
            provider@.rpc_poll_interval == rpc_poll_interval,
    {
        let none: Vec<(Ed25519PublicKey, BridgeValidator)> = Vec::new();
        let nodes = table_of(&none);
        BridgeValidatorProvider { nodes, rpc_url, rpc_poll_interval }
    }

    /// Where the provider asks.
    pub fn rpc_url(&self) -> (url: &str)
        ensures
            url@ == self@.rpc_url,
    {
        self.rpc_url.as_str()
    }

    /// How often the provider asks.
    pub fn rpc_poll_interval(&self) -> (interval: Duration)
        ensures
            interval == self@.rpc_poll_interval,
    {
        self.rpc_poll_interval
    }

    /// Whether a key is on the allow list.
    pub fn allowed(&self, key: &Ed25519PublicKey) -> (allowed: bool)
        ensures
            allowed == self@.nodes.contains_key(key@),
    {
        self.nodes.get(key.as_bytes()).is_some()
    }

    /// The validator with the given key, if it is on the allow list.
    pub fn get(&self, key: &Ed25519PublicKey) -> (validator: Option<BridgeValidator>)
        ensures
            validator is Some <==> self@.nodes.contains_key(key@),
            validator is Some ==> validator->0@ == self@.nodes[key@],
            validator is Some ==> validator->0.name@ == self@.nodes[key@].name,
            validator is Some ==> validator->0.public_key@ == self@.nodes[key@].public_key,
    {
        match self.nodes.get(key.as_bytes()) {
            Some(validator) => Some(validator.clone()),
            None => None,
        }
    }

    /// What is made of the reply to the request for the bridge.
    pub fn get_validators(reply: FetchReply) -> (report: FetchReport)
        ensures
            report.update@ == (crate::rpc::bridge_method(), fetch_state(reply), 1int),
            match report.result {
                Ok(summary) => fetch_result(reply) == Ok::<BridgeSummary, Seq<char>>(summary),
                Err(words) => fetch_result(reply) == Err::<BridgeSummary, Seq<char>>(words@),
            },
            report.update.subject@ == "suix_getLatestBridge"@,
            report.update.amount == 1,
            match reply {
                FetchReply::SendFailed => {
                    &&& report.update.state@ == "failed_get"@
                    &&& report.result is Err
                    &&& report.result->Err_0@ == "unable to perform json rpc"@
                },
                FetchReply::ExtractFailed => {
                    &&& report.update.state@ == "failed_body_extract"@
                    &&& report.result is Err
                    &&& report.result->Err_0@ == "unable to extract body bytes from json rpc"@
                },
                FetchReply::Undecodable { error, raw } => {
                    &&& report.update.state@ == "failed_json_decode"@
                    &&& report.result is Err
                    &&& report.result->Err_0@ == "unable to decode json: "@ + error@
                        + " response from json rpc: "@ + raw@
                },
                FetchReply::Decoded { summary } => {
                    &&& report.update.state@ == "success"@
                    &&& report.result == Ok::<BridgeSummary, String>(summary)
                },
            },
    {
        let method = "suix_getLatestBridge";
        match reply {
            FetchReply::SendFailed => FetchReport {
                update: StateUpdate::new(method, "failed_get", 1),
                result: Err("unable to perform json rpc".to_owned()),
            },
            FetchReply::ExtractFailed => FetchReport {
                update: StateUpdate::new(method, "failed_body_extract", 1),
                result: Err("unable to extract body bytes from json rpc".to_owned()),
            },
            FetchReply::Undecodable { error, raw } => FetchReport {
                update: StateUpdate::new(method, "failed_json_decode", 1),
                result: Err(
                    "unable to decode json: ".to_owned().concat(error.as_str()).concat(
                        " response from json rpc: ",
                    ).concat(raw.as_str()),
                ),
            },
            FetchReply::Decoded { summary } => FetchReport {
                update: StateUpdate::new(method, "success", 1),
                result: Ok(summary),
            },
        }
    }

    /// Brings the allow list up to date with the outcome of a poll: the entries for the committee,
    /// or the words for what went wrong.
    pub fn poll_peer_list(
        &mut self,
        fetched: Result<Vec<(Ed25519PublicKey, BridgeValidator)>, String>,
    ) -> (report: PollReport)
        ensures
            final(self)@.rpc_url == old(self)@.rpc_url,
            final(self)@.rpc_poll_interval == old(self)@.rpc_poll_interval,
            match fetched {
                Ok(entries) => {
                    let peers = final(self)@.nodes.dom().len();
                    &&& final(self)@.nodes == after_poll(
                        old(self)@.nodes,
                        Some(entry_views(entries@)),
                    )
                    &&& final(self)@.nodes.dom().finite()
                    &&& report.update@ == ("update_bridge_peer_count"@, "success"@, peers as int)
                    &&& report.update.subject@ == "update_bridge_peer_count"@
                    &&& report.update.state@ == "success"@
                    &&& report.update.amount == peers
                    &&& forall|i: int|
                        0 <= i < entries@.len() && (forall|j: int|
                            i < j < entries@.len() ==> (#[trigger] entries@[j]).0@
                                != entries@[i].0@) ==> {
                            &&& final(self)@.nodes.contains_key((#[trigger] entries@[i]).0@)
                            &&& final(self)@.nodes[entries@[i].0@].name == entries@[i].1.name@
                            &&& final(self)@.nodes[entries@[i].0@].public_key
                                == entries@[i].1.public_key@
                        }
                    &&& forall|key: Seq<u8>| #[trigger]
                        final(self)@.nodes.contains_key(key) ==> exists|i: int|
                            0 <= i < entries@.len() && (#[trigger] entries@[i]).0@ == key
                    &&& report.message@ == crate::text::decimal(peers as int)
                        + " sui bridge peers managed to make it on the allow list"@
                },
                Err(words) => {
                    &&& final(self)@.nodes == after_poll(old(self)@.nodes, None)
                    &&& final(self)@.nodes == old(self)@.nodes
                    &&& report.update@ == ("update_bridge_peer_count"@, "failed"@, 1int)
                    &&& report.update.subject@ == "update_bridge_peer_count"@
                    &&& report.update.state@ == "failed"@
                    &&& report.update.amount == 1
                    &&& report.message@ == "unable to refresh sui bridge peer list: "@ + words@
                },
            },
    {
        match fetched {
            Ok(entries) => {
                self.nodes = table_of(&entries);
                let peers: usize = self.nodes.len();
                assert(self.nodes@.map_values(|v: BridgeValidator| v@).dom() =~= self.nodes@.dom());
                proof {
                    let views = entry_views(entries@);
                    let nodes = self@.nodes;
                    assert forall|i: int|
                        0 <= i < entries@.len() && (forall|j: int|
                            i < j < entries@.len() ==> (#[trigger] entries@[j]).0@
                                != entries@[i].0@) implies {
                        &&& nodes.contains_key((#[trigger] entries@[i]).0@)
                        &&& nodes[entries@[i].0@].name == entries@[i].1.name@
                        &&& nodes[entries@[i].0@].public_key == entries@[i].1.public_key@
                    } by {
                        assert forall|j: int| i < j < views.len() implies (#[trigger] views[j]).0
                            != views[i].0 by {
                            assert(entries@[j].0@ != entries@[i].0@);
                        }
                        poll_lists_the_last(nodes, views, i);
                    }
                    assert forall|key: Seq<u8>| #[trigger] nodes.contains_key(key) implies exists|
                        i: int,
                    |
                        0 <= i < entries@.len() && (#[trigger] entries@[i]).0@ == key by {
                        poll_lists_nothing_else(nodes, views, key);
                        let i = choose|i: int| 0 <= i < views.len() && (#[trigger] views[i]).0 == key;
                        assert(entries@[i].0@ == key);
                    }
                }
                PollReport {
                    update: StateUpdate::new("update_bridge_peer_count", "success", peers),
                    message: decimal_text(peers as u64).concat(
                        " sui bridge peers managed to make it on the allow list",
                    ),
                }
            },
            Err(words) => PollReport {
                update: StateUpdate::new("update_bridge_peer_count", "failed", 1),
                message: "unable to refresh sui bridge peer list: ".to_owned().concat(
                    words.as_str(),
                ),
            },
        }
    }
}

/// After a poll that succeeded the list holds, under the key of every entry that no later one takes the
/// place of, the whole validator of that entry, name and key.
pub proof fn poll_lists_the_last(
    nodes: Map<Seq<u8>, ValidatorView>,
    entries: Seq<(Seq<u8>, ValidatorView)>,
    i: int,
)
    requires
        0 <= i < entries.len(),
        forall|j: int| i < j < entries.len() ==> (#[trigger] entries[j]).0 != entries[i].0,
    ensures
        after_poll(nodes, Some(entries)).contains_key(entries[i].0),
        after_poll(nodes, Some(entries))[entries[i].0] == entries[i].1,
        after_poll(nodes, Some(entries))[entries[i].0].name == entries[i].1.name,
        after_poll(nodes, Some(entries))[entries[i].0].public_key == entries[i].1.public_key,
{
    crate::table::collected_last_wins(entries, i);
}

/// After a poll that succeeded the list holds no key that no entry has.
pub proof fn poll_lists_nothing_else(
    nodes: Map<Seq<u8>, ValidatorView>,
    entries: Seq<(Seq<u8>, ValidatorView)>,
    key: Seq<u8>,
)
    ensures
        after_poll(nodes, Some(entries)).contains_key(key) <==> exists|i: int|
            0 <= i < entries.len() && (#[trigger] entries[i]).0 == key,
{
    crate::table::collected_has_key(entries, key);
}

/// One more entry at the end of a poll changes what is listed under its key and nothing else; a poll
/// without entries leaves an empty list.
pub proof fn poll_grows(
    nodes: Map<Seq<u8>, ValidatorView>,
    entries: Seq<(Seq<u8>, ValidatorView)>,
    entry: (Seq<u8>, ValidatorView),
)
    ensures
        after_poll(nodes, Some(Seq::<(Seq<u8>, ValidatorView)>::empty())) == Map::<
            Seq<u8>,
            ValidatorView,
        >::empty(),
        after_poll(nodes, Some(entries.push(entry))) == after_poll(nodes, Some(entries)).insert(
            entry.0,
            entry.1,
        ),
{
    crate::table::collected_grows(entries, entry);
}

/// Validators and entries stand for themselves, one by one.
pub proof fn entries_one_by_one(
    validator: BridgeValidator,
    entries: Seq<(Ed25519PublicKey, BridgeValidator)>,
)
    ensures
        validator@.name == validator.name@,
        validator@.public_key == validator.public_key@,
        entry_views(entries).len() == entries.len(),
        forall|i: int|
            0 <= i < entries.len() ==> {
                &&& (#[trigger] entry_views(entries)[i]).0 == entries[i].0@
                &&& entry_views(entries)[i].1.name == entries[i].1.name@
                &&& entry_views(entries)[i].1.public_key == entries[i].1.public_key@
            },
{
}

/// Every validator is listed under its own key.
pub open spec fn under_own_keys(nodes: Map<Seq<u8>, ValidatorView>) -> bool {
    forall|key: Seq<u8>| #[trigger]
        nodes.contains_key(key) ==> nodes[key].public_key == key
}

/// Who is let in after polls does not depend on anything before the last one that succeeded.
pub proof fn last_success_decides(
    some: Map<Seq<u8>, ValidatorView>,
    other: Map<Seq<u8>, ValidatorView>,
    earlier: Option<Seq<(Seq<u8>, ValidatorView)>>,
    last: Seq<(Seq<u8>, ValidatorView)>,
)
    ensures
        after_poll(after_poll(some, earlier), Some(last)) == after_poll(other, Some(last)),
        after_poll(after_poll(some, Some(last)), None) == after_poll(other, Some(last)),
{
}

/// A poll that failed changes nothing.
pub proof fn failed_poll_keeps(nodes: Map<Seq<u8>, ValidatorView>)
    ensures
        after_poll(nodes, None) == nodes,
{
}

/// After a poll that succeeded a key is let in just where a member of the committee answered with
/// it: what was there before is gone.
pub proof fn committee_decides(
    nodes: Map<Seq<u8>, ValidatorView>,
    urls: Seq<Seq<u8>>,
    replies: Seq<Option<Seq<u8>>>,
    key: Seq<u8>,
)
    ensures
        after_poll(nodes, Some(crate::committee::extracted(urls, replies))).contains_key(key)
            <==> exists|i: int|
            {
                let entry = crate::committee::admitted(
                    #[trigger] urls[i],
                    crate::committee::reply_at(replies, i),
                );
                0 <= i < urls.len() && entry is Some && (entry->0).0 == key
            },
{
    let entries = crate::committee::extracted(urls, replies);
    crate::table::collected_has_key(entries, key);
    if crate::table::collected(entries).contains_key(key) {
        let k = choose|k: int| 0 <= k < entries.len() && (#[trigger] entries[k]).0 == key;
        crate::committee::extracted_only_admitted(urls, replies, k);
    }
    if exists|i: int|
        {
            let entry = crate::committee::admitted(
                #[trigger] urls[i],
                crate::committee::reply_at(replies, i),
            );
            0 <= i < urls.len() && entry is Some && (entry->0).0 == key
        } {
        let i = choose|i: int|
            {
                let entry = crate::committee::admitted(
                    #[trigger] urls[i],
                    crate::committee::reply_at(replies, i),
                );
                0 <= i < urls.len() && entry is Some && (entry->0).0 == key
            };
        crate::committee::extracted_has_admitted(urls, replies, i);
        let entry = crate::committee::admitted(urls[i], crate::committee::reply_at(replies, i))->0;
        let k = choose|k: int| 0 <= k < entries.len() && entries[k] == entry;
        assert(entries[k].0 == key);
    }
}

/// After a poll that succeeded the validator of the last member with a key is listed under it, with the
/// name that the member is asked under.
pub proof fn last_member_is_listed(
    nodes: Map<Seq<u8>, ValidatorView>,
    urls: Seq<Seq<u8>>,
    url: Seq<u8>,
    raw: Seq<u8>,
    name: Seq<char>,
    key: Seq<u8>,
    replies: Seq<Option<Seq<u8>>>,
)
    requires
        replies.len() == urls.len(),
        crate::committee::admitted(url, Some(raw)) == Some(
            (key, ValidatorView { name, public_key: key }),
        ),
    ensures
        after_poll(
            nodes,
            Some(crate::committee::extracted(urls.push(url), replies.push(Some(raw)))),
        ) == after_poll(
            nodes,
            Some(crate::committee::extracted(urls, replies.push(Some(raw)))),
        ).insert(key, ValidatorView { name, public_key: key }),
{
    let all = replies.push(Some(raw));
    let entry = (key, ValidatorView { name, public_key: key });
    crate::committee::extracted_grows(urls, url, all);
    assert(crate::committee::extracted(urls, all) + seq![entry] =~= crate::committee::extracted(
        urls,
        all,
    ).push(entry));
    poll_grows(nodes, crate::committee::extracted(urls, all), entry);
}

/// On a list made of replies every validator stands under its own key, and stays there.
pub proof fn listed_under_own_keys(
    nodes: Map<Seq<u8>, ValidatorView>,
    urls: Seq<Seq<u8>>,
    replies: Seq<Option<Seq<u8>>>,
)
    ensures
        under_own_keys(Map::empty()),
        under_own_keys(nodes) ==> under_own_keys(after_poll(nodes, None)),
        under_own_keys(after_poll(nodes, Some(crate::committee::extracted(urls, replies)))),
{
    let entries = crate::committee::extracted(urls, replies);
    assert forall|i: int| 0 <= i < entries.len() implies (#[trigger] entries[i]).0
        == entries[i].1.public_key by {
        crate::committee::extracted_keys_match(urls, replies, i);
    }
    collected_under_own_keys(entries);
}

proof fn collected_under_own_keys(entries: Seq<(Seq<u8>, ValidatorView)>)
    requires
        forall|i: int|
            0 <= i < entries.len() ==> (#[trigger] entries[i]).0 == entries[i].1.public_key,
    ensures
        under_own_keys(crate::table::collected(entries)),
    decreases entries.len(),
{
    if entries.len() > 0 {
        assert forall|i: int| 0 <= i < entries.drop_last().len() implies (
        #[trigger] entries.drop_last()[i]).0 == entries.drop_last()[i].1.public_key by {
            assert(entries[i].0 == entries[i].1.public_key);
        }
        collected_under_own_keys(entries.drop_last());
        assert(entries[entries.len() - 1].0 == entries[entries.len() - 1].1.public_key);
    }
}

} // verus!
