//! URLs, held as the text that they are written with.
use vstd::prelude::*;

verus! {

/// The text with which the URL that a text stands for is written; `None` where the text stands for
/// no URL.
pub uninterp spec fn url_text(text: Seq<char>) -> Option<Seq<char>>;

/// A small letter.
pub open spec fn is_letter(c: char) -> bool {
    'a' <= c <= 'z'
}

/// A hyphen or a dot, with a letter on either side.
pub open spec fn joins_letters(host: Seq<char>, i: int) -> bool {
    &&& host[i] == '-' || host[i] == '.'
    &&& 0 < i < host.len() - 1
    &&& is_letter(host[i - 1])
    &&& is_letter(host[i + 1])
}

/// A host name of ordinary shape: small letters, joined by single hyphens and dots.
pub open spec fn is_plain_host(host: Seq<char>) -> bool {
    &&& 0 < host.len() <= 253
    &&& forall|i: int|
        0 <= i < host.len() ==> is_letter(#[trigger] host[i]) || joins_letters(host, i)
}

/// The host, where the text is `https://` or `http://` and a host name of ordinary shape, with
/// nothing behind it.
pub open spec fn plain_site(text: Seq<char>) -> Option<Seq<char>> {
    if text.len() > 8 && text.take(8) == "https://"@ && is_plain_host(text.skip(8)) {
        Some(text.skip(8))
    } else if text.len() > 7 && text.take(7) == "http://"@ && is_plain_host(text.skip(7)) {
        Some(text.skip(7))
    } else {
        None
    }
}

/// Both schemes count, and the host is all that follows: small letters, and hyphens and dots that have
/// a letter on either side.
pub proof fn plain_site_is_exact(text: Seq<char>, host: Seq<char>)
    ensures
        plain_site(text) == Some(host) <==> {
            &&& text == "https://"@ + host || text == "http://"@ + host
            &&& 0 < host.len() <= 253
            &&& forall|i: int|
                0 <= i < host.len() ==> {
                    ||| 'a' <= #[trigger] host[i] <= 'z'
                    ||| {
                        &&& host[i] == '-' || host[i] == '.'
                        &&& 0 < i < host.len() - 1
                        &&& 'a' <= host[i - 1] <= 'z'
                        &&& 'a' <= host[i + 1] <= 'z'
                    }
                }
        },
{
    reveal_strlit("https://");
    reveal_strlit("http://");
    if plain_site(text) == Some(host) {
        if text.len() > 8 && text.take(8) == "https://"@ && is_plain_host(text.skip(8)) {
            assert(text =~= text.take(8) + text.skip(8));
        } else {
            assert(text =~= text.take(7) + text.skip(7));
        }
        assert forall|i: int| 0 <= i < host.len() implies {
            ||| 'a' <= #[trigger] host[i] <= 'z'
            ||| {
                &&& host[i] == '-' || host[i] == '.'
                &&& 0 < i < host.len() - 1
                &&& 'a' <= host[i - 1] <= 'z'
                &&& 'a' <= host[i + 1] <= 'z'
            }
        } by {
            assert(is_letter(host[i]) || joins_letters(host, i));
        }
    }
    if text == "https://"@ + host {
        assert(text.take(8) =~= "https://"@);
        assert(text.skip(8) =~= host);
        if text.len() > 7 {
            assert(text[4] == 's');
            assert(text.take(7)[4] == 's');
        }
    }
    if text == "http://"@ + host {
        assert(text.take(7) =~= "http://"@);
        assert(text.skip(7) =~= host);
        if text.len() > 8 {
            assert(text[4] == ':');
            assert(text.take(8)[4] == ':');
        }
    }
}

/// A path of ordinary shape: a slash and up to sixty-three small letters and underscores.
pub open spec fn is_plain_path(path: Seq<char>) -> bool {
    &&& 1 < path.len() <= 64
    &&& path[0] == '/'
    &&& forall|i: int| 1 <= i < path.len() ==> is_letter(#[trigger] path[i]) || path[i] == '_'
}

/// Calls `url::Url::parse` and hands out the text that the URL is written with. A scheme and a host
/// name of ordinary shape are a URL, written with a slash at the end. Which other texts are URLs,
/// and how they are written then, is left to the name.
#[verifier::external_body]
fn parse_url(text: &str) -> (url: Option<String>)
    ensures
        url is Some <==> url_text(text@) is Some,
        url is Some ==> url->0@ == url_text(text@)->0,
        plain_site(text@) is Some ==> url is Some && url->0@ == text@.push('/'),
{
    match url::Url::parse(text) {
        Ok(url) => Some(url.into()),
        Err(_) => None,
    }
}

/// The host of the URL that a text stands for and the text that the URL is written with once its
/// path is replaced.
pub uninterp spec fn url_at_path(text: Seq<char>, path: Seq<char>) -> Option<
    (Option<Seq<char>>, Seq<char>),
>;

/// Where the parts of the URL that a text stands for lie in the text that it is written with: whether
/// its path is opaque (as in `mailto:someone`), where the path begins and ends, where the query ends,
/// and where the fragment begins, behind its `#`. Where there is no query it ends with the path, and
/// where there is no fragment it begins with the end of the query.
pub uninterp spec fn url_spans(text: Seq<char>) -> Option<(bool, nat, nat, nat, nat)>;

/// Where the parts of a URL lie, in bytes.
#[derive(Debug, Clone, Copy, PartialEq, Eq)]
pub struct UrlSpans {
    pub opaque: bool,
    pub path_start: usize,
    pub path_end: usize,
    pub query_end: usize,
    pub fragment_start: usize,
}

impl View for UrlSpans {
    type V = (bool, nat, nat, nat, nat);

    open spec fn view(&self) -> (bool, nat, nat, nat, nat) {
        (
            self.opaque,
            self.path_start as nat,
            self.path_end as nat,
            self.query_end as nat,
            self.fragment_start as nat,
        )
    }
}

/// Calls `url::Url::parse`, `Url::cannot_be_a_base` and the indexing of a `Url` by `url::Position`, and
/// hands out the lengths of what lies before each position. There is a result where the text parses,
/// and only there. The path of a scheme and a host name of ordinary shape is a slash at the end. How
/// the parts of other URLs lie is left to the name.
#[verifier::external_body]
fn measure_url(text: &str) -> (spans: Option<UrlSpans>)
    ensures
        spans is Some <==> url_spans(text@) is Some,
        spans is Some <==> url_text(text@) is Some,
        spans is Some ==> spans->0@ == url_spans(text@)->0,
        plain_site(text@) is Some ==> spans is Some && spans->0@ == (
            false,
            text@.len(),
            text@.len() + 1,
            text@.len() + 1,
            text@.len() + 1,
        ),
{
    match url::Url::parse(text) {
        Ok(url) => Some(
            UrlSpans {
                opaque: url.cannot_be_a_base(),
                path_start: url[..url::Position::BeforePath].len(),
                path_end: url[..url::Position::AfterPath].len(),
                query_end: url[..url::Position::AfterQuery].len(),
                fragment_start: url[..url::Position::BeforeFragment].len(),
            },
        ),
        Err(_) => None,
    }
}

/// A URL can be given a path of ordinary shape and the given length: the places where the old path
/// ends, where the new one ends, and where the fragment, if there is one, is moved to are offsets of
/// thirty-two bits. The slash of a new opaque path is written with two characters more.
pub open spec fn spans_take_path(spans: (bool, nat, nat, nat, nat), length: nat) -> bool {
    let (opaque, path_start, path_end, query_end, fragment_start) = spans;
    let new_end = path_start + length + if opaque {
        2nat
    } else {
        0nat
    };
    &&& path_end <= u32::MAX
    &&& new_end <= u32::MAX
    &&& fragment_start > query_end ==> query_end - path_end + new_end <= u32::MAX
}

/// A text that stands for no URL, or for one that the path can be given to.
pub open spec fn takes_path(text: Seq<char>, path: Seq<char>) -> bool {
    match url_spans(text) {
        Some(spans) => spans_take_path(spans, path.len()),
        None => true,
    }
}

/// A path can be given to a URL just where the old path ends, the new one ends, and the fragment, if
/// there is one, is moved to within four gigabytes.
pub proof fn takes_path_is_exact(text: Seq<char>, path: Seq<char>)
    ensures
        takes_path(text, path) <==> match url_spans(text) {
            None => true,
            Some((opaque, path_start, path_end, query_end, fragment_start)) => {
                let new_end = path_start + path.len() + (if opaque { 2int } else { 0 });
                &&& path_end <= 0xffff_ffff
                &&& new_end <= 0xffff_ffff
                &&& fragment_start > query_end ==> query_end - path_end + new_end <= 0xffff_ffff
            },
        },
{
}

impl UrlSpans {
    /// Where the parts of a URL lie; `None` where the text stands for no URL.
    pub fn measure(text: &str) -> (spans: Option<Self>)
        ensures
            crate::text::view_of(spans) == url_spans(text@),
            spans is Some <==> url_text(text@) is Some,
            plain_site(text@) is Some ==> spans is Some && spans->0@ == (
                false,
                text@.len(),
                text@.len() + 1,
                text@.len() + 1,
                text@.len() + 1,
            ),
    {
        measure_url(text)
    }

    /// Whether the URL can be given a path of ordinary shape and the given length.
    pub fn take_path(&self, length: u32) -> (fits: bool)
        ensures
            fits == spans_take_path(self@, length as nat),
            fits <==> {
                let new_end = self.path_start + length + (if self.opaque { 2int } else { 0 });
                &&& self.path_end <= 0xffff_ffff
                &&& new_end <= 0xffff_ffff
                &&& self.fragment_start > self.query_end ==> self.query_end - self.path_end
                    + new_end <= 0xffff_ffff
            },
    {
        let limit: u128 = 0xffff_ffff;
        let grown: u128 = if self.opaque {
            2
        } else {
            0
        };
        let new_end: u128 = self.path_start as u128 + length as u128 + grown;
        let path_end: u128 = self.path_end as u128;
        path_end <= limit && new_end <= limit && (self.fragment_start <= self.query_end
            || self.query_end as u128 + new_end <= limit + path_end)
    }
}

/// What is read off a URL: its host, where it has one, and the text that it is written with.
#[derive(Debug)]
pub struct UrlParts {
    pub host: Option<String>,
    pub text: String,
}

impl View for UrlParts {
    type V = (Option<Seq<char>>, Seq<char>);

    open spec fn view(&self) -> (Option<Seq<char>>, Seq<char>) {
        (crate::text::view_of(self.host), self.text@)
    }
}

/// Calls `url::Url::parse`, `Url::set_path`, `Url::host_str` and `Url::as_str` on one URL: the text
/// is parsed, the path replaced, and the host and the whole are read off. There is a result where
/// the text parses, and only there. A scheme and a host name of ordinary shape take the path at their
/// end, and the host is that name; what comes of other texts is left to the name. `set_path` panics
/// where an offset outgrows thirty-two bits, which is left out.
#[verifier::external_body]
pub(crate) fn parse_url_at_path(text: &str, path: &str) -> (parsed: Option<UrlParts>)
    requires
        is_plain_path(path@),
        takes_path(text@, path@),
    ensures
        parsed is Some <==> url_at_path(text@, path@) is Some,
        parsed is Some <==> url_text(text@) is Some,
        parsed is Some ==> parsed->0@ == url_at_path(text@, path@)->0,
        plain_site(text@) is Some ==> parsed is Some && parsed->0@ == (
            plain_site(text@),
            text@ + path@,
        ),
{
    match url::Url::parse(text) {
        Ok(mut url) => {
            url.set_path(path);
            Some(UrlParts { host: url.host_str().map(String::from), text: String::from(url.as_str()) })
        },
        Err(_) => None,
    }
}

/// What is read off a URL stands for itself.
pub proof fn parts_stand_for(parts: UrlParts, spans: UrlSpans)
    ensures
        parts@.0 == match parts.host {
            Some(host) => Some(host@),
            None => None,
        },
        parts@.1 == parts.text@,
        spans@.0 == spans.opaque,
        spans@.1 == spans.path_start,
        spans@.2 == spans.path_end,
        spans@.3 == spans.query_end,
        spans@.4 == spans.fragment_start,
{
}

/// A URL.
#[derive(Debug, PartialEq, Eq, Hash)]
pub struct Url {
    text: String,
}

impl View for Url {
    type V = Seq<char>;

    closed spec fn view(&self) -> Seq<char> {
        self.text@
    }
}

impl Url {
    /// Reads a URL; `None` where the text stands for none.
    pub fn parse(text: &str) -> (url: Option<Self>)
        ensures
            url is Some <==> url_text(text@) is Some,
            url is Some ==> url->0@ == url_text(text@)->0,
            plain_site(text@) is Some ==> url is Some && url->0@ == text@.push('/'),
    {
        match parse_url(text) {
            Some(text) => Some(Url { text }),
            None => None,
        }
    }

    /// The text that the URL is written with.
    pub fn as_str(&self) -> (text: &str)
        ensures
            text@ == self@,
    {
        self.text.as_str()
    }
}

impl Clone for Url {
    fn clone(&self) -> (copy: Self)
        ensures
            copy@ == self@,
    {
        Url { text: self.text.clone() }
    }
}

} // verus!
