//! The translation client: a target language and a pool of browser identities.
use vstd::prelude::*;
use vstd::string::StringSliceAdditionalSpecFns;
use rand::seq::SliceRandom;
use crate::encoding::{percent_encode, percent_encoded, percent_decoded, lemma_percent_round_trip};

verus! {

/// The part of every request URL that comes before the target language.
pub const URL_HEAD: &'static str = "https://translate.googleapis.com/translate_a/single?client=gtx&sl=auto&tl=";

/// The part of every request URL between the target language and the encoded text.
pub const URL_QUERY: &'static str = "&dt=t&q=";

/// The request URL for a target language and the UTF-8 bytes of a text.
pub open spec fn request_url(lang: Seq<char>, bytes: Seq<u8>) -> Seq<char> {
    URL_HEAD@ + lang + URL_QUERY@ + percent_encoded(bytes)
}

/// Where the encoded text starts in the request URL for `lang`.
pub open spec fn query_start(lang: Seq<char>) -> int {
    (URL_HEAD@.len() + lang.len() + URL_QUERY@.len()) as int
}

/// `t` occurs in `s` as a contiguous run.
pub open spec fn has_infix(s: Seq<char>, t: Seq<char>) -> bool {
    exists|i: int| 0 <= i && i + t.len() <= s.len() && #[trigger] s.subrange(i, i + t.len()) == t
}

/// The browser identities that every client starts with, in order.
pub open spec fn identity_pool() -> Seq<Seq<char>> {
    seq![
        AGENT_CHROME_45@,
        AGENT_CHROME_110@,
        AGENT_FIREFOX_94@,
        AGENT_FIREFOX_95@,
        AGENT_CHROME_93@,
        AGENT_MAC_CHROME_55@,
    ]
}

pub const AGENT_CHROME_45: &'static str = "Mozilla/5.0 (Windows NT 10.0; Win64; x64) AppleWebKit/537.36 (KHTML, like Gecko) Chrome/96.0.4664.45 Safari/537.36";
pub const AGENT_CHROME_110: &'static str = "Mozilla/5.0 (Windows NT 10.0; Win64; x64) AppleWebKit/537.36 (KHTML, like Gecko) Chrome/96.0.4664.110 Safari/537.36";
pub const AGENT_FIREFOX_94: &'static str = "Mozilla/5.0 (Windows NT 10.0; Win64; x64; rv:94.0) Gecko/20100101 Firefox/94.0";
pub const AGENT_FIREFOX_95: &'static str = "Mozilla/5.0 (Windows NT 10.0; Win64; x64; rv:95.0) Gecko/20100101 Firefox/95.0";
pub const AGENT_CHROME_93: &'static str = "Mozilla/5.0 (Windows NT 10.0; Win64; x64) AppleWebKit/537.36 (KHTML, like Gecko) Chrome/96.0.4664.93 Safari/537.36";
pub const AGENT_MAC_CHROME_55: &'static str = "Mozilla/5.0 (Macintosh; Intel Mac OS X 10_15_7) AppleWebKit/537.36 (KHTML, like Gecko) Chrome/96.0.4664.55 Safari/537.36";

/// A client for one target language.
pub struct Translate {
    /// The target-language code, as given.
    pub lang: String,
    /// The identities from which each request picks its `User-Agent`.
    pub user_agents: Vec<String>,
}

/// Relies on rand's `SliceRandom::choose` with the thread-local generator: `None`
/// exactly for an empty slice, else one of its elements.
#[verifier::external_body]
fn choose_agent(agents: &[String]) -> (r: Option<String>)
    ensures
        r is None <==> agents@.len() == 0,
        r matches Some(s) ==> agents@.contains(s),
{
    agents.choose(&mut rand::thread_rng()).cloned()
}

impl Translate {
    /// The identities the client holds, as character sequences.
    pub open spec fn agents_view(&self) -> Seq<Seq<char>> {
        self.user_agents@.map_values(|s: String| s@)
    }

    /// A client can pick an identity when its pool is not empty.
    pub open spec fn well_formed(&self) -> bool {
        self.user_agents@.len() > 0
    }

    /// A client for `lang`, stored verbatim, with the fixed identity pool.
    pub fn new(lang: &str) -> (r: Self)
        ensures
            r.lang@ == lang@,
            r.agents_view() == identity_pool(),
            r.well_formed(),
    {
        let user_agents = vec![
            AGENT_CHROME_45.to_owned(),
            AGENT_CHROME_110.to_owned(),
            AGENT_FIREFOX_94.to_owned(),
            AGENT_FIREFOX_95.to_owned(),
            AGENT_CHROME_93.to_owned(),
            AGENT_MAC_CHROME_55.to_owned(),
        ];
        let r = Translate { lang: lang.to_owned(), user_agents };
        assert(r.agents_view() =~= identity_pool());
        r
    }

    /// One identity of the pool, picked at random.
    pub fn get_user_agent(&self) -> (r: String)
        requires
            self.well_formed(),
        ensures
            self.user_agents@.contains(r),
    {
        match choose_agent(self.user_agents.as_slice()) {
            Some(agent) => agent,
            None => String::new(),
        }
    }

    /// The request URL for `text`: the fixed endpoint and parameters, this
    /// client's target language, and the percent-encoded text.
    pub fn generate_url(&self, text: &str) -> (r: String)
        ensures
            r@ == request_url(self.lang@, text.spec_bytes()),
    {
        let encoded = percent_encode(text);
        let mut url = URL_HEAD.to_owned();
        url.append(self.lang.as_str());
        url.append(URL_QUERY);
        url.append(encoded.as_str());
        url
    }
}

/// An identity picked from a client whose pool is the fixed one, as every new
/// client's is, is a member of the fixed pool.
pub proof fn lemma_agent_in_pool(t: Translate, agent: String)
    requires
        t.agents_view() == identity_pool(),
        t.user_agents@.contains(agent),
    ensures
        identity_pool().contains(agent@),
{
    let i = choose|i: int| 0 <= i < t.user_agents@.len() && t.user_agents@[i] == agent;
    assert(t.agents_view()[i] == agent@);
}

/// Every request URL carries its target language as `tl=<code>`.
pub proof fn lemma_url_names_target(lang: Seq<char>, bytes: Seq<u8>)
    ensures
        has_infix(request_url(lang, bytes), "tl="@ + lang),
{
    reveal_strlit("https://translate.googleapis.com/translate_a/single?client=gtx&sl=auto&tl=");
    reveal_strlit("tl=");
    let url = request_url(lang, bytes);
    let t = "tl="@ + lang;
    let i = URL_HEAD@.len() - 3;
    assert(url.subrange(i, i + t.len()) =~= t);
}

/// The text in a request URL, once percent-decoded and read as UTF-8, is the
/// text the URL was built from.
pub proof fn lemma_url_text_round_trip(lang: Seq<char>, text: Seq<char>)
    ensures
        vstd::utf8::decode_utf8(
            percent_decoded(request_url(lang, vstd::utf8::encode_utf8(text)).skip(query_start(lang))),
        ) == text,
{
    let bytes = vstd::utf8::encode_utf8(text);
    assert(request_url(lang, bytes).skip(query_start(lang)) =~= percent_encoded(bytes));
    lemma_percent_round_trip(bytes);
    vstd::utf8::encode_utf8_decode_utf8(text);
}

} // verus!
