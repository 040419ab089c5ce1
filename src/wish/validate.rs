use vstd::prelude::*;
use vstd::string::*;

verus! {

/// The URL `url` with the given query pairs appended, form-encoded, or `None`
/// where `url` is not an absolute URL.
pub uninterp spec fn url_with_params(url: Seq<char>, params: Seq<(Seq<char>, Seq<char>)>) -> Option<Seq<char>>;

/// Longest candidate URL that is handed to the URL parser; its serialization
/// must stay within the parser's 32-bit offsets.
pub const MAX_URL_CHARS: usize = 0x1000_0000;

/// Relies on `reqwest::Url::parse_with_params`: parses `url` and appends the
/// pairs to its query.
#[verifier::external_body]
fn parse_with_params(url: &str, params: &Vec<(String, String)>) -> (r: Option<String>)
    requires
        url@.len() <= MAX_URL_CHARS,
    ensures
        r.deep_view() == url_with_params(url@, params.deep_view()),
{
    reqwest::Url::parse_with_params(url, params.iter()).ok().map(String::from)
}

/// The query that asks the history endpoint for one small page of the
/// character-event banner, in English.
pub open spec fn validation_params() -> Seq<(Seq<char>, Seq<char>)> {
    seq![("lang"@, "en-us"@), ("gacha_type"@, "301"@), ("size"@, "5"@)]
}

/// The endpoint that validates a candidate URL: the URL itself, asked for one
/// page of history. `None` where the candidate does not parse as a URL.
pub fn validation_url(url: &str) -> (r: Option<String>)
    ensures
        url@.len() <= MAX_URL_CHARS ==> r.deep_view() == url_with_params(url@, validation_params()),
        url@.len() > MAX_URL_CHARS ==> r is None,
{
    if url.unicode_len() > MAX_URL_CHARS {
        return None;
    }
    let mut params: Vec<(String, String)> = Vec::new();
    params.push((String::from_str("lang"), String::from_str("en-us")));
    params.push((String::from_str("gacha_type"), String::from_str("301")));
    params.push((String::from_str("size"), String::from_str("5")));
    proof {
        assert(params.deep_view() =~= validation_params());
    }
    parse_with_params(url, &params)
}

/// What the history endpoint answered, as far as validation looks at it.
#[derive(Clone, Copy, Debug)]
pub struct ValidationReply {
    /// The HTTP status code.
    pub status: u16,
    /// The `retcode` field of the JSON body, where the body has one.
    pub retcode: Option<i32>,
}

pub open spec fn reply_accepts(reply: Option<ValidationReply>) -> bool {
    match reply {
        Some(r) => 200 <= r.status <= 299 && r.retcode == Some(0i32),
        None => false,
    }
}

/// A candidate URL is valid when the endpoint was reached, answered with a
/// success status, and its body carries a zero return code. `None` stands for
/// a request that failed on the network.
pub fn validation_passed(reply: &Option<ValidationReply>) -> (r: bool)
    ensures
        r == reply_accepts(*reply),
{
    match reply {
        Some(rep) => 200 <= rep.status && rep.status <= 299 && match rep.retcode {
            Some(code) => code == 0,
            None => false,
        },
        None => false,
    }
}

} // verus!
