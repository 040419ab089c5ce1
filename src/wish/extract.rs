use vstd::prelude::*;
use vstd::string::*;

verus! {

/// A line of the client log that names the game's data directory.
pub const DATA_DIR_PATTERN: &'static str = r"(?m).:[/\\].+(GenshinImpact_Data|YuanShen_Data)";

/// A wish-history URL as the client caches it.
pub const GACHA_URL_PATTERN: &'static str = "(https.+?webview_gacha.+?game_biz=)";

/// The successive non-overlapping matches of a regular expression in a text,
/// leftmost first, or `None` where the expression does not compile.
pub uninterp spec fn regex_matches(pattern: Seq<char>, text: Seq<char>) -> Option<Seq<Seq<char>>>;

/// The text that a byte string reads as in UTF-8, each invalid sequence
/// replaced by U+FFFD.
pub uninterp spec fn utf8_lossy(bytes: Seq<u8>) -> Seq<char>;

/// Relies on `regex::Regex::new` and `regex::Regex::find_iter`: the matches of
/// `pattern` in `text`, in order, or `None` where the pattern is rejected.
#[verifier::external_body]
fn find_all(pattern: &str, text: &str) -> (r: Option<Vec<String>>)
    ensures
        r.deep_view() == regex_matches(pattern@, text@),
{
    match regex::Regex::new(pattern) {
        Ok(re) => Some(re.find_iter(text).map(|m| m.as_str().to_string()).collect()),
        Err(_) => None,
    }
}

/// Relies on `String::from_utf8_lossy`: the bytes read as UTF-8, invalid
/// sequences replaced.
#[verifier::external_body]
fn decode_lossy(bytes: &[u8]) -> (r: String)
    ensures
        r@ == utf8_lossy(bytes@),
{
    String::from_utf8_lossy(bytes).into_owned()
}

/// The first match of the last line, among those given, that has a match.
pub open spec fn latest_first_match(per_line: Seq<Option<Seq<Seq<char>>>>) -> Option<Seq<char>>
    decreases per_line.len(),
{
    if per_line.len() == 0 {
        None
    } else {
        match per_line.last() {
            Some(ms) if ms.len() > 0 => Some(ms[0]),
            _ => latest_first_match(per_line.drop_last()),
        }
    }
}

/// The last of the matches, if any.
pub open spec fn final_match(matches: Option<Seq<Seq<char>>>) -> Option<Seq<char>> {
    match matches {
        Some(ms) if ms.len() > 0 => Some(ms.last()),
        _ => None,
    }
}

/// The data directory named by the log, given the matches found on each of its
/// lines: the most recent line that names one decides.
pub fn latest_line_match(per_line: &Vec<Option<Vec<String>>>) -> (r: Option<String>)
    ensures
        r.deep_view() == latest_first_match(per_line.deep_view()),
{
    let mut i = per_line.len();
    proof {
        assert(per_line.deep_view().take(i as int) =~= per_line.deep_view());
    }
    while i > 0
        invariant
            i <= per_line@.len(),
            latest_first_match(per_line.deep_view()) == latest_first_match(
                per_line.deep_view().take(i as int),
            ),
        decreases i,
    {
        let ghost pre = per_line.deep_view().take(i as int);
        proof {
            assert(pre.drop_last() =~= per_line.deep_view().take(i - 1));
            assert(pre.last() == per_line@[i - 1].deep_view());
        }
        match &per_line[i - 1] {
            Some(ms) => {
                if ms.len() > 0 {
                    let r = ms[0].clone();
                    return Some(r);
                }
            },
            None => {},
        }
        i -= 1;
    }
    None
}

/// The candidate URL of a cache file, given the matches found in its text:
/// the last one, the newest that the client appended.
pub fn last_match(matches: &Option<Vec<String>>) -> (r: Option<String>)
    ensures
        r.deep_view() == final_match(matches.deep_view()),
{
    match matches {
        Some(ms) => {
            if ms.len() > 0 {
                let r = ms[ms.len() - 1].clone();
                Some(r)
            } else {
                None
            }
        },
        None => None,
    }
}

/// Scans the lines of the client log for the game's data directory.
pub fn find_data_dir(lines: &Vec<String>) -> (r: Option<String>)
    ensures
        r.deep_view() == latest_first_match(
            lines@.map_values(|l: String| regex_matches(DATA_DIR_PATTERN@, l@)),
        ),
{
    let mut per_line: Vec<Option<Vec<String>>> = Vec::new();
    let mut i: usize = 0;
    while i < lines.len()
        invariant
            i <= lines@.len(),
            per_line.deep_view() =~= lines@.take(i as int).map_values(
                |l: String| regex_matches(DATA_DIR_PATTERN@, l@),
            ),
        decreases lines@.len() - i,
    {
        let ms = find_all(DATA_DIR_PATTERN, lines[i].as_str());
        let ghost prev = per_line.deep_view();
        per_line.push(ms);
        proof {
            assert(per_line.deep_view() =~= prev.push(ms.deep_view()));
            assert(lines@.take(i + 1) =~= lines@.take(i as int).push(lines@[i as int]));
        }
        i += 1;
    }
    proof {
        assert(lines@.take(lines@.len() as int) =~= lines@);
    }
    latest_line_match(&per_line)
}

/// The newest wish URL that a cache file holds.
pub fn extract_gacha_url(contents: &[u8]) -> (r: Option<String>)
    ensures
        r.deep_view() == final_match(regex_matches(GACHA_URL_PATTERN@, utf8_lossy(contents@))),
{
    let text = decode_lossy(contents);
    let ms = find_all(GACHA_URL_PATTERN, text.as_str());
    last_match(&ms)
}

} // verus!
