use vstd::prelude::*;
use vstd::string::*;

use crate::wish::extract::{extract_gacha_url, final_match, regex_matches, utf8_lossy, GACHA_URL_PATTERN};
use crate::wish::validate::{reply_accepts, validation_passed, ValidationReply};
use crate::wish::{cache_file_path, path_join, paths_match, same_path, CACHE_DATA_RELATIVE_PATH};

verus! {

/// One entry of the folder of session directories.
#[derive(Clone, Debug)]
pub struct DirEntryInfo {
    pub path: String,
    pub is_dir: bool,
    /// Last modification, in nanoseconds after the Unix epoch; 0 where it is
    /// not after the epoch.
    pub modified: u128,
}

pub open spec fn is_session_dir(e: DirEntryInfo) -> bool {
    e.is_dir && e.modified > 0
}

/// Entry `i` is the most recently modified directory, and the first of those
/// that tie.
pub open spec fn is_freshest(entries: Seq<DirEntryInfo>, i: int) -> bool {
    &&& 0 <= i < entries.len()
    &&& is_session_dir(entries[i])
    &&& forall|j: int|
        0 <= j < entries.len() && is_session_dir(#[trigger] entries[j]) ==> entries[j].modified
            <= entries[i].modified
    &&& forall|j: int|
        0 <= j < i && is_session_dir(#[trigger] entries[j]) ==> entries[j].modified
            < entries[i].modified
}

/// Picks the current session's directory: freshness, not name, decides.
pub fn select_session_dir(entries: &Vec<DirEntryInfo>) -> (r: Option<usize>)
    ensures
        r is None <==> forall|j: int| 0 <= j < entries@.len() ==> !is_session_dir(#[trigger] entries@[j]),
        r is Some ==> is_freshest(entries@, r->0 as int),
{
    let mut best: Option<usize> = None;
    let mut latest: u128 = 0;
    let mut i: usize = 0;
    while i < entries.len()
        invariant
            i <= entries@.len(),
            best is None ==> latest == 0,
            best is None <==> forall|j: int| 0 <= j < i ==> !is_session_dir(#[trigger] entries@[j]),
            best is Some ==> best->0 < i && is_session_dir(entries@[best->0 as int])
                && latest == entries@[best->0 as int].modified,
            forall|j: int| 0 <= j < i && is_session_dir(#[trigger] entries@[j]) ==> entries@[j].modified <= latest,
            best is Some ==> forall|j: int|
                0 <= j < best->0 && is_session_dir(#[trigger] entries@[j]) ==> entries@[j].modified < latest,
        decreases entries@.len() - i,
    {
        let e = &entries[i];
        if e.is_dir && e.modified > latest {
            best = Some(i);
            latest = e.modified;
        }
        i += 1;
    }
    best
}

/// Which watched file an event concerns.
#[derive(Clone, Copy, Debug, PartialEq, Eq, Structural)]
pub enum EventSource {
    OutputLog,
    CacheFile,
    Unrelated,
}

/// A step that the owner of the file watcher carries out, in order.
#[derive(Debug, PartialEq, Eq)]
pub enum WatchCommand {
    Unwatch(String),
    Watch(String),
    /// Read the cache file now, without waiting for it to change.
    ReadCacheFile(String),
}

/// What to do with the contents of the cache file.
#[derive(Debug, PartialEq, Eq)]
pub enum CacheDecision {
    /// No candidate URL in the file yet.
    NoUrl,
    /// The newest candidate is the URL already published.
    Unchanged,
    /// A new candidate, to be validated before it is published.
    Validate(String),
}

/// The state of the wish URL discovery: the log that is followed, the cache
/// file that is watched once discovered, and the URL published last.
#[derive(Debug)]
pub struct WishMonitor {
    pub output_log_path: String,
    pub cache_file_path: Option<String>,
    pub last_published_url: String,
}

/// Which watched file an event on `path` concerns, for a monitor following
/// `log` and watching `cache`.
pub open spec fn source_in(log: Seq<char>, cache: Option<Seq<char>>, path: Seq<char>) -> EventSource {
    if same_path(path, log) {
        EventSource::OutputLog
    } else if cache is Some && same_path(path, cache->0) {
        EventSource::CacheFile
    } else {
        EventSource::Unrelated
    }
}

/// [`CacheDecision`] as a value of specification.
pub enum CacheVerdict {
    NoUrl,
    Unchanged,
    Validate(Seq<char>),
}

impl View for CacheDecision {
    type V = CacheVerdict;

    open spec fn view(&self) -> CacheVerdict {
        match self {
            CacheDecision::NoUrl => CacheVerdict::NoUrl,
            CacheDecision::Unchanged => CacheVerdict::Unchanged,
            CacheDecision::Validate(u) => CacheVerdict::Validate(u@),
        }
    }
}

/// The newest candidate URL in the contents of a cache file.
pub open spec fn candidate_url(contents: Seq<u8>) -> Option<Seq<char>> {
    final_match(regex_matches(GACHA_URL_PATTERN@, utf8_lossy(contents)))
}

/// What the contents of the cache file call for, `last` being the URL
/// published last.
pub open spec fn verdict_for(last: Seq<char>, contents: Seq<u8>) -> CacheVerdict {
    match candidate_url(contents) {
        None => CacheVerdict::NoUrl,
        Some(u) => if u == last {
            CacheVerdict::Unchanged
        } else {
            CacheVerdict::Validate(u)
        },
    }
}

/// Whether validating `url` publishes it, `last` being the URL published last.
pub open spec fn publishes(last: Seq<char>, url: Seq<char>, reply: Option<ValidationReply>) -> bool {
    reply_accepts(reply) && url != last
}

/// The URL published last once `url` was validated with `reply`.
pub open spec fn last_after_validation(last: Seq<char>, url: Seq<char>, reply: Option<ValidationReply>) -> Seq<char> {
    if publishes(last, url, reply) {
        url
    } else {
        last
    }
}

impl WishMonitor {
    /// A monitor that follows the given log and has published nothing yet.
    pub fn new(output_log_path: String) -> (r: WishMonitor)
        ensures
            r.output_log_path == output_log_path,
            r.cache_file_path is None,
            r.last_published_url@ == Seq::<char>::empty(),
    {
        WishMonitor { output_log_path, cache_file_path: None, last_published_url: String::new() }
    }

    /// Dispatches a file-system event on the path it reports.
    pub fn classify_event(&self, path: &str) -> (r: EventSource)
        ensures
            r == source_in(self.output_log_path@, self.cache_file_path.deep_view(), path@),
    {
        if paths_match(path, self.output_log_path.as_str()) {
            EventSource::OutputLog
        } else {
            match &self.cache_file_path {
                Some(c) => if paths_match(path, c.as_str()) {
                    EventSource::CacheFile
                } else {
                    EventSource::Unrelated
                },
                None => EventSource::Unrelated,
            }
        }
    }

    /// Follows the log to a session directory. Where the directory's cache
    /// file is the one watched already, nothing changes. Otherwise the old
    /// watch, if any, is removed first, then the new file is watched and read
    /// at once, as it may already hold a URL.
    pub fn on_session_dir(&mut self, session_dir: &str) -> (cmds: Vec<WatchCommand>)
        ensures
            final(self).output_log_path == old(self).output_log_path,
            final(self).last_published_url == old(self).last_published_url,
            ({
                let new_path = path_join(session_dir@, CACHE_DATA_RELATIVE_PATH@);
                match old(self).cache_file_path {
                    Some(c) => if same_path(c@, new_path) {
                        &&& cmds@.len() == 0
                        &&& final(self).cache_file_path == old(self).cache_file_path
                    } else {
                        &&& final(self).cache_file_path is Some
                        &&& final(self).cache_file_path->0@ == new_path
                        &&& cmds@.len() == 3
                        &&& cmds@[0] == WatchCommand::Unwatch(c)
                        &&& cmds@[1] is Watch && cmds@[1]->Watch_0@ == new_path
                        &&& cmds@[2] is ReadCacheFile && cmds@[2]->ReadCacheFile_0@ == new_path
                    },
                    None => {
                        &&& final(self).cache_file_path is Some
                        &&& final(self).cache_file_path->0@ == new_path
                        &&& cmds@.len() == 2
                        &&& cmds@[0] is Watch && cmds@[0]->Watch_0@ == new_path
                        &&& cmds@[1] is ReadCacheFile && cmds@[1]->ReadCacheFile_0@ == new_path
                    },
                }
            }),
    {
        let new_path = cache_file_path(session_dir);
        let mut cmds: Vec<WatchCommand> = Vec::new();
        let unchanged = match &self.cache_file_path {
            Some(c) => paths_match(c.as_str(), new_path.as_str()),
            None => false,
        };
        if unchanged {
            return cmds;
        }
        match self.cache_file_path.take() {
            Some(c) => cmds.push(WatchCommand::Unwatch(c)),
            None => {},
        }
        cmds.push(WatchCommand::Watch(new_path.clone()));
        cmds.push(WatchCommand::ReadCacheFile(new_path.clone()));
        self.cache_file_path = Some(new_path);
        cmds
    }

    /// Judges the contents of the cache file: its newest candidate URL is to
    /// be validated unless it is the URL published last.
    pub fn on_cache_contents(&self, contents: &[u8]) -> (r: CacheDecision)
        ensures
            r@ == verdict_for(self.last_published_url@, contents@),
    {
        match extract_gacha_url(contents) {
            None => CacheDecision::NoUrl,
            Some(u) => if u == self.last_published_url {
                CacheDecision::Unchanged
            } else {
                CacheDecision::Validate(u)
            },
        }
    }

    /// Takes the outcome of validating `url`. A URL that passed, and is not
    /// the one published last, is published and remembered; anything else
    /// leaves the monitor as it was.
    pub fn on_validation(&mut self, url: String, reply: &Option<ValidationReply>) -> (published: Option<String>)
        ensures
            final(self).output_log_path == old(self).output_log_path,
            final(self).cache_file_path == old(self).cache_file_path,
            final(self).last_published_url@ == last_after_validation(
                old(self).last_published_url@,
                url@,
                *reply,
            ),
            publishes(old(self).last_published_url@, url@, *reply) ==> {
                &&& published == Some(url)
                &&& final(self).last_published_url == url
            },
            !publishes(old(self).last_published_url@, url@, *reply) ==> {
                &&& published is None
                &&& final(self).last_published_url == old(self).last_published_url
            },
    {
        if validation_passed(reply) && url != self.last_published_url {
            self.last_published_url = url.clone();
            Some(url)
        } else {
            None
        }
    }
}

/// Once a URL is published, re-reading a cache file whose newest candidate is
/// that URL asks for no validation, and no reply can publish it again.
pub proof fn lemma_published_url_is_not_revalidated(
    last: Seq<char>,
    url: Seq<char>,
    reply: Option<ValidationReply>,
    contents: Seq<u8>,
)
    requires
        publishes(last, url, reply),
        candidate_url(contents) == Some(url),
    ensures
        verdict_for(last_after_validation(last, url, reply), contents) == CacheVerdict::Unchanged,
        forall|again: Option<ValidationReply>|
            !publishes(last_after_validation(last, url, reply), url, again),
{
}

/// A validation that fails, on the network or by the endpoint's answer, leaves
/// the URL published last as it was.
pub proof fn lemma_failed_validation_keeps_last_url(
    last: Seq<char>,
    url: Seq<char>,
    reply: Option<ValidationReply>,
)
    requires
        !reply_accepts(reply),
    ensures
        last_after_validation(last, url, reply) == last,
        !publishes(last, url, reply),
{
}

/// Once the log leads to another session directory, events on the cache file
/// watched before no longer reach the cache handling.
pub proof fn lemma_replaced_cache_file_is_not_dispatched(
    log: Seq<char>,
    old_cache: Seq<char>,
    session_dir: Seq<char>,
    path: Seq<char>,
)
    requires
        !same_path(old_cache, path_join(session_dir, CACHE_DATA_RELATIVE_PATH@)),
        same_path(path, old_cache),
    ensures
        source_in(log, Some(path_join(session_dir, CACHE_DATA_RELATIVE_PATH@)), path)
            != EventSource::CacheFile,
{
}

} // verus!
