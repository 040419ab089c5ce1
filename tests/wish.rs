use irminsul::wish::extract::{extract_gacha_url, find_data_dir, last_match, latest_line_match};
use irminsul::wish::monitor::{
    select_session_dir, CacheDecision, DirEntryInfo, EventSource, WatchCommand, WishMonitor,
};
use irminsul::wish::validate::{validation_passed, validation_url, ValidationReply};
use irminsul::wish::{cache_file_path, join_path, output_log_path, paths_match, web_caches_dir};

const URL_A: &str = "https://webstatic-sea.hoyoverse.com/index.html?auth_appid=webview_gacha&authkey=AAA&game_biz=";
const URL_B: &str = "https://webstatic-sea.hoyoverse.com/index.html?auth_appid=webview_gacha&authkey=BBB&game_biz=";

fn cache_blob(urls: &[&str]) -> Vec<u8> {
    let mut b = vec![0u8, 1, 2, 0xff, 0xfe];
    for u in urls {
        b.extend_from_slice(b"1/0/");
        b.extend_from_slice(u.as_bytes());
        b.extend_from_slice(b"hk4e_global\x00\x00\x9f");
    }
    b
}

fn entry(path: &str, is_dir: bool, modified: u128) -> DirEntryInfo {
    DirEntryInfo { path: path.to_string(), is_dir, modified }
}

fn accepted() -> Option<ValidationReply> {
    Some(ValidationReply { status: 200, retcode: Some(0) })
}

#[test]
fn paths_are_joined_with_one_separator() {
    assert_eq!(join_path("C:/a", "b"), "C:/a/b");
    assert_eq!(join_path("C:/a/", "b"), "C:/a/b");
    assert_eq!(join_path("C:\\a\\", "b"), "C:\\a\\b");
    assert_eq!(join_path("", "b"), "b");
}

#[test]
fn derived_paths() {
    assert_eq!(
        output_log_path("C:\\Users\\me"),
        "C:\\Users\\me/AppData/LocalLow/miHoYo/Genshin Impact/output_log.txt"
    );
    assert_eq!(web_caches_dir("D:/Game/GenshinImpact_Data"), "D:/Game/GenshinImpact_Data/webCaches");
    assert_eq!(
        cache_file_path("D:/Game/GenshinImpact_Data/webCaches/2.30.0.0"),
        "D:/Game/GenshinImpact_Data/webCaches/2.30.0.0/Cache/Cache_Data/data_2"
    );
}

#[test]
fn paths_match_across_separators() {
    assert!(paths_match("C:/a/b", "C:\\a\\b"));
    assert!(paths_match("C:/a/b", "C:/a/b"));
    assert!(!paths_match("C:/a/b", "C:/a/c"));
    assert!(!paths_match("C:/a/b", "C:/a/b/"));
}

#[test]
fn latest_line_decides_data_dir() {
    let per_line = vec![
        Some(vec!["old".to_string()]),
        None,
        Some(vec!["new".to_string(), "newer on same line".to_string()]),
        Some(Vec::new()),
    ];
    assert_eq!(latest_line_match(&per_line), Some("new".to_string()));
    assert_eq!(latest_line_match(&Vec::new()), None);
}

#[test]
fn log_with_two_session_lines_selects_latest() {
    let lines = vec![
        "Loading player data".to_string(),
        "[Subsystems] Discovering subsystems at path C:/Program Files/Genshin Impact/Genshin Impact game/GenshinImpact_Data/UnitySubsystems".to_string(),
        "unrelated".to_string(),
        "[Subsystems] Discovering subsystems at path D:/Games/Genshin Impact game/YuanShen_Data/UnitySubsystems".to_string(),
        "shutdown".to_string(),
    ];
    assert_eq!(find_data_dir(&lines), Some("D:/Games/Genshin Impact game/YuanShen_Data".to_string()));
}

#[test]
fn log_without_session_line_has_no_data_dir() {
    let lines = vec!["nothing".to_string(), "here".to_string()];
    assert_eq!(find_data_dir(&lines), None);
}

#[test]
fn freshest_of_three_session_dirs_is_selected() {
    let entries = vec![
        entry("w/a", true, 1_000),
        entry("w/b", true, 3_000),
        entry("w/file", false, 9_000),
        entry("w/c", true, 2_000),
    ];
    assert_eq!(select_session_dir(&entries), Some(1));
}

#[test]
fn session_dir_ties_and_absence() {
    assert_eq!(select_session_dir(&vec![entry("a", true, 5), entry("b", true, 5)]), Some(0));
    assert_eq!(select_session_dir(&vec![entry("f", false, 5), entry("epoch", true, 0)]), None);
    assert_eq!(select_session_dir(&Vec::new()), None);
}

#[test]
fn last_of_matches() {
    assert_eq!(last_match(&Some(vec!["a".to_string(), "b".to_string()])), Some("b".to_string()));
    assert_eq!(last_match(&Some(Vec::new())), None);
    assert_eq!(last_match(&None), None);
}

#[test]
fn cache_file_yields_last_url() {
    assert_eq!(extract_gacha_url(&cache_blob(&[URL_A, URL_B])), Some(URL_B.to_string()));
    assert_eq!(extract_gacha_url(&cache_blob(&[])), None);
}

#[test]
fn events_are_dispatched_by_path() {
    let mut m = WishMonitor::new("C:/u/output_log.txt".to_string());
    assert_eq!(m.classify_event("C:\\u\\output_log.txt"), EventSource::OutputLog);
    assert_eq!(m.classify_event("C:/s1/Cache/Cache_Data/data_2"), EventSource::Unrelated);
    m.on_session_dir("C:/s1");
    assert_eq!(m.classify_event("C:/s1\\Cache\\Cache_Data\\data_2"), EventSource::CacheFile);
    assert_eq!(m.classify_event("C:/elsewhere"), EventSource::Unrelated);
}

#[test]
fn first_session_dir_is_watched_and_read() {
    let mut m = WishMonitor::new("log".to_string());
    let cmds = m.on_session_dir("C:/s1");
    let file = "C:/s1/Cache/Cache_Data/data_2".to_string();
    assert_eq!(cmds, vec![WatchCommand::Watch(file.clone()), WatchCommand::ReadCacheFile(file.clone())]);
    assert_eq!(m.cache_file_path, Some(file));
}

#[test]
fn new_session_dir_unwatches_old_file_first() {
    let mut m = WishMonitor::new("log".to_string());
    m.on_session_dir("C:/s1");
    let old = "C:/s1/Cache/Cache_Data/data_2".to_string();
    let new = "C:/s2/Cache/Cache_Data/data_2".to_string();
    let cmds = m.on_session_dir("C:/s2");
    assert_eq!(
        cmds,
        vec![WatchCommand::Unwatch(old.clone()), WatchCommand::Watch(new.clone()), WatchCommand::ReadCacheFile(new.clone())]
    );
    assert_eq!(m.classify_event(&old), EventSource::Unrelated);
    assert_eq!(m.classify_event(&new), EventSource::CacheFile);
}

#[test]
fn same_session_dir_changes_nothing() {
    let mut m = WishMonitor::new("log".to_string());
    m.on_session_dir("C:/s1");
    assert_eq!(m.on_session_dir("C:\\s1"), Vec::new());
    assert_eq!(m.cache_file_path, Some("C:/s1/Cache/Cache_Data/data_2".to_string()));
}

#[test]
fn two_urls_publish_only_the_last() {
    let mut m = WishMonitor::new("log".to_string());
    let decision = m.on_cache_contents(&cache_blob(&[URL_A, URL_B]));
    assert_eq!(decision, CacheDecision::Validate(URL_B.to_string()));
    assert_eq!(m.on_validation(URL_B.to_string(), &accepted()), Some(URL_B.to_string()));
    assert_eq!(m.last_published_url, URL_B);
}

#[test]
fn unchanged_url_is_not_validated_again() {
    let mut m = WishMonitor::new("log".to_string());
    let blob = cache_blob(&[URL_A]);
    assert_eq!(m.on_cache_contents(&blob), CacheDecision::Validate(URL_A.to_string()));
    assert_eq!(m.on_validation(URL_A.to_string(), &accepted()), Some(URL_A.to_string()));
    assert_eq!(m.on_cache_contents(&blob), CacheDecision::Unchanged);
    // Even a second successful validation of it publishes nothing.
    assert_eq!(m.on_validation(URL_A.to_string(), &accepted()), None);
}

#[test]
fn cache_without_url_yields_nothing() {
    let m = WishMonitor::new("log".to_string());
    assert_eq!(m.on_cache_contents(b"no link here"), CacheDecision::NoUrl);
}

#[test]
fn failed_validation_keeps_last_url() {
    let mut m = WishMonitor::new("log".to_string());
    assert_eq!(m.on_validation(URL_A.to_string(), &accepted()), Some(URL_A.to_string()));
    let rejected = Some(ValidationReply { status: 200, retcode: Some(-101) });
    assert_eq!(m.on_validation(URL_B.to_string(), &rejected), None);
    assert_eq!(m.on_validation(URL_B.to_string(), &None), None);
    let server_error = Some(ValidationReply { status: 500, retcode: Some(0) });
    assert_eq!(m.on_validation(URL_B.to_string(), &server_error), None);
    assert_eq!(m.last_published_url, URL_A);
    // The monitor still takes the next candidate.
    assert_eq!(m.on_cache_contents(&cache_blob(&[URL_B])), CacheDecision::Validate(URL_B.to_string()));
}

#[test]
fn validation_reply_rules() {
    assert!(validation_passed(&accepted()));
    assert!(validation_passed(&Some(ValidationReply { status: 204, retcode: Some(0) })));
    assert!(!validation_passed(&Some(ValidationReply { status: 200, retcode: None })));
    assert!(!validation_passed(&Some(ValidationReply { status: 200, retcode: Some(1) })));
    assert!(!validation_passed(&Some(ValidationReply { status: 404, retcode: Some(0) })));
    assert!(!validation_passed(&None));
}

#[test]
fn validation_url_adds_query() {
    assert_eq!(
        validation_url("https://example.net/log?authkey=k&game_biz="),
        Some("https://example.net/log?authkey=k&game_biz=&lang=en-us&gacha_type=301&size=5".to_string())
    );
    assert_eq!(validation_url("not a url"), None);
}
