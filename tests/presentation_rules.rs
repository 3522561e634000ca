use proxy_supervisor::paths::{
    asset_paths, candidate_in_dir, choose_node_binary, choose_repo_root, detect_repo_root,
    expand_tilde, fallback_dirs, first_found, grandparent_or_current, latest_nvm_node_bin,
    newest_found, repo_assets_present, repo_root_candidates, resolve_node_binary,
    search_in_fallback_dirs, search_in_path, text_before,
};
use proxy_supervisor::presentation::{
    derive_presentation, format_duration, icon_rgba, shortest_wait_ms, tooltip_for, visual_for,
    Visual, ICON_SIZE,
};
use proxy_supervisor::status::{Account, Snapshot, Status};
use proxy_supervisor::supervisor::{dashboard_url, launch_command, locate_script, log_now};
use proxy_supervisor::event::LogLevel;
use proxy_supervisor::text::{i64_to_decimal, u64_to_decimal};

const NOW: i64 = 1_700_000_000_000;

fn account(limited: bool, next: Option<i64>) -> Account {
    Account { is_rate_limited: limited, next_available_at: next }
}

fn status(running: bool, error: Option<&str>, snap: Option<Snapshot>) -> Status {
    Status {
        running,
        last_error: error.map(|e| e.to_string()),
        last_update: None,
        snapshot: snap,
    }
}

fn snap(port: Option<i64>, account: Option<&str>, accounts: Vec<Account>) -> Snapshot {
    Snapshot {
        port,
        current_account: account.map(|a| a.to_string()),
        accounts,
        json: String::new(),
    }
}

#[test]
fn rate_limit_tooltip_uses_shortest_wait() {
    let s = status(
        false,
        None,
        Some(snap(None, None, vec![account(false, Some(NOW + 65000)), account(false, Some(NOW + 5000))])),
    );
    let p = derive_presentation(&s, NOW);
    assert_eq!(p.tooltip, "Rate limited · next slot in 5s");
    assert_eq!(p.visual, Visual::Stopped);
}

#[test]
fn rate_limit_tooltip_in_minutes() {
    let s = status(false, None, Some(snap(None, None, vec![account(true, Some(NOW + 65000))])));
    assert_eq!(tooltip_for(&s, NOW), "Rate limited · next slot in 1m 5s");
}

#[test]
fn past_slots_are_ignored() {
    let s = status(
        false,
        None,
        Some(snap(None, None, vec![account(false, Some(NOW - 1000)), account(false, Some(NOW)), account(false, None)])),
    );
    assert_eq!(tooltip_for(&s, NOW), "Proxy stopped");
}

#[test]
fn running_with_account_tooltip() {
    let s = status(true, None, Some(snap(Some(9090), Some("alice"), vec![])));
    let p = derive_presentation(&s, NOW);
    assert_eq!(p.tooltip, "Proxy running on :9090 · alice");
    assert_eq!(p.visual, Visual::Running);
}

#[test]
fn running_tooltip_defaults() {
    let s = status(true, None, Some(snap(None, None, vec![])));
    assert_eq!(tooltip_for(&s, NOW), "Proxy running on :8080 · unknown");
    let s = status(true, None, None);
    assert_eq!(tooltip_for(&s, NOW), "Proxy running");
    let s = status(true, None, Some(snap(Some(-1), Some("z"), vec![])));
    assert_eq!(tooltip_for(&s, NOW), "Proxy running on :-1 · z");
}

#[test]
fn rate_limited_account_gives_warning() {
    let s = status(
        true,
        None,
        Some(snap(Some(9090), Some("alice"), vec![account(false, None), account(true, None)])),
    );
    assert_eq!(visual_for(&s), Visual::Warning);
    assert_eq!(derive_presentation(&s, NOW).visual, Visual::Warning);
}

#[test]
fn stopped_with_error_shows_error() {
    let s = status(false, Some("Proxy process exited"), None);
    let p = derive_presentation(&s, NOW);
    assert_eq!(p.visual, Visual::Warning);
    assert_eq!(p.tooltip, "Proxy process exited");
}

#[test]
fn stopped_without_anything() {
    let p = derive_presentation(&status(false, None, None), NOW);
    assert_eq!(p.visual, Visual::Stopped);
    assert_eq!(p.tooltip, "Proxy stopped");
}

#[test]
fn presentation_is_repeatable() {
    let s = status(
        false,
        None,
        Some(snap(Some(1), None, vec![account(true, Some(NOW + 120_500))])),
    );
    let a = derive_presentation(&s, NOW);
    let b = derive_presentation(&s, NOW);
    let c = derive_presentation(&s.clone(), NOW);
    assert_eq!(a.visual, b.visual);
    assert_eq!(a.tooltip, b.tooltip);
    assert_eq!(a.tooltip, c.tooltip);
    assert_eq!(a.tooltip, "Rate limited · next slot in 2m 0s");
}

#[test]
fn presentation_now_is_consistent() {
    let s = status(true, None, Some(snap(Some(3000), Some("c"), vec![])));
    let p = s.presentation_now();
    assert_eq!(p.visual, Visual::Running);
    assert_eq!(p.tooltip, "Proxy running on :3000 · c");
}

#[test]
fn format_duration_values() {
    assert_eq!(format_duration(0), "0s");
    assert_eq!(format_duration(999), "0s");
    assert_eq!(format_duration(5000), "5s");
    assert_eq!(format_duration(59_999), "59s");
    assert_eq!(format_duration(60_000), "1m 0s");
    assert_eq!(format_duration(65_000), "1m 5s");
    assert_eq!(format_duration(3_600_000), "60m 0s");
}

#[test]
fn shortest_wait_handles_extremes() {
    let s = snap(None, None, vec![account(false, Some(i64::MAX))]);
    assert_eq!(shortest_wait_ms(&s, i64::MIN), Some(u64::MAX));
    let s = snap(None, None, vec![account(false, Some(10)), account(false, Some(7)), account(false, Some(9))]);
    assert_eq!(shortest_wait_ms(&s, 5), Some(2));
    assert_eq!(shortest_wait_ms(&snap(None, None, vec![]), 5), None);
}

#[test]
fn decimal_text() {
    assert_eq!(u64_to_decimal(0), "0");
    assert_eq!(u64_to_decimal(1234567890), "1234567890");
    assert_eq!(u64_to_decimal(u64::MAX), u64::MAX.to_string());
    assert_eq!(i64_to_decimal(i64::MIN), i64::MIN.to_string());
    assert_eq!(i64_to_decimal(-42), "-42");
}

#[test]
fn icon_colors() {
    assert_eq!(Visual::Running.color(), [16, 185, 129]);
    assert_eq!(Visual::Warning.color(), [251, 191, 36]);
    assert_eq!(Visual::Stopped.color(), [239, 68, 68]);
    let data = icon_rgba([1, 2, 3]);
    assert_eq!(data.len(), (ICON_SIZE * ICON_SIZE * 4) as usize);
    assert_eq!(&data[0..8], &[1, 2, 3, 255, 1, 2, 3, 255]);
}

#[test]
fn dashboard_address() {
    assert_eq!(dashboard_url(&status(false, None, None)), "http://localhost:8080/dashboard");
    let s = status(true, None, Some(snap(Some(9090), None, vec![])));
    assert_eq!(dashboard_url(&s), "http://localhost:9090/dashboard");
}

#[test]
fn launch_command_binds_loopback() {
    let c = launch_command("/usr/bin/node".to_string(), "/r/desktop/proxy-daemon.js".to_string(), "/r");
    assert_eq!(c.program, "/usr/bin/node");
    assert_eq!(c.args, vec!["/r/desktop/proxy-daemon.js".to_string()]);
    assert_eq!(c.cwd, "/r");
    assert_eq!(c.env, vec![("ANTIGRAVITY_HOST".to_string(), "127.0.0.1".to_string())]);
}

#[test]
fn missing_helper_script() {
    assert_eq!(
        locate_script("/nonexistent-root", "desktop/settings-check.js"),
        Err("Script not found: /nonexistent-root/desktop/settings-check.js".to_string())
    );
}

#[test]
fn log_now_is_stamped() {
    let line = log_now(LogLevel::Error, "watchdog: x");
    assert!(line.starts_with("[20"));
    assert!(line.ends_with("] [ERROR] watchdog: x\n"));
}

#[test]
fn path_helpers() {
    assert_eq!(
        asset_paths("/r"),
        vec![
            "/r/desktop/proxy-daemon.js".to_string(),
            "/r/src/index.js".to_string(),
            "/r/package.json".to_string()
        ]
    );
    assert!(!repo_assets_present("/nonexistent-root"));
    assert_eq!(candidate_in_dir("/nonexistent-root", "node"), None);
    assert_eq!(grandparent_or_current("/a/b/c"), "/a");
    assert_eq!(grandparent_or_current("c"), ".");
    let home = Some("/home/u".to_string());
    assert_eq!(expand_tilde("/abs/node", &home), "/abs/node");
    assert_eq!(expand_tilde("rel/~/node", &home), "rel/~/node");
    let dirs = fallback_dirs(&home);
    assert_eq!(dirs.len(), 10);
    assert_eq!(dirs[0], "/usr/local/bin");
    assert_eq!(dirs[8], "/home/u/.volta/bin");
    assert_eq!(dirs[9], "/home/u/.asdf/shims");
    assert_eq!(fallback_dirs(&None).len(), 8);
}

#[test]
fn tilde_expands_to_home_when_known() {
    let home = Some("/home/u".to_string());
    assert_eq!(expand_tilde("~/bin/node", &home), "/home/u/bin/node");
    assert_eq!(expand_tilde("~/bin/node", &None), "~/bin/node");
    assert_eq!(expand_tilde("~", &home), "~");
    assert_eq!(expand_tilde("~user/node", &home), "~user/node");
}

#[test]
fn first_found_picks_first_hit() {
    let c = vec!["a".to_string(), "b".to_string(), "c".to_string()];
    assert_eq!(first_found(&c, &vec![false, true, true]), Some("b".to_string()));
    assert_eq!(first_found(&c, &vec![false, false, false]), None);
    assert_eq!(first_found(&vec![], &vec![]), None);
}

#[test]
fn newest_found_picks_greatest_hit() {
    let v = vec![
        "/n/v18.0.0".to_string(),
        "/n/v20.1.0".to_string(),
        "/n/v19.0.0".to_string(),
    ];
    assert_eq!(newest_found(&v, &vec![true, false, true]), Some("/n/v19.0.0/bin/node".to_string()));
    assert_eq!(newest_found(&v, &vec![true, true, true]), Some("/n/v20.1.0/bin/node".to_string()));
    assert_eq!(newest_found(&v, &vec![false, false, false]), None);
}

#[test]
fn node_choice_branches() {
    let s = |x: &str| Some(x.to_string());
    assert_eq!(
        choose_node_binary(s("~/n"), "/h/n".to_string(), true, true, None, None, None),
        Ok("/h/n".to_string())
    );
    assert_eq!(
        choose_node_binary(s("~/n"), "/h/n".to_string(), true, false, s("/p/n"), None, None),
        Err("NODE_BINARY points to '/h/n' but it does not exist".to_string())
    );
    assert_eq!(
        choose_node_binary(s("n"), "n".to_string(), false, false, s("/p/n"), None, None),
        Ok("/p/n".to_string())
    );
    assert_eq!(
        choose_node_binary(s("n"), "n".to_string(), false, false, None, s("/f/n"), None),
        Err("NODE_BINARY is set to 'n' but it was not found on PATH".to_string())
    );
    assert_eq!(
        choose_node_binary(None, String::new(), false, false, s("/p"), s("/f"), s("/v")),
        Ok("/p".to_string())
    );
    assert_eq!(
        choose_node_binary(None, String::new(), false, false, None, s("/f"), s("/v")),
        Ok("/f".to_string())
    );
    assert_eq!(
        choose_node_binary(None, String::new(), false, false, None, None, s("/v")),
        Ok("/v".to_string())
    );
    assert_eq!(
        choose_node_binary(None, String::new(), false, false, None, None, None),
        Err("Unable to locate a Node.js binary. Install Node or set NODE_BINARY to an absolute path."
            .to_string())
    );
}

#[test]
fn repo_root_candidates_in_order() {
    let c = repo_root_candidates(&Some("/x".to_string()), &Some("/A/Contents/MacOS/app".to_string()));
    assert_eq!(
        c,
        vec![
            "/x".to_string(),
            "/A/Contents/Resources/resources/app".to_string(),
            "/A/Contents/Resources/app".to_string(),
            "/A/Contents/Resources".to_string(),
            "/A/Contents/MacOS".to_string(),
            "/A/Contents".to_string(),
            "/A".to_string(),
            "/".to_string(),
        ]
    );
    assert_eq!(repo_root_candidates(&None, &None), Vec::<String>::new());
}

#[test]
fn repo_root_choice() {
    let c = vec!["/x".to_string(), "/y".to_string()];
    assert_eq!(choose_repo_root(&c, &vec![false, true], "/w/p/d/s"), "/y");
    assert_eq!(choose_repo_root(&c, &vec![false, false], "/w/p/d/s"), "/w/p");
}

#[test]
fn text_order() {
    assert!(text_before("v18.0.0", "v20.1.0"));
    assert!(!text_before("v20.1.0", "v18.0.0"));
    assert!(text_before("v1", "v1.2"));
    assert!(!text_before("same", "same"));
    assert!(text_before("", "a"));
}

#[test]
fn node_lookup_errors() {
    assert_eq!(
        resolve_node_binary(Some("/nonexistent-root/node".to_string()), &vec![], &vec![]),
        Err("NODE_BINARY points to '/nonexistent-root/node' but it does not exist".to_string())
    );
    assert_eq!(
        resolve_node_binary(
            Some("nodeish-missing".to_string()),
            &vec!["".to_string(), "/nonexistent-root".to_string()],
            &vec![]
        ),
        Err("NODE_BINARY is set to 'nodeish-missing' but it was not found on PATH".to_string())
    );
    assert_eq!(search_in_path("nodeish-missing", &vec!["/nonexistent-root".to_string()]), None);
    assert_eq!(latest_nvm_node_bin(&vec!["/nonexistent-root/v1".to_string()]), None);
    assert_eq!(search_in_fallback_dirs("nodeish-missing", &None), None);
}

#[test]
fn repo_root_falls_back_to_source_tree() {
    let root = detect_repo_root(
        Some("/nonexistent-root".to_string()),
        Some("/nonexistent-root/a/b/c/app".to_string()),
        "/work/project/desktop/shell",
    );
    assert_eq!(root, "/work/project");
}
