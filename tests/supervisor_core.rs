use wachit::bridge::{batch_is_relevant, on_change_batch};
use wachit::debounce::DebounceState;
use wachit::processor::should_ignore_path;
use wachit::supervisor::{Action, ProcessState, Supervisor};
use wachit::text::{split_words, str_contains, str_ends_with, str_equals};
use wachit::types::{get_executable, Config, Executable};

fn config(exec: Executable, ignore: &[&str], watch: &[&str]) -> Config {
    let mut c = Config::create_default_config();
    c.executable = exec;
    c.ignore_list = ignore.iter().map(|s| s.to_string()).collect();
    c.watch_list = watch.iter().map(|s| s.to_string()).collect();
    c
}

fn paths(ps: &[&str]) -> Vec<String> {
    ps.iter().map(|s| s.to_string()).collect()
}

/// Runs checks every `step` ms from `step` to `end`, recording the given relevant
/// batches first at their times; returns the times at which a restart fired.
fn simulate(cfg: &Config, events: &[(u64, &str)], step: u64, end: u64) -> Vec<u64> {
    let mut state = DebounceState::new(0);
    let mut fired = Vec::new();
    let mut t = 0;
    while t <= end {
        for (et, p) in events {
            if *et == t {
                on_change_batch(&mut state, &paths(&[p]), cfg, t);
            }
        }
        if t > 0 && t % step == 0 && state.poll(t, cfg.delay) {
            fired.push(t);
        }
        t += 1;
    }
    fired
}

#[test]
fn default_config_values() {
    let c = Config::create_default_config();
    assert_eq!(c.executable, Executable::NODE);
    assert_eq!(c.target, "");
    assert!(!c.inspect);
    assert!(c.ignore_list.is_empty());
    assert!(c.watch_list.is_empty());
    assert_eq!(c.delay, 2000);
}

#[test]
fn ignore_list_beats_watch_list() {
    let c = config(Executable::NODE, &[".test.js"], &["js"]);
    assert!(!c.should_restart("src/foo.test.js"));
    assert!(should_ignore_path(&"src/foo.test.js".to_string(), &c));
    assert!(c.should_restart("src/foo.js"));
}

#[test]
fn ignore_pattern_without_dot() {
    let c = config(Executable::CARGO, &["rs"], &[]);
    assert!(!c.should_restart("src/main.rs"));
}

#[test]
fn watch_list_beats_default_extensions() {
    let c = config(Executable::CARGO, &[], &[".md"]);
    assert!(c.should_restart("README.md"));
    assert!(!should_ignore_path(&"README.md".to_string(), &c));
    assert!(c.should_restart("src/lib.rs"));
    assert!(!c.should_restart("notes.txt"));
}

#[test]
fn default_extensions_per_kind() {
    let node = config(Executable::NODE, &[], &[]);
    for p in ["a.js", "a.jsx", "a.ts", "a.tsx"] {
        assert!(node.should_restart(p), "{}", p);
    }
    assert!(!node.should_restart("a.py"));
    let py = config(Executable::PYTHON, &[], &[]);
    assert!(py.should_restart("main.py"));
    assert!(!py.should_restart("main.go"));
    let go = config(Executable::GOLANG, &[], &[]);
    assert!(go.should_restart("main.go"));
    assert!(!go.should_restart("main.rs"));
    let cargo = config(Executable::CARGO, &[], &[]);
    assert!(cargo.should_restart("src/main.rs"));
    assert!(!cargo.should_restart("Cargo.toml"));
}

#[test]
fn hard_excluded_paths_are_ignored() {
    let c = config(Executable::NODE, &[], &["js", "env", "git", "json"]);
    for p in [
        "wachit.json",
        "build/app.js",
        "node_modules/x/index.js",
        ".env",
        "app/.gitignore",
        "web/.next",
        "repo/.git",
        ".vscode/settings.json",
        "dist/app.js",
    ] {
        assert!(should_ignore_path(&p.to_string(), &c), "{}", p);
    }
    assert!(!should_ignore_path(&"src/app.js".to_string(), &c));
}

#[test]
fn executable_commands() {
    assert_eq!(Executable::NODE.to_string(), "node");
    assert_eq!(Executable::GOLANG.to_string(), "go run");
    assert_eq!(Executable::PYTHON.to_string(), "python3");
    assert_eq!(Executable::CARGO.to_string(), "cargo run");
}

#[test]
fn executable_by_name() {
    assert_eq!(get_executable("NODE"), Executable::NODE);
    assert_eq!(get_executable("GOLANG"), Executable::GOLANG);
    assert_eq!(get_executable("PYTHON"), Executable::PYTHON);
    assert_eq!(get_executable("CARGO"), Executable::CARGO);
    assert_eq!(get_executable("ruby"), Executable::NODE);
    assert_eq!(get_executable(""), Executable::NODE);
}

#[test]
fn command_lines() {
    let mut c = config(Executable::NODE, &[], &[]);
    c.target = "app.ts".to_string();
    assert_eq!(c.get_command(), "node app.ts");
    c.inspect = true;
    assert_eq!(c.get_command(), "node --inspect app.ts");
    let mut g = config(Executable::GOLANG, &[], &[]);
    g.target = "main.go".to_string();
    assert_eq!(g.get_command(), "go run main.go");
}

#[test]
fn words_of_command_lines() {
    assert_eq!(split_words("go run  main.go"), vec!["go", "run", "main.go"]);
    assert_eq!(split_words("  node\tapp.ts \n"), vec!["node", "app.ts"]);
    assert!(split_words("").is_empty());
    assert!(split_words("   ").is_empty());
}

#[test]
fn string_helpers() {
    assert!(str_ends_with("foo.test.js", "test.js"));
    assert!(!str_ends_with("js", "a.js"));
    assert!(str_ends_with("abc", ""));
    assert!(str_contains("a/node_modules/b", "node_modules"));
    assert!(!str_contains("a/node/b", "node_modules"));
    assert!(str_contains("x", ""));
    assert!(str_equals("NODE", "NODE"));
    assert!(!str_equals("NODE", "NODES"));
}

#[test]
fn poll_before_and_after_settle() {
    let mut s = DebounceState::new(0);
    assert!(!s.poll(5000, 100));
    s.record_event(1000);
    assert_eq!(s, DebounceState { last_event: 1000, pending: true });
    assert!(!s.poll(1099, 100));
    assert!(s.poll(1100, 100));
    assert!(!s.pending);
    assert!(!s.poll(1200, 100));
}

#[test]
fn zero_delay_fires_on_next_check() {
    let mut s = DebounceState::new(0);
    s.record_event(40);
    assert!(s.poll(40, 0));
    assert!(!s.poll(50, 0));
}

#[test]
fn two_close_events_fire_once() {
    let c = config(Executable::NODE, &[], &[]);
    let mut c = c;
    c.delay = 100;
    let fired = simulate(&c, &[(0, "a.js"), (50, "a.js")], 10, 1000);
    assert_eq!(fired, vec![150]);
}

#[test]
fn isolated_event_fires_once() {
    let mut c = config(Executable::NODE, &[], &[]);
    c.delay = 100;
    let fired = simulate(&c, &[(0, "a.js")], 10, 1000);
    assert_eq!(fired, vec![100]);
}

#[test]
fn restart_terminates_before_spawn() {
    let mut sup = Supervisor::new();
    assert_eq!(sup.held_process(), None);
    let first = sup.restart("node app.ts");
    assert_eq!(first.len(), 1);
    assert!(matches!(&first[0], Action::Spawn { argv } if argv == &vec!["node", "app.ts"]));
    sup.spawned(Some(42));
    assert_eq!(sup.state, ProcessState::Running { id: 42 });
    let second = sup.restart("node app.ts");
    assert_eq!(second.len(), 2);
    assert!(matches!(&second[0], Action::Terminate { id: 42 }));
    assert!(matches!(&second[1], Action::Spawn { argv } if argv == &vec!["node", "app.ts"]));
    assert_eq!(sup.state, ProcessState::Terminating { id: 42 });
    sup.spawned(None);
    assert_eq!(sup.state, ProcessState::Idle);
    let third = sup.restart("go run main.go");
    assert_eq!(third.len(), 1);
    assert!(matches!(&third[0], Action::Spawn { argv } if argv == &vec!["go", "run", "main.go"]));
}

#[test]
fn node_burst_restarts_with_same_command() {
    let mut c = config(Executable::NODE, &[], &[]);
    c.delay = 100;
    c.target = "app.ts".to_string();
    let fired = simulate(&c, &[(0, "app.ts"), (80, "app.ts")], 10, 1000);
    assert_eq!(fired, vec![180]);
    let mut sup = Supervisor::new();
    sup.restart(&c.get_command());
    sup.spawned(Some(7));
    let actions = sup.restart(&c.get_command());
    assert_eq!(c.get_command(), "node app.ts");
    assert!(matches!(&actions[0], Action::Terminate { id: 7 }));
    assert!(matches!(&actions[1], Action::Spawn { argv } if argv == &vec!["node", "app.ts"]));
}

#[test]
fn ignored_test_file_never_restarts() {
    let mut c = config(Executable::NODE, &[".test.js"], &[]);
    c.delay = 100;
    let mut state = DebounceState::new(0);
    assert!(!on_change_batch(&mut state, &paths(&["foo.test.js"]), &c, 0));
    assert!(!state.pending);
    let fired = simulate(&c, &[(0, "foo.test.js")], 10, 1000);
    assert!(fired.is_empty());
}

#[test]
fn batch_with_one_relevant_path() {
    let c = config(Executable::NODE, &[], &[]);
    assert!(batch_is_relevant(&paths(&["node_modules/a.js", "src/b.ts"]), &c));
    assert!(!batch_is_relevant(&paths(&["node_modules/a.js", "README"]), &c));
    assert!(!batch_is_relevant(&paths(&[]), &c));
    let mut state = DebounceState::new(0);
    assert!(on_change_batch(&mut state, &paths(&["src/b.ts", "README"]), &c, 30));
    assert_eq!(state, DebounceState { last_event: 30, pending: true });
}
