use tmux_shim::commands::{
    cmd_break_pane, cmd_capture_pane, cmd_display_message, cmd_has_session, cmd_kill_pane,
    cmd_kill_window, cmd_list_panes, cmd_new_session, cmd_new_window, cmd_resize_pane,
    cmd_respawn_pane, cmd_select_pane, cmd_send_keys, cmd_set_environment, cmd_set_option,
    cmd_show_environment, cmd_split_window, dispatch, find_subcommand,
};
use tmux_shim::goals::list_args;
use tmux_shim::invocation::{parse_invocation, version_line, Invocation};
use tmux_shim::log::{
    log_entry, show_call, show_code, show_exit, show_invocation, show_notice, show_result,
};
use tmux_shim::panes::{live_panes, needs_panes, resolve_current_pane, resolve_target, Env, WezPane};
use tmux_shim::paths::PathStyle;
use tmux_shim::resume::{resume_bash, resume_panes, resume_run, resume_write};
use tmux_shim::state::State;
use tmux_shim::turn::{Effect, Next, Notice, Subcommand, Turn};

fn words(list: &[&str]) -> Vec<String> {
    list.iter().map(|s| s.to_string()).collect()
}

fn env(wezterm: Option<&str>, tmux: Option<&str>) -> Env {
    Env {
        wezterm_pane: wezterm.map(|s| s.to_string()),
        tmux_pane: tmux.map(|s| s.to_string()),
    }
}

fn pane(pane_id: u64, window_id: u64) -> WezPane {
    WezPane { pane_id, window_id, tab_id: 0 }
}

/// What a command did to the outside world.
struct Run {
    out: String,
    err: String,
    calls: Vec<Vec<String>>,
    lists: usize,
    files: Vec<(String, String)>,
    saves: usize,
    notes: Vec<Notice<String, Vec<String>>>,
    code: i32,
}

/// Runs a command to its end. WezTerm has `panes`, and answers each call with
/// the next of `answers` (nothing, exit 0, once they are used up).
fn drive(
    first: Turn,
    e: &Env,
    state: &mut State,
    panes: &[WezPane],
    answers: &[(&str, i32)],
    bash: Option<&str>,
    writable: bool,
) -> Run {
    let mut run = Run {
        out: String::new(),
        err: String::new(),
        calls: Vec::new(),
        lists: 0,
        files: Vec::new(),
        saves: 0,
        notes: Vec::new(),
        code: -1,
    };
    let mut turn = first;
    loop {
        for effect in turn.effects {
            match effect {
                Effect::Print(t) => run.out.push_str(&t),
                Effect::Line(t) => {
                    run.out.push_str(&t);
                    run.out.push('\n');
                }
                Effect::Warn(t) => run.err.push_str(&t),
                Effect::Save => run.saves += 1,
                Effect::Note(n) => run.notes.push(n),
            }
        }
        turn = match turn.next {
            Next::Exit(code) => {
                run.code = code;
                return run;
            }
            Next::List(task) => {
                run.lists += 1;
                resume_panes(task, panes.to_vec(), e, state)
            }
            Next::Run(args, task) => {
                let n = run.calls.len();
                run.calls.push(args);
                let (stdout, exit) = if n < answers.len() { answers[n] } else { ("", 0) };
                resume_run(task, stdout.to_string(), exit, state)
            }
            Next::Write { name, content, task } => {
                run.files.push((name, content));
                resume_write(task, writable, PathStyle::Windows, "C:\\d")
            }
            Next::FindBash { pane } => {
                resume_bash(pane, bash.map(|b| b.to_string()), PathStyle::Windows, "C:\\d")
            }
        };
    }
}

fn quick(sub: &str, args: &[&str], e: &Env, state: &mut State, panes: &[WezPane]) -> Run {
    let first = dispatch(sub, &words(args), e, state);
    drive(first, e, state, panes, &[], None, true)
}

#[test]
fn has_session_always_succeeds() {
    let mut s = State::default();
    let t = cmd_has_session(&words(&["-t", "x"]), &mut s);
    assert_eq!(t.next, Next::Exit(0));
    assert!(t.effects.is_empty());
    assert_eq!(cmd_resize_pane(&[], &mut s).next, Next::Exit(0));
    assert_eq!(cmd_break_pane(&[], &mut s).next, Next::Exit(0));
}

#[test]
fn new_session_shows_the_first_pane() {
    let e = env(None, None);
    let mut s = State::default();
    let first = cmd_new_session(
        &words(&["-d", "-s", "n", "-P", "-F", "#{window_id} #{pane_id}", "--", "-P", "x"]),
        &mut s,
    );
    let run = drive(first, &e, &mut s, &[pane(9, 4), pane(0, 1)], &[], None, true);
    assert_eq!(run.out, "@4 %0\n");
    assert_eq!(run.saves, 1);
    assert_eq!(run.code, 0);
    assert_eq!(s.wez_id_for_tmux("%0"), Some(9));
}

#[test]
fn new_window_without_panes_shows_pane_zero() {
    let e = env(None, None);
    let mut s = State::default();
    let first = cmd_new_window(&words(&["-P", "-F", "#{window_id} #{pane_id}"]), &mut s);
    let run = drive(first, &e, &mut s, &[], &[], None, true);
    assert_eq!(run.out, "@0 %0\n");
    assert_eq!(s.wez_id_for_tmux("%0"), Some(0));
    // Options after `--` do not count.
    let quiet = cmd_new_window(&words(&["--", "-P"]), &mut s);
    assert_eq!(quiet.next, Next::Exit(0));
    // A `--` that is the value of `-F` does not end the options.
    let loud = cmd_new_window(&words(&["-F", "--", "-P"]), &mut s);
    let run = drive(loud, &e, &mut s, &[], &[], None, true);
    assert_eq!(run.out, "--\n");
}

#[test]
fn split_window_maps_the_new_pane() {
    let e = env(None, None);
    let mut s = State::default();
    s.alloc_pane(9);
    s.alloc_pane(0);
    let first = cmd_split_window(
        &words(&["-d", "-t", "%0", "-h", "-P", "-F", "#{pane_id}"]),
        &e,
        &mut s,
    );
    let run = drive(first, &e, &mut s, &[pane(0, 0), pane(9, 7)], &[("15\n", 0)], None, true);
    assert_eq!(
        run.calls,
        vec![words(&["cli", "split-pane", "--pane-id", "9", "--horizontal"])]
    );
    assert_eq!(run.out, "%2\n");
    assert_eq!(run.lists, 1);
    assert_eq!(run.saves, 1);
    assert_eq!(s.wez_id_for_tmux("%2"), Some(15));
}

#[test]
fn split_window_goes_below_by_default() {
    let e = env(None, None);
    let mut s = State::default();
    for args in [vec!["-t", "3"], vec!["-t", "3", "-h", "-v"], vec!["-t", "3", "-v"]] {
        let first = cmd_split_window(&words(&args), &e, &mut s);
        let run = drive(first, &e, &mut s, &[], &[("4", 0)], None, true);
        assert_eq!(
            run.calls,
            vec![words(&["cli", "split-pane", "--pane-id", "3", "--bottom"])]
        );
        assert_eq!(run.lists, 0);
    }
}

#[test]
fn a_failed_split_gets_a_made_up_id() {
    let e = env(None, None);
    let mut s = State::default();
    let first = cmd_split_window(&words(&["-t", "3", "-P", "-F", "#{pane_id}"]), &e, &mut s);
    let run = drive(first, &e, &mut s, &[], &[("no such pane", 1)], None, true);
    assert_eq!(run.out, "%0\n");
    assert_eq!(
        run.notes,
        vec![Notice::SplitFailed { exit: 1 }, Notice::SyntheticId]
    );
    assert_eq!(run.code, 0);
    assert_eq!(s.next_pane, 1);
    assert_eq!(s.wez_id_for_tmux("%0"), None);
    // An unresolvable target splits pane 0.
    let first = cmd_split_window(&words(&["-t", "%9"]), &e, &mut s);
    let run = drive(first, &e, &mut s, &[], &[("5", 0)], None, true);
    assert_eq!(run.calls[0][3], "0");
}

#[test]
fn split_by_name_stays_in_the_window() {
    let e = env(Some("7"), Some("%0"));
    let mut s = State::default();
    s.alloc_pane(1); // a stale %0
    let panes = [pane(1, 0), pane(6, 1), pane(7, 1)];
    let first = cmd_split_window(&words(&["-t", "team"]), &e, &mut s);
    let run = drive(first, &e, &mut s, &panes, &[("8", 0)], None, true);
    assert_eq!(run.calls[0][3], "6");
    assert_eq!(s.wez_id_for_tmux("%0"), Some(7));
}

#[test]
fn names_fall_back_to_the_first_pane() {
    let mut s = State::default();
    let panes = [pane(1, 0), pane(7, 1)];
    let e = env(Some("99"), None);
    assert_eq!(resolve_target("team", &mut s, &e, &panes), Some(1));
    assert_eq!(resolve_target("@1", &mut s, &e, &panes), Some(1));
    assert_eq!(resolve_target("team", &mut s, &e, &[]), None);
    assert_eq!(resolve_target("", &mut s, &env(Some("7"), None), &panes), Some(7));
    assert!(needs_panes("team") && needs_panes("") && needs_panes("@1"));
    assert!(!needs_panes("%1") && !needs_panes("12"));
    assert_eq!(resolve_target("12", &mut s, &e, &panes), Some(12));
    assert_eq!(resolve_target("%77", &mut s, &e, &panes), None);
}

#[test]
fn the_real_pane_decides_what_is_current() {
    let mut s = State::default();
    assert_eq!(resolve_current_pane(&mut s, &env(Some("7"), Some("%3"))), "%3");
    assert_eq!(s.wez_id_for_tmux("%3"), Some(7));
    assert_eq!(resolve_current_pane(&mut s, &env(Some("7"), Some(""))), "%3");
    assert_eq!(resolve_current_pane(&mut s, &env(Some("x"), Some("%8"))), "%8");
    assert_eq!(s.wez_id_for_tmux("%8"), None);
    assert_eq!(resolve_current_pane(&mut s, &env(None, None)), "%0");
    assert_eq!(s.wez_id_for_tmux("%0"), Some(0));
    assert_eq!(resolve_current_pane(&mut s, &env(Some("5"), None)), "%1");
}

#[test]
fn list_panes_filters_by_window_and_marks_the_current_pane() {
    let e = env(Some("7"), Some("%0"));
    let mut s = State::default();
    s.next_pane = 1;
    let panes = [pane(1, 0), pane(7, 1), pane(8, 1)];
    let first = cmd_list_panes(
        &words(&["-t", "@1", "-F", "#{pane_id} #{window_id} #{pane_active}#{pane_current}"]),
        &mut s,
    );
    let run = drive(first, &e, &mut s, &panes, &[], None, true);
    assert_eq!(run.out, "%0 @1 11\n%1 @1 00\n");
    assert_eq!(run.saves, 1);
    let run = quick("list-panes", &["-F", "#{pane_id}"], &e, &mut s, &panes);
    assert_eq!(run.out, "%2\n%0\n%1\n");
    let run = quick("list-panes", &["-t", "@x", "-F", "#{pane_id}"], &e, &mut s, &panes);
    assert_eq!(run.out, "%2\n%0\n%1\n");
    let run = quick("list-panes", &["-t", "@9", "-F", "#{pane_id}"], &e, &mut s, &panes);
    assert_eq!(run.out, "");
}

#[test]
fn display_message_names_the_window_of_the_current_pane() {
    let e = env(Some("7"), Some("%0"));
    let mut s = State::default();
    let panes = [pane(1, 0), pane(7, 1)];
    let first = cmd_display_message(&words(&["-t", "%0", "-p", "#{window_id}"]), &e, &mut s);
    let run = drive(first, &e, &mut s, &panes, &[], None, true);
    assert_eq!(run.out, "@1\n");
    let run = quick("display-message", &["-p", "#{client_termtype}"], &e, &mut s, &panes);
    assert_eq!(run.out, "tmux-256color\n");
    let run = quick("display-message", &["-p", "#{window_id}"], &env(Some("50"), None), &mut s, &panes);
    assert_eq!(run.out, "@0\n");
    let run = quick("display-message", &["-p", "#{window_id}"], &e, &mut s, &[]);
    assert_eq!(run.out, "@0\n");
}

#[test]
fn display_message_finds_its_format() {
    let e = env(Some("7"), None);
    let mut s = State::default();
    let cases: [(&[&str], &str); 8] = [
        (&["hello"], ""),
        (&["-p"], ""),
        (&["-p", "a", "b"], "a\n"),
        (&["-p", "-x", "b"], "b\n"),
        (&["-p", "-t", "%0", "b"], "%0\n"),
        (&["a", "-p", "b", "-p", "c"], "c\n"),
        (&["-p", "", "b"], "b\n"),
        (&["-p", "a", "-p", ""], ""),
    ];
    for (args, expected) in cases {
        let run = quick("display-message", args, &e, &mut s, &[pane(7, 1)]);
        assert_eq!(run.out, expected, "{:?}", args);
    }
}

#[test]
fn select_pane_sets_the_title() {
    let mut s = State::default();
    let e = env(None, None);
    let first = cmd_select_pane(&words(&["-t", "%1", "-T", "my title"]), &mut s);
    let run = drive(first, &e, &mut s, &[], &[("", 3)], None, true);
    assert_eq!(run.calls, vec![words(&["cli", "set-tab-title", "my title"])]);
    assert_eq!(
        run.notes,
        vec![Notice::SetTitle { target: "%1".to_string(), title: "my title".to_string() }]
    );
    assert_eq!(run.code, 0);
    assert_eq!(cmd_select_pane(&words(&["-t", "%1"]), &mut s).next, Next::Exit(0));
}

#[test]
fn set_option_stores_remain_on_exit_only() {
    let e = env(None, None);
    let mut s = State::default();
    s.alloc_pane(5);
    let t = cmd_set_option(&words(&["-p", "-t", "%0", "remain-on-exit", "failed"]), &e, &mut s);
    assert_eq!(t.next, Next::Exit(0));
    assert_eq!(t.effects[1], Effect::Save);
    assert_eq!(s.remain_on_exit.get(&5).map(|v| v.as_str()), Some("failed"));
    cmd_set_option(&words(&["-t", "%0", "remain-on-exit"]), &e, &mut s);
    assert_eq!(s.remain_on_exit.get(&5).map(|v| v.as_str()), Some("on"));
    let t = cmd_set_option(&words(&["-t", "%0", "window-style", "x"]), &e, &mut s);
    assert!(t.effects.is_empty());
    let t = cmd_set_option(&words(&["-t", "%6", "remain-on-exit", "on"]), &e, &mut s);
    assert_eq!(
        t.effects,
        vec![Effect::Note(Notice::Unresolved {
            command: Subcommand::SetOption,
            target: "%6".to_string()
        })]
    );
}

#[test]
fn respawn_writes_and_starts_the_launchers() {
    let e = env(None, None);
    let mut s = State::default();
    s.alloc_pane(5);
    s.set_env("A".to_string(), "it's\r\nfine".to_string());
    s.set_env("B".to_string(), "2".to_string());
    s.set_policy(5, "failed".to_string());
    let args = words(&["-k", "-t", "%0", "--", "cd '/x' &&", "run -t %1"]);
    let first = cmd_respawn_pane(&args, &e, &mut s);
    let run = drive(first, &e, &mut s, &[], &[], Some("C:\\b.exe"), true);
    assert_eq!(
        run.files,
        vec![
            (
                "respawn_5.sh".to_string(),
                "#!/usr/bin/env bash\nexport A='it'\\''sfine'\nexport B='2'\ncd '/x' && run -t %1\n\
                 rc=$?\nif [ \"$rc\" -eq 0 ]; then wezterm cli kill-pane --pane-id 5; fi\n"
                    .to_string()
            ),
            (
                "respawn_5.cmd".to_string(),
                "@echo off\r\n\"C:\\b.exe\" \"C:\\d\\respawn_5.sh\"\r\n".to_string()
            ),
        ]
    );
    assert_eq!(
        run.calls,
        vec![words(&[
            "cli",
            "send-text",
            "--pane-id",
            "5",
            "--no-paste",
            "C:\\d\\respawn_5.cmd\r"
        ])]
    );
    assert_eq!(run.notes, vec![Notice::UsingBash { bash: "C:\\b.exe".to_string() }]);
}

#[test]
fn respawn_fails_softly() {
    let e = env(None, None);
    let mut s = State::default();
    s.alloc_pane(5);
    let run = quick("respawn-pane", &["-t", "%0"], &e, &mut s, &[]);
    assert_eq!(run.notes, vec![Notice::NothingToRun]);
    let run = quick("respawn-pane", &["-t", "%4", "--", "x"], &e, &mut s, &[]);
    assert_eq!(
        run.notes,
        vec![Notice::Unresolved {
            command: Subcommand::RespawnPane,
            target: "%4".to_string()
        }]
    );
    let first = cmd_respawn_pane(&words(&["-t", "%0", "--", "x"]), &e, &mut s);
    let run = drive(first, &e, &mut s, &[], &[], None, false);
    assert_eq!(run.files.len(), 1);
    assert!(run.calls.is_empty());
    assert_eq!(run.code, 0);
    let run = quick("respawn-pane", &["-t", "%0", "--", "x"], &e, &mut s, &[]);
    assert_eq!(run.notes, vec![Notice::NoBash]);
    assert_eq!(run.files[1].1, "@echo off\r\n\"bash\" \"C:\\d\\respawn_5.sh\"\r\n");
}

#[test]
fn the_policy_decides_how_a_script_ends() {
    let e = env(None, None);
    let kill = "wezterm cli kill-pane --pane-id 5\n";
    for (policy, end) in [
        (None, kill),
        (Some("off"), kill),
        (Some("whatever"), kill),
        (Some("on"), ""),
        (
            Some("failed"),
            "if [ \"$rc\" -eq 0 ]; then wezterm cli kill-pane --pane-id 5; fi\n",
        ),
    ] {
        let mut s = State::default();
        if let Some(p) = policy {
            s.set_policy(5, p.to_string());
        }
        let run = quick("respawn-pane", &["-t", "5", "--", "x"], &e, &mut s, &[]);
        assert_eq!(
            run.files[0].1,
            format!("#!/usr/bin/env bash\nx\nrc=$?\n{}", end)
        );
    }
}

#[test]
fn send_keys_types_into_the_target() {
    let e = env(Some("3"), None);
    let mut s = State::default();
    let first = cmd_send_keys(&words(&["-t", "9", "ls", "Enter"]), &e, &mut s);
    let run = drive(first, &e, &mut s, &[], &[], None, true);
    assert_eq!(
        run.calls,
        vec![words(&["cli", "send-text", "--pane-id", "9", "--no-paste", "ls\r"])]
    );
    let run = quick("send-keys", &["-l", "Enter", "x"], &e, &mut s, &[]);
    assert_eq!(run.calls[0], words(&["cli", "send-text", "--pane-id", "3", "--no-paste", "Enter x"]));
    assert_eq!(run.saves, 0);
    let run = quick("send-keys", &["-t", "%9", "x"], &e, &mut s, &[]);
    assert!(run.calls.is_empty());
    assert_eq!(
        run.notes,
        vec![Notice::Unresolved { command: Subcommand::SendKeys, target: "%9".to_string() }]
    );
}

#[test]
fn capture_pane_passes_lines_on() {
    let e = env(Some("3"), None);
    let mut s = State::default();
    let args = words(&["-t", "9", "-p", "-S", "-10", "-E", "-1", "-e"]);
    let first = cmd_capture_pane(&args, &e, &mut s);
    let run = drive(first, &e, &mut s, &[], &[("text\nmore", 0)], None, true);
    assert_eq!(
        run.calls,
        vec![words(&[
            "cli", "get-text", "--pane-id", "9", "--start-line", "-10", "--end-line", "-1",
            "--escapes"
        ])]
    );
    assert_eq!(run.out, "text\nmore");
    let run = quick("capture-pane", &[], &e, &mut s, &[]);
    assert_eq!(run.calls, vec![words(&["cli", "get-text", "--pane-id", "3"])]);
    assert_eq!(run.out, "");
    assert_eq!(run.notes, vec![Notice::NotPrinted]);
    let run = quick("capture-pane", &["-t", "%9"], &e, &mut s, &[]);
    assert_eq!(
        run.notes,
        vec![Notice::Unresolved { command: Subcommand::CapturePane, target: "%9".to_string() }]
    );
}

#[test]
fn variables_read_back() {
    let e = env(None, None);
    let mut s = State::default();
    let t = cmd_set_environment(&words(&["-g", "NAME", "a value"]), &mut s);
    assert_eq!(t.effects.len(), 2);
    assert_eq!(t.effects[1], Effect::Save);
    let run = quick("show-environment", &["-g", "NAME"], &e, &mut s, &[]);
    assert_eq!((run.out.as_str(), run.code), ("NAME=a value\n", 0));
    let run = quick("show-environment", &["-g", "OTHER"], &e, &mut s, &[]);
    assert_eq!((run.out.as_str(), run.code), ("", 1));
    assert_eq!(cmd_show_environment(&words(&["-g"]), &mut s).next, Next::Exit(0));
    // A server option is accepted without doing anything.
    for args in [["-as", "X", "-1"], ["-as", "X", "1"]] {
        let run = quick("set", &args, &e, &mut s, &[]);
        assert_eq!((run.saves, run.code), (0, 0));
    }
    let run = quick("show-environment", &["X"], &e, &mut s, &[]);
    assert_eq!((run.out.as_str(), run.code), ("", 1));
    quick("set", &["NAME", "new"], &e, &mut s, &[]);
    let run = quick("show-environment", &["NAME"], &e, &mut s, &[]);
    assert_eq!(run.out, "NAME=new\n");
}

#[test]
fn kill_pane_forgets_the_pane_whatever_happens() {
    let e = env(Some("3"), None);
    let mut s = State::default();
    s.alloc_pane(5);
    s.set_policy(5, "on".to_string());
    let first = cmd_kill_pane(&words(&["-t", "%0"]), &e, &mut s);
    let run = drive(first, &e, &mut s, &[], &[("", 1)], None, true);
    assert_eq!(run.calls, vec![words(&["cli", "kill-pane", "--pane-id", "5"])]);
    assert_eq!(
        run.notes,
        vec![
            Notice::KillPane { target: "%0".to_string(), pane: 5 },
            Notice::KillPaneExit { exit: 1 }
        ]
    );
    assert_eq!((run.saves, run.code), (1, 0));
    assert_eq!(s.wez_id_for_tmux("%0"), None);
    assert!(s.remain_on_exit.is_empty());
    let run = quick("kill-pane", &[], &e, &mut s, &[]);
    assert_eq!(run.calls, vec![words(&["cli", "kill-pane", "--pane-id", "3"])]);
    let run = quick("kill-pane", &["-t", "%44"], &e, &mut s, &[]);
    assert_eq!(
        run.notes,
        vec![Notice::Unresolved { command: Subcommand::KillPane, target: "%44".to_string() }]
    );
}

#[test]
fn kill_window_closes_the_panes_of_the_window() {
    let e = env(Some("7"), None);
    let panes = [pane(1, 0), pane(7, 1), pane(2, 0), pane(8, 1)];
    let mut s = State::default();
    for p in panes {
        s.alloc_pane(p.pane_id);
    }
    let first = cmd_kill_window(&words(&["-t", "@0"]), &mut s);
    let run = drive(first, &e, &mut s, &panes, &[("", 0), ("", 1)], None, true);
    assert_eq!(
        run.calls,
        vec![
            words(&["cli", "kill-pane", "--pane-id", "1"]),
            words(&["cli", "kill-pane", "--pane-id", "2"]),
        ]
    );
    assert_eq!(
        run.notes,
        vec![
            Notice::KillWindow { window: 0 },
            Notice::KilledInWindow { pane: 1, exit: 0 },
            Notice::KilledInWindow { pane: 2, exit: 1 },
        ]
    );
    assert_eq!(run.saves, 1);
    assert_eq!(s.wez_id_for_tmux("%0"), None);
    assert_eq!(s.wez_id_for_tmux("%1"), Some(7));
    // By pane id, by name and by default: the window of that pane.
    for target in [vec!["-t", "%3"], vec!["-t", "team"], vec![]] {
        let mut s = State::default();
        for p in panes {
            s.alloc_pane(p.pane_id);
        }
        let run = quick("kill-window", &target, &e, &mut s, &panes);
        assert_eq!(run.calls.len(), 2);
        assert_eq!(run.calls[0][3], "7");
        assert_eq!(run.calls[1][3], "8");
    }
}

#[test]
fn kill_window_gives_up_on_unknown_windows() {
    let e = env(Some("7"), None);
    let mut s = State::default();
    let panes = [pane(1, 0)];
    for target in ["@x", "@", "%5", "77"] {
        let run = quick("kill-window", &["-t", target], &e, &mut s, &panes);
        assert!(run.calls.is_empty());
        assert_eq!(
            run.notes,
            vec![Notice::Unresolved {
                command: Subcommand::KillWindow,
                target: target.to_string()
            }]
        );
        assert_eq!((run.saves, run.code), (0, 0));
    }
    let run = quick("kill-window", &["-t", "@5"], &e, &mut s, &panes);
    assert!(run.calls.is_empty());
    assert_eq!((run.saves, run.code), (1, 0));
}

#[test]
fn unknown_subcommands_are_harmless() {
    let e = env(Some("7"), None);
    let mut s = State::default();
    let run = quick("kill-session", &["-t", "x"], &e, &mut s, &[pane(7, 1)]);
    assert_eq!(
        run.err,
        "tmux-wezterm-shim: unhandled subcommand 'kill-session' (not implemented - see shim.log)"
    );
    assert_eq!(
        run.notes,
        vec![Notice::Unhandled {
            subcommand: "kill-session".to_string(),
            args: words(&["-t", "x"])
        }]
    );
    assert!(run.calls.is_empty() && run.out.is_empty());
    assert_eq!((run.lists, run.saves, run.code), (0, 0, 0));
}

#[test]
fn accepted_subcommands_do_nothing_quietly() {
    let e = env(Some("7"), None);
    let mut s = State::default();
    for name in [
        "select-layout", "refresh-client", "set-window-option", "setw", "rename-window",
        "rename-session", "move-window", "swap-pane",
    ] {
        let run = quick(name, &["-t", "x"], &e, &mut s, &[pane(7, 1)]);
        assert_eq!(run.notes, vec![Notice::NoOp { subcommand: name.to_string() }]);
        assert!(run.err.is_empty() && run.out.is_empty() && run.calls.is_empty());
        assert_eq!(run.code, 0);
    }
}

#[test]
fn subcommands_have_their_names() {
    for (name, sub) in [
        ("has-session", Subcommand::HasSession),
        ("new-session", Subcommand::NewSession),
        ("new-window", Subcommand::NewWindow),
        ("split-window", Subcommand::SplitWindow),
        ("list-panes", Subcommand::ListPanes),
        ("display-message", Subcommand::DisplayMessage),
        ("select-pane", Subcommand::SelectPane),
        ("set-option", Subcommand::SetOption),
        ("resize-pane", Subcommand::ResizePane),
        ("respawn-pane", Subcommand::RespawnPane),
        ("set-environment", Subcommand::SetEnvironment),
        ("set", Subcommand::SetEnvironment),
        ("show-environment", Subcommand::ShowEnvironment),
        ("break-pane", Subcommand::BreakPane),
        ("kill-pane", Subcommand::KillPane),
        ("kill-window", Subcommand::KillWindow),
        ("send-keys", Subcommand::SendKeys),
        ("capture-pane", Subcommand::CapturePane),
        ("kill-session", Subcommand::Unknown),
        ("", Subcommand::Unknown),
    ] {
        assert_eq!(find_subcommand(name), sub);
    }
}

#[test]
fn global_options_are_skipped() {
    let run = |list: &[&str]| parse_invocation(&words(list));
    let expected = Invocation::Run {
        subcommand: "list-panes".to_string(),
        args: words(&["-F", "x"]),
    };
    assert_eq!(run(&["tmux", "list-panes", "-F", "x"]), expected);
    assert_eq!(run(&["tmux", "-S", "sock", "list-panes", "-F", "x"]), expected);
    assert_eq!(
        run(&["tmux", "-2", "-u", "-L", "-S", "-f", "c", "-V", "list-panes", "-F", "x"]),
        expected
    );
    assert_eq!(run(&["tmux"]), Invocation::Nothing);
    assert_eq!(run(&[]), Invocation::Nothing);
    assert_eq!(run(&["tmux", "-S"]), Invocation::Nothing);
    assert_eq!(run(&["tmux", "-S", "sock"]), Invocation::Nothing);
    assert_eq!(run(&["tmux", "-V"]), Invocation::Version);
    assert_eq!(run(&["tmux", "--version", "x"]), Invocation::Version);
    assert_eq!(version_line("client 2.1.196"), "tmux-wezterm-shim (client 2.1.196)");
}

#[test]
fn pane_lists_and_log_lines() {
    assert_eq!(live_panes(None), vec![]);
    assert_eq!(live_panes(Some(vec![pane(1, 2)])), vec![pane(1, 2)]);
    assert_eq!(log_entry(17, "INVOKE: x"), "[17] INVOKE: x\n");
}

/// Whether the two directions of the pairing agree.
fn agree(s: &State) -> bool {
    s.tmux_to_wez.entries().len() == s.wez_to_tmux.len()
        && s.wez_to_tmux.iter().all(|(w, t)| s.wez_id_for_tmux(t) == Some(*w))
}

#[test]
fn the_pairing_stays_in_order_through_a_session() {
    let e = env(Some("7"), None);
    let mut s = State::default();
    let mut panes = vec![pane(7, 1), pane(3, 0)];
    quick("list-panes", &["-F", "#{pane_id}"], &e, &mut s, &panes);
    assert!(agree(&s));
    let first = cmd_split_window(&words(&["-t", "%0", "-h"]), &e, &mut s);
    drive(first, &e, &mut s, &panes, &[("9\r\n", 0)], None, true);
    panes.push(pane(9, 1));
    assert_eq!(s.wez_id_for_tmux("%2"), Some(9));
    assert!(agree(&s));
    // The caller restarts in another pane and still claims an old id.
    let moved = env(Some("9"), Some("%0"));
    quick("display-message", &["-p", "#{pane_id}"], &moved, &mut s, &panes);
    assert_eq!(s.wez_id_for_tmux("%0"), Some(9));
    assert!(agree(&s));
    quick("kill-pane", &["-t", "%0"], &moved, &mut s, &panes);
    assert_eq!(s.wez_to_tmux.get(&9), None);
    assert!(agree(&s));
    quick("kill-window", &["-t", "@0"], &moved, &mut s, &panes);
    assert_eq!(s.wez_to_tmux.get(&3), None);
    assert!(agree(&s));
}

#[test]
fn shown_ids_are_targets() {
    let e = env(Some("7"), None);
    let mut s = State::default();
    let panes = [pane(3, 0), pane(7, 1), pane(9, 1)];
    let run = quick("display-message", &["-p", "#{window_id}"], &e, &mut s, &panes);
    let window = run.out.trim().to_string();
    assert_eq!(window, "@1");
    let run = quick("list-panes", &["-t", &window, "-F", "#{pane_id}"], &e, &mut s, &panes);
    let ids: Vec<&str> = run.out.lines().collect();
    assert_eq!(ids, ["%0", "%1"]);
    for (id, wez) in ids.iter().zip(["7", "9"]) {
        let run = quick("send-keys", &["-t", id, "x"], &e, &mut s, &panes);
        assert_eq!(run.calls[0][3], wez);
        assert_eq!(run.lists, 0);
    }
    let first = cmd_split_window(&words(&["-t", ids[0], "-P", "-F", "#{pane_id}"]), &e, &mut s);
    let run = drive(first, &e, &mut s, &panes, &[("12\n", 0)], None, true);
    let run = quick("send-keys", &["-t", run.out.trim(), "x"], &e, &mut s, &panes);
    assert_eq!(run.calls[0][3], "12");
}

#[test]
fn a_closed_pane_loses_its_policy() {
    let e = env(Some("7"), None);
    let mut s = State::default();
    s.alloc_pane(5);
    quick("set-option", &["-t", "%0", "remain-on-exit", "on"], &e, &mut s, &[]);
    let run = quick("respawn-pane", &["-t", "%0", "--", "x"], &e, &mut s, &[]);
    assert!(!run.files[0].1.contains("kill-pane"));
    quick("kill-pane", &["-t", "%0"], &e, &mut s, &[]);
    let run = quick("respawn-pane", &["-t", "5", "--", "x"], &e, &mut s, &[]);
    assert!(run.files[0].1.ends_with("\nwezterm cli kill-pane --pane-id 5\n"));
}

#[test]
fn what_is_stored_is_saved() {
    let e = env(Some("7"), None);
    let panes = [pane(7, 1)];
    for (sub, args, saves) in [
        ("set-environment", vec!["-g", "A", "1"], 1),
        ("set-option", vec!["-t", "7", "remain-on-exit", "on"], 1),
        ("set-option", vec!["-t", "team", "remain-on-exit", "on"], 1),
        ("set-option", vec!["-t", "7", "window-style", "x"], 0),
        ("new-session", vec!["-P", "-F", "x"], 1),
        ("new-window", vec!["-P", "-F", "x"], 1),
        ("list-panes", vec!["-F", "x"], 1),
        ("display-message", vec!["-p", "x"], 1),
        ("split-window", vec!["-t", "7"], 1),
        ("split-window", vec!["-t", "7", "-P", "-F", "x"], 1),
        ("kill-pane", vec!["-t", "7"], 1),
        ("kill-window", vec!["-t", "@1"], 1),
        ("has-session", vec![], 0),
        ("send-keys", vec!["x"], 0),
        ("capture-pane", vec!["-p"], 0),
        ("respawn-pane", vec!["-t", "7", "--", "x"], 0),
        ("show-environment", vec!["A"], 0),
    ] {
        let mut s = State::default();
        let run = quick(sub, &args, &e, &mut s, &panes);
        assert_eq!(run.saves, saves, "{} {:?}", sub, args);
    }
}

#[test]
fn closing_a_named_window_asks_for_the_panes_twice() {
    let e = env(Some("7"), None);
    let mut s = State::default();
    let run = quick("kill-window", &["-t", "team"], &e, &mut s, &[pane(7, 1)]);
    assert_eq!(run.lists, 2);
    let run = quick("kill-window", &["-t", "%9"], &e, &mut s, &[pane(7, 1)]);
    assert_eq!(run.lists, 1);
}

#[test]
fn values_may_begin_with_a_dash() {
    let e = env(None, None);
    let mut s = State::default();
    let run = quick("set-environment", &["-g", "A", "-5"], &e, &mut s, &[]);
    assert_eq!((run.saves, run.code), (1, 0));
    assert_eq!(s.env_vars.get("A").map(|v| v.as_str()), Some("-5"));
    assert_eq!(s.env_vars.entries().len(), 1);
    let run = quick("show-environment", &["-g", "A"], &e, &mut s, &[]);
    assert_eq!(run.out, "A=-5\n");
    // An option after the name is not the value, where a value follows.
    quick("set-environment", &["A", "-g", "B"], &e, &mut s, &[]);
    assert_eq!(s.env_vars.get("A").map(|v| v.as_str()), Some("B"));
    quick("set-environment", &["-g", "A", "-5", "x"], &e, &mut s, &[]);
    assert_eq!(s.env_vars.get("A").map(|v| v.as_str()), Some("x"));
    quick("set", &["A", "-g"], &e, &mut s, &[]);
    assert_eq!(s.env_vars.get("A").map(|v| v.as_str()), Some("-g"));
    // No value, no name.
    assert_eq!(quick("set-environment", &["-g", "B"], &e, &mut s, &[]).saves, 0);
    assert_eq!(quick("set-environment", &["-g", "-u"], &e, &mut s, &[]).saves, 0);
}

#[test]
fn only_set_takes_server_options() {
    let e = env(None, None);
    let mut s = State::default();
    assert_eq!(quick("set", &["-as", "X", "Y"], &e, &mut s, &[]).saves, 0);
    assert!(s.env_vars.entries().is_empty());
    let run = quick("set-environment", &["-as", "X", "Y"], &e, &mut s, &[]);
    assert_eq!((run.saves, run.code), (1, 0));
    assert_eq!(s.env_vars.get("X").map(|v| v.as_str()), Some("Y"));
    cmd_set_environment(&words(&["-as", "X", "Z"]), &mut s);
    assert_eq!(s.env_vars.get("X").map(|v| v.as_str()), Some("Z"));
    quick("set", &["X", "-as", "W"], &e, &mut s, &[]);
    assert_eq!(s.env_vars.get("X").map(|v| v.as_str()), Some("W"));
    assert_eq!(list_args(), words(&["cli", "list", "--format", "json"]));
}

#[test]
fn without_the_real_pane_names_reach_the_first_pane() {
    let panes = [pane(1, 0), pane(7, 1)];
    for wezterm in [None, Some("x"), Some("99")] {
        let e = env(wezterm, Some("%0"));
        let mut s = State::default();
        s.alloc_pane(7);
        assert_eq!(resolve_target("team", &mut s, &e, &panes), Some(1));
        let run = quick("display-message", &["-p", "#{pane_id} #{window_id}"], &e, &mut s, &panes);
        assert_eq!(run.out, "%0 @0\n");
        let run = quick("list-panes", &["-F", "#{pane_active}#{pane_current}"], &e, &mut s, &panes);
        assert_eq!(run.out, "00\n00\n");
    }
    let mut s = State::default();
    let run = quick("list-panes", &["-F", "#{pane_active}"], &env(None, None), &mut s, &[pane(0, 0)]);
    assert_eq!(run.out, "0\n");
}

#[test]
fn a_split_ignores_what_follows_the_dashes() {
    let e = env(Some("7"), None);
    let mut s = State::default();
    for tail in [vec![], vec!["-h", "-t", "9", "-P"], vec!["--", "x"]] {
        let mut args = vec!["-t", "3", "-v", "--"];
        args.extend(tail);
        let run = quick("split-window", &args, &e, &mut s, &[]);
        assert_eq!(
            run.calls,
            vec![words(&["cli", "split-pane", "--pane-id", "3", "--bottom"])]
        );
        assert_eq!(run.out, "");
    }
}

#[test]
fn killing_a_pane_again_changes_nothing() {
    let e = env(Some("7"), None);
    let mut s = State::default();
    s.alloc_pane(5);
    quick("kill-pane", &["-t", "5"], &e, &mut s, &[]);
    quick("kill-pane", &["-t", "5"], &e, &mut s, &[]);
    assert!(s.wez_to_tmux.is_empty() && s.tmux_to_wez.entries().is_empty());
    // Its id is not given to another pane.
    assert_eq!(s.alloc_pane(6), "%1");
}

#[test]
fn the_log_has_its_wording() {
    let t = |s: &str| s.to_string();
    let show = |n: Notice<String, Vec<String>>| show_notice(&n, "Q", "A");
    for (notice, line) in [
        (
            Notice::Unresolved { command: Subcommand::KillPane, target: t("%9") },
            "  kill-pane: could not resolve target=%9",
        ),
        (
            Notice::SplitFailed { exit: -1 },
            "  split-pane failed (exit=-1); falling back to synthetic pane id",
        ),
        (
            Notice::SyntheticId,
            "  could not parse split-pane stdout; allocating synthetic id",
        ),
        (
            Notice::SetTitle { target: t("%1"), title: t("x") },
            "  select-pane: set-tab-title target=%1 title=x",
        ),
        (
            Notice::Policy { target: t("%1"), pane: 5, value: t("on") },
            "  set-option: remain-on-exit target=%1 wez_target=5 value=on",
        ),
        (Notice::NothingToRun, "  respawn-pane: no cmd after --; nothing to do"),
        (Notice::UsingBash { bash: t("b") }, "  respawn-pane: using bash=b"),
        (
            Notice::NoBash,
            "  respawn-pane: no bash.exe found (Git for Windows required); launcher will fail",
        ),
        (
            Notice::Typing { target: t("%1"), pane: 5, literal: true, text: t("x") },
            "  send-keys: target=%1 wez_target=5 literal=true text=Q",
        ),
        (
            Notice::NotPrinted,
            "  capture-pane: -p not set; nothing to output (no tmux paste-buffer equivalent)",
        ),
        (Notice::SetVariable { name: t("A"), value: t("1") }, "  set-environment: A=1"),
        (
            Notice::KillPane { target: t("%1"), pane: 5 },
            "  kill-pane: target=%1 wez_target=5",
        ),
        (Notice::KillPaneExit { exit: 1 }, "  kill-pane: wezterm exit=1"),
        (Notice::KillWindow { window: 3 }, "  kill-window: window_id=3"),
        (
            Notice::KilledInWindow { pane: 5, exit: 0 },
            "  kill-window: killed pane_id=5 exit=0",
        ),
        (Notice::NoOp { subcommand: t("setw") }, "NOOP: setw (known-accepted no-op)"),
        (
            Notice::Unhandled { subcommand: t("foo"), args: words(&["x"]) },
            "UNHANDLED: subcommand=Q args=A",
        ),
    ] {
        assert_eq!(show(notice), line);
    }
    for code in [i32::MIN, -1, 0, 1, i32::MAX] {
        assert_eq!(show_code(code), code.to_string());
    }
    assert_eq!(show_invocation("[]"), "INVOKE: []");
    assert_eq!(show_call("w", &words(&["cli", "list"])), "  wezterm cmd: w cli list");
    assert_eq!(show_result(2, "o", "e"), "  wezterm exit=2 stdout=o stderr=e");
    assert_eq!(show_exit(1), "  -> exit 1");
}
