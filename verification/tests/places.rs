use std::path::Path;
use tmux_shim::launcher::{respawn_script, show_export, strip_breaks, wrapper_script};
use tmux_shim::paths::{
    join_path, lock_path, log_path, state_dir, state_path, temp_path, PathStyle,
};
use tmux_shim::programs::{bash_bin, bash_candidates, bash_file, wezterm_bin};
use tmux_shim::state::State;

#[test]
fn unix_paths_agree_with_std() {
    for dir in ["", "/", "a", "a/", "/a/b", "C:", "a\\"] {
        assert_eq!(
            join_path(PathStyle::Unix, dir, "f.txt"),
            Path::new(dir).join("f.txt").to_string_lossy()
        );
    }
}

#[test]
fn windows_paths_use_backslashes() {
    let w = PathStyle::Windows;
    assert_eq!(join_path(w, "C:\\a", "f"), "C:\\a\\f");
    assert_eq!(join_path(w, "C:\\a\\", "f"), "C:\\a\\f");
    assert_eq!(join_path(w, "C:/a/", "f"), "C:/a/f");
    assert_eq!(join_path(w, "C:", "f"), "C:f");
    assert_eq!(join_path(w, "1:", "f"), "1:\\f");
    assert_eq!(join_path(w, "", "f"), "f");
}

#[test]
fn verbatim_paths_are_normalised() {
    for (dir, path) in [
        (r"\\?\C:\a", r"\\?\C:\a\f"),
        (r"\\?\C:\a/", r"\\?\C:\a/\f"),
        (r"\\?\C:\a\\b\", r"\\?\C:\a\b\f"),
        (r"\\?\C:", r"\\?\C:\f"),
        (r"\\?\C:/a\b", r"\\?\C:\a\b\f"),
        (r"\\?\C:x\b", r"\\?\C:x\b\f"),
        (r"\\?\", r"\\?\\f"),
        (r"\\?\pipe\\b", r"\\?\pipe\b\f"),
        (r"\\?\UNC\srv\share", r"\\?\UNC\srv\share\f"),
        (r"\\?\UNC\srv\share\\a\", r"\\?\UNC\srv\share\a\f"),
        (r"\\?\UNC\srv", r"\\?\UNC\srv\f"),
        (r"\\?\UNC\srv\\a", r"\\?\UNC\srv\a\f"),
        // These are not verbatim.
        (r"//?/C:/a/", r"//?/C:/a/f"),
        (r"\\srv\share", r"\\srv\share\f"),
        (r"\\.\dev\", r"\\.\dev\f"),
    ] {
        assert_eq!(join_path(PathStyle::Windows, dir, "f"), path, "{}", dir);
    }
    assert_eq!(
        state_dir(PathStyle::Windows, Some(r"\\?\C:\a/".to_string())),
        r"\\?\C:\a/\wezterm-tmux-shim"
    );
}

#[test]
fn files_are_kept_below_the_local_data() {
    let w = PathStyle::Windows;
    let dir = state_dir(w, Some("D:\\data".to_string()));
    assert_eq!(dir, "D:\\data\\wezterm-tmux-shim");
    assert_eq!(
        state_dir(w, None),
        "C:\\Users\\Default\\AppData\\Local\\wezterm-tmux-shim"
    );
    assert_eq!(state_path(w, &dir), "D:\\data\\wezterm-tmux-shim\\state.json");
    assert_eq!(log_path(w, &dir), "D:\\data\\wezterm-tmux-shim\\shim.log");
    assert_eq!(lock_path(w, &dir), "D:\\data\\wezterm-tmux-shim\\state.lock");
    assert_eq!(temp_path(w, &dir), "D:\\data\\wezterm-tmux-shim\\state.json.tmp");
}

#[test]
fn wezterm_is_found() {
    assert_eq!(wezterm_bin(true, Some("X".to_string())), "wezterm");
    assert_eq!(
        wezterm_bin(false, Some("D:\\P".to_string())),
        "D:\\P\\WezTerm\\wezterm.exe"
    );
    assert_eq!(
        wezterm_bin(false, None),
        "C:\\Program Files\\WezTerm\\wezterm.exe"
    );
}

#[test]
fn bash_is_found_in_order_of_preference() {
    let git = "C:\\Program Files\\Git\\bin\\bash.exe".to_string();
    let usr = "C:\\Program Files\\Git\\usr\\bin\\bash.exe".to_string();
    let shell = "/bin/zsh".to_string();
    let all = bash_candidates(Some(shell.clone()));
    assert_eq!(all, vec![shell.clone(), git.clone(), usr.clone()]);
    assert_eq!(bash_candidates(Some(String::new())), vec![git.clone(), usr.clone()]);
    assert_eq!(bash_candidates(None), vec![git.clone(), usr.clone()]);
    assert_eq!(bash_file(&all, &vec![true, true, true]), Some(shell));
    assert_eq!(bash_file(&all, &vec![false, true, true]), Some(git));
    assert_eq!(bash_file(&all, &vec![false, false, true]), Some(usr.clone()));
    assert_eq!(bash_file(&all, &vec![false, false, false]), None);
    assert_eq!(bash_bin(Some(usr.clone()), true), Some(usr));
    assert_eq!(bash_bin(None, true), Some("bash".to_string()));
    assert_eq!(bash_bin(None, false), None);
}

#[test]
fn exports_are_quoted() {
    assert_eq!(strip_breaks("a\r\nb\nc\r"), "abc");
    assert_eq!(show_export("N", "v"), "export N='v'");
    assert_eq!(show_export("N", ""), "export N=''");
    assert_eq!(show_export("N", "it's"), "export N='it'\\''s'");
    assert_eq!(show_export("N", "''"), "export N=''\\'''\\'''");
    assert_eq!(show_export("N", "a\n; rm $X `y` \\"), "export N='a; rm $X `y` \\'");
}

#[test]
fn scripts_end_their_lines_with_line_feeds() {
    let mut s = State::default();
    s.set_env("A".to_string(), "1\r\n2".to_string());
    let script = respawn_script(&s, 3, "run");
    assert_eq!(
        script,
        "#!/usr/bin/env bash\nexport A='12'\nrun\nrc=$?\nwezterm cli kill-pane --pane-id 3\n"
    );
    assert!(!script.contains('\r'));
    assert_eq!(wrapper_script("b", "s"), "@echo off\r\n\"b\" \"s\"\r\n");
}
