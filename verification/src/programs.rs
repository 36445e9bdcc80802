//! Which programs the shim runs.

use crate::text::{opt_text, texts};
use vstd::prelude::*;

verus! {

/// The WezTerm program: the one on the search path, or else the one in its
/// default place below the program directory.
pub open spec fn wezterm_program(on_path: bool, program_files: Option<Seq<char>>) -> Seq<char> {
    if on_path {
        "wezterm"@
    } else {
        (match program_files {
            Some(dir) => dir,
            None => "C:\\Program Files"@,
        }) + "\\WezTerm\\wezterm.exe"@
    }
}

/// The program to run for WezTerm. `on_path` says whether `wezterm` could be
/// started; `program_files` is the value of `ProgramFiles`, where it is set.
pub fn wezterm_bin(on_path: bool, program_files: Option<String>) -> (r: String)
    ensures
        r@ == wezterm_program(on_path, opt_text(program_files)),
{
    if on_path {
        return "wezterm".to_owned();
    }
    let mut dir: String = match program_files {
        Some(dir) => dir,
        None => "C:\\Program Files".to_owned(),
    };
    dir.append("\\WezTerm\\wezterm.exe");
    dir
}

/// Where bash may be, best place first: the shell of the environment, if one
/// is named, then the two places where Git for Windows puts it.
pub open spec fn bash_places(shell: Option<Seq<char>>) -> Seq<Seq<char>> {
    let git = seq![
        "C:\\Program Files\\Git\\bin\\bash.exe"@,
        "C:\\Program Files\\Git\\usr\\bin\\bash.exe"@,
    ];
    match shell {
        Some(s) if s.len() > 0 => seq![s] + git,
        _ => git,
    }
}

/// The first of `places` that is a file.
pub open spec fn first_file(places: Seq<Seq<char>>, is_file: Seq<bool>) -> Option<Seq<char>>
    decreases places.len(),
{
    if places.len() == 0 || is_file.len() == 0 {
        None
    } else if is_file[0] {
        Some(places[0])
    } else {
        first_file(places.skip(1), is_file.skip(1))
    }
}

/// Where to look for bash. `shell` is the value of `SHELL`, where it is set.
pub fn bash_candidates(shell: Option<String>) -> (r: Vec<String>)
    ensures
        texts(r@) == bash_places(opt_text(shell)),
{
    let mut places: Vec<String> = Vec::new();
    let ghost named = opt_text(shell);
    if let Some(s) = shell {
        if !s.as_str().is_empty() {
            places.push(s);
        }
    }
    places.push("C:\\Program Files\\Git\\bin\\bash.exe".to_owned());
    places.push("C:\\Program Files\\Git\\usr\\bin\\bash.exe".to_owned());
    assert(texts(places@) =~= bash_places(named));
    places
}

/// The bash file to use, given which of the candidates are files.
pub fn bash_file(candidates: &Vec<String>, is_file: &Vec<bool>) -> (r: Option<String>)
    ensures
        opt_text(r) == first_file(texts(candidates@), is_file@),
{
    let ghost places = texts(candidates@);
    assert(places.skip(0) =~= places);
    assert(is_file@.skip(0) =~= is_file@);
    let mut i: usize = 0;
    while i < candidates.len() && i < is_file.len()
        invariant
            places == texts(candidates@),
            i <= candidates@.len(),
            i <= is_file@.len(),
            first_file(places, is_file@) == first_file(
                places.skip(i as int),
                is_file@.skip(i as int),
            ),
        decreases candidates@.len() - i,
    {
        if is_file[i] {
            return Some(candidates[i].clone());
        }
        proof {
            assert(places.skip(i as int).skip(1) =~= places.skip(i + 1));
            assert(is_file@.skip(i as int).skip(1) =~= is_file@.skip(i + 1));
        }
        i += 1;
    }
    None
}

/// The program to run for bash: a file that was found, or else `bash` if the
/// search path has it.
pub fn bash_bin(file: Option<String>, on_path: bool) -> (r: Option<String>)
    ensures
        opt_text(r) == (match opt_text(file) {
            Some(f) => Some(f),
            None => if on_path {
                Some("bash"@)
            } else {
                None
            },
        }),
{
    match file {
        Some(f) => Some(f),
        None => if on_path {
            Some("bash".to_owned())
        } else {
            None
        },
    }
}

} // verus!
