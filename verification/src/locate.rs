//! Where the browser, further interpreters and the worker script are looked
//! for. The caller looks; what is here says where, and which find counts.

use vstd::prelude::*;

use crate::python::plain_versions;
use crate::text::{join2, push_string, texts};

verus! {

/// The kind of system a program runs on.
#[derive(Debug, Clone, Copy, PartialEq, Eq, Structural)]
pub enum Platform {
    Windows,
    MacOs,
    Linux,
}

/// Where Chrome is installed, by platform. `home` is the user's directory,
/// or empty where it is not known.
pub open spec fn chrome_places(platform: Platform, home: Seq<char>) -> Seq<Seq<char>> {
    match platform {
        Platform::Windows => seq![
            "C:\\Program Files\\Google\\Chrome\\Application\\chrome.exe"@,
            "C:\\Program Files (x86)\\Google\\Chrome\\Application\\chrome.exe"@,
            home + "\\AppData\\Local\\Google\\Chrome\\Application\\chrome.exe"@,
        ],
        Platform::MacOs => seq![
            "/Applications/Google Chrome.app/Contents/MacOS/Google Chrome"@,
            home + "/Applications/Google Chrome.app/Contents/MacOS/Google Chrome"@,
        ],
        Platform::Linux => seq![
            "/usr/bin/google-chrome"@,
            "/usr/bin/google-chrome-stable"@,
            "/usr/bin/chromium"@,
            "/usr/bin/chromium-browser"@,
        ],
    }
}

fn push_str(out: &mut Vec<String>, s: &str)
    ensures
        texts(final(out)@) == texts(old(out)@).push(s@),
{
    push_string(out, String::from_str(s));
}

/// The places where Chrome is looked for, in the order of looking.
pub fn chrome_candidates(platform: Platform, home: &str) -> (out: Vec<String>)
    ensures
        texts(out@) == chrome_places(platform, home@),
{
    let mut out: Vec<String> = Vec::new();
    assert(texts(out@) =~= Seq::empty());
    match platform {
        Platform::Windows => {
            push_str(&mut out, "C:\\Program Files\\Google\\Chrome\\Application\\chrome.exe");
            push_str(&mut out, "C:\\Program Files (x86)\\Google\\Chrome\\Application\\chrome.exe");
            push_string(
                &mut out,
                join2(home, "\\AppData\\Local\\Google\\Chrome\\Application\\chrome.exe"),
            );
        },
        Platform::MacOs => {
            push_str(&mut out, "/Applications/Google Chrome.app/Contents/MacOS/Google Chrome");
            push_string(
                &mut out,
                join2(home, "/Applications/Google Chrome.app/Contents/MacOS/Google Chrome"),
            );
        },
        Platform::Linux => {
            push_str(&mut out, "/usr/bin/google-chrome");
            push_str(&mut out, "/usr/bin/google-chrome-stable");
            push_str(&mut out, "/usr/bin/chromium");
            push_str(&mut out, "/usr/bin/chromium-browser");
        },
    }
    assert(texts(out@) =~= chrome_places(platform, home@));
    out
}

/// Whether `i` is the first place that exists.
pub open spec fn is_first_existing(exists: Seq<bool>, i: int) -> bool {
    &&& 0 <= i < exists.len()
    &&& exists[i]
    &&& forall|j: int| 0 <= j < i ==> !exists[j]
}

/// The first of the places that exists, given for each place whether it
/// does.
pub fn detect_chrome_path(places: &Vec<String>, exists: &Vec<bool>) -> (r: Option<String>)
    requires
        places.len() == exists.len(),
    ensures
        match r {
            Some(p) => exists|i: int| is_first_existing(exists@, i) && p@ == places[i]@,
            None => forall|i: int| 0 <= i < exists.len() ==> !exists[i],
        },
{
    let mut i: usize = 0;
    while i < places.len()
        invariant
            i <= places.len(),
            places.len() == exists.len(),
            forall|j: int| 0 <= j < i ==> !exists[j],
        decreases places.len() - i,
    {
        if exists[i] {
            assert(is_first_existing(exists@, i as int));
            return Some(places[i].clone());
        }
        i += 1;
    }
    None
}

/// The places of a version on Windows where further interpreters are looked
/// for.
pub open spec fn windows_install_places(home: Seq<char>, version: Seq<char>) -> Seq<Seq<char>> {
    seq!["C:\\Python"@ + version + "\\python.exe"@] + if home.len() > 0 {
        seq![home + "\\AppData\\Local\\Programs\\Python\\Python"@ + version + "\\python.exe"@]
    } else {
        Seq::empty()
    }
}

/// The places of the first `n` versions on Windows.
pub open spec fn windows_installs(home: Seq<char>, n: nat) -> Seq<Seq<char>>
    decreases n,
{
    if n == 0 {
        Seq::empty()
    } else {
        windows_installs(home, (n - 1) as nat) + windows_install_places(
            home,
            plain_versions()[n - 1],
        )
    }
}

/// Where interpreters are installed, beyond those on the search path.
pub open spec fn install_places(windows: bool, home: Seq<char>) -> Seq<Seq<char>> {
    if windows {
        windows_installs(home, 5) + if home.len() > 0 {
            seq![
                home + "\\Anaconda3\\python.exe"@,
                home + "\\miniconda3\\python.exe"@,
                home + "\\anaconda3\\python.exe"@,
                home + "\\Miniconda3\\python.exe"@,
            ]
        } else {
            Seq::empty()
        }
    } else {
        seq!["/usr/bin/python3"@, "/usr/local/bin/python3"@, "/opt/homebrew/bin/python3"@]
            + if home.len() > 0 {
            seq![
                home + "/.pyenv/shims/python3"@,
                home + "/anaconda3/bin/python"@,
                home + "/miniconda3/bin/python"@,
                home + "/mambaforge/bin/python"@,
                home + "/miniforge3/bin/python"@,
            ]
        } else {
            Seq::empty()
        }
    }
}

fn windows_version_name(i: usize) -> (r: &'static str)
    requires
        i < 5,
    ensures
        r@ == plain_versions()[i as int],
{
    if i == 0 {
        "313"
    } else if i == 1 {
        "312"
    } else if i == 2 {
        "311"
    } else if i == 3 {
        "310"
    } else {
        "39"
    }
}

/// The places where further interpreters are looked for, in the order of
/// looking. The caller keeps those that exist.
pub fn install_candidates(windows: bool, home: &str) -> (out: Vec<String>)
    ensures
        texts(out@) == install_places(windows, home@),
{
    let mut out: Vec<String> = Vec::new();
    assert(texts(out@) =~= Seq::empty());
    if windows {
        assert(texts(out@) =~= windows_installs(home@, 0));
        let mut v: usize = 0;
        while v < 5
            invariant
                v <= 5,
                texts(out@) == windows_installs(home@, v as nat),
            decreases 5 - v,
        {
            let ghost before = texts(out@);
            let version = windows_version_name(v);
            push_string(
                &mut out,
                String::from_str("C:\\Python").concat(version).concat("\\python.exe"),
            );
            if !home.is_empty() {
                push_string(
                    &mut out,
                    String::from_str(home).concat(
                        "\\AppData\\Local\\Programs\\Python\\Python",
                    ).concat(version).concat("\\python.exe"),
                );
            }
            assert(texts(out@) =~= before + windows_install_places(
                home@,
                plain_versions()[v as int],
            ));
            v += 1;
        }
        let ghost base = texts(out@);
        if !home.is_empty() {
            push_string(&mut out, join2(home, "\\Anaconda3\\python.exe"));
            push_string(&mut out, join2(home, "\\miniconda3\\python.exe"));
            push_string(&mut out, join2(home, "\\anaconda3\\python.exe"));
            push_string(&mut out, join2(home, "\\Miniconda3\\python.exe"));
        }
        assert(texts(out@) =~= install_places(windows, home@));
    } else {
        push_str(&mut out, "/usr/bin/python3");
        push_str(&mut out, "/usr/local/bin/python3");
        push_str(&mut out, "/opt/homebrew/bin/python3");
        if !home.is_empty() {
            push_string(&mut out, join2(home, "/.pyenv/shims/python3"));
            push_string(&mut out, join2(home, "/anaconda3/bin/python"));
            push_string(&mut out, join2(home, "/miniconda3/bin/python"));
            push_string(&mut out, join2(home, "/mambaforge/bin/python"));
            push_string(&mut out, join2(home, "/miniforge3/bin/python"));
        }
        assert(texts(out@) =~= install_places(windows, home@));
    }
    out
}

/// Where the worker script is kept.
#[derive(Debug, Clone, Copy, PartialEq, Eq, Structural)]
pub enum ScriptsDir {
    /// The directory in which the program was started.
    Current,
    /// The directory above it.
    Parent,
    /// The directory four levels above the program file.
    ProjectRoot,
    /// The `scripts` directory among the application's data.
    DataDir,
}

/// The directory of the worker script. A program built for development
/// takes the first of three directories that holds the script: the current
/// one, the one above, and the root of the project, where the program file
/// lies deep enough to have one. Every other program, and one that finds the
/// script in none of the three, keeps it among the application's data.
pub open spec fn scripts_dir(
    development: bool,
    in_current: bool,
    in_parent: bool,
    in_project_root: Option<bool>,
) -> ScriptsDir {
    if !development {
        ScriptsDir::DataDir
    } else if in_current {
        ScriptsDir::Current
    } else if in_parent {
        ScriptsDir::Parent
    } else if in_project_root == Some(true) {
        ScriptsDir::ProjectRoot
    } else {
        ScriptsDir::DataDir
    }
}

/// Chooses the directory of the worker script, given where the script was
/// seen. `in_project_root` is `None` where the program file does not lie
/// four levels deep.
pub fn get_scripts_dir(
    development: bool,
    in_current: bool,
    in_parent: bool,
    in_project_root: Option<bool>,
) -> (r: ScriptsDir)
    ensures
        r == scripts_dir(development, in_current, in_parent, in_project_root),
{
    if !development {
        return ScriptsDir::DataDir;
    }
    if in_current {
        return ScriptsDir::Current;
    }
    if in_parent {
        return ScriptsDir::Parent;
    }
    match in_project_root {
        Some(true) => ScriptsDir::ProjectRoot,
        _ => ScriptsDir::DataDir,
    }
}

/// The name of the worker script.
pub fn script_file_name() -> (r: &'static str)
    ensures
        r@ == "auto.py"@,
{
    "auto.py"
}

/// The name of the directory that holds the application's data.
pub fn data_dir_name() -> (r: &'static str)
    ensures
        r@ == ".kiro-account-manager"@,
{
    ".kiro-account-manager"
}

} // verus!
