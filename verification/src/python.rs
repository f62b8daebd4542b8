//! Where an interpreter for the worker script is looked for, and how the
//! search is concluded from what the probes found.
//!
//! The caller runs the probes: it starts each candidate with `--version` and
//! reports which of them works.

use vstd::prelude::*;

use crate::text::{
    before_first, decimal, join2, push_string, str_eq, take_before, texts, trim, trimmed,
    u64_to_string,
};

verus! {

/// The versions that are looked for, newest first, as they are written in
/// the names of programs.
pub open spec fn dotted_versions() -> Seq<Seq<char>> {
    seq!["3.13"@, "3.12"@, "3.11"@, "3.10"@, "3.9"@, "3.8"@]
}

/// The versions that are looked for, newest first, as they are written in
/// the names of directories on Windows.
pub open spec fn plain_versions() -> Seq<Seq<char>> {
    seq!["313"@, "312"@, "311"@, "310"@, "39"@, "38"@]
}

/// The directories in which a system keeps its interpreters.
pub open spec fn unix_bin_dirs() -> Seq<Seq<char>> {
    seq!["/usr/bin/"@, "/usr/local/bin/"@, "/opt/homebrew/bin/"@]
}

/// How many versions a version manager is searched for.
pub const MANAGED_VERSIONS: usize = 5;

/// The highest patch level that a version manager is searched for.
pub const HIGHEST_PATCH: usize = 20;

fn dotted_version(i: usize) -> (r: &'static str)
    requires
        i < 6,
    ensures
        r@ == dotted_versions()[i as int],
{
    if i == 0 {
        "3.13"
    } else if i == 1 {
        "3.12"
    } else if i == 2 {
        "3.11"
    } else if i == 3 {
        "3.10"
    } else if i == 4 {
        "3.9"
    } else {
        "3.8"
    }
}

fn plain_version(i: usize) -> (r: &'static str)
    requires
        i < 6,
    ensures
        r@ == plain_versions()[i as int],
{
    if i == 0 {
        "313"
    } else if i == 1 {
        "312"
    } else if i == 2 {
        "311"
    } else if i == 3 {
        "310"
    } else if i == 4 {
        "39"
    } else {
        "38"
    }
}

fn unix_bin_dir(i: usize) -> (r: &'static str)
    requires
        i < 3,
    ensures
        r@ == unix_bin_dirs()[i as int],
{
    if i == 0 {
        "/usr/bin/"
    } else if i == 1 {
        "/usr/local/bin/"
    } else {
        "/opt/homebrew/bin/"
    }
}

/// The interpreters of each version in each system directory: all
/// directories for the newest version first.
pub open spec fn unix_versioned() -> Seq<Seq<char>> {
    Seq::new(18, |k: int| unix_bin_dirs()[k % 3] + "python"@ + dotted_versions()[k / 3])
}

/// The interpreters that a version manager keeps below `home`: every patch
/// level of the newest version first.
pub open spec fn unix_managed(home: Seq<char>) -> Seq<Seq<char>> {
    Seq::new(
        105,
        |k: int|
            home + "/.pyenv/versions/"@ + dotted_versions()[k / 21] + "."@ + decimal(
                (k % 21) as nat,
            ) + "/bin/python"@,
    )
}

/// What is tried below the home directory on a Unix system.
pub open spec fn unix_home_candidates(home: Seq<char>) -> Seq<Seq<char>> {
    seq![home + "/.pyenv/shims/python"@, home + "/.pyenv/shims/python3"@] + unix_managed(home)
        + seq![
        home + "/anaconda3/bin/python"@,
        home + "/miniconda3/bin/python"@,
        home + "/mambaforge/bin/python"@,
        home + "/miniforge3/bin/python"@,
        home + "/.asdf/shims/python"@,
        home + "/.asdf/shims/python3"@,
    ]
}

/// What is tried on a Unix system, in the order of trying.
pub open spec fn unix_candidates(home: Seq<char>) -> Seq<Seq<char>> {
    seq![
        "python3"@,
        "python"@,
        "/usr/bin/python3"@,
        "/usr/local/bin/python3"@,
        "/opt/homebrew/bin/python3"@,
    ] + unix_versioned() + if home.len() > 0 {
        unix_home_candidates(home)
    } else {
        Seq::empty()
    }
}

/// The places of one version on Windows: three that every user shares and,
/// where the home directory is known, the user's own.
pub open spec fn windows_places(home: Seq<char>, version: Seq<char>) -> Seq<Seq<char>> {
    seq![
        "C:\\Python"@ + version + "\\python.exe"@,
        "C:\\Program Files\\Python"@ + version + "\\python.exe"@,
        "C:\\Program Files (x86)\\Python"@ + version + "\\python.exe"@,
    ] + if home.len() > 0 {
        seq![home + "\\AppData\\Local\\Programs\\Python\\Python"@ + version + "\\python.exe"@]
    } else {
        Seq::empty()
    }
}

/// The places of the first `n` versions on Windows.
pub open spec fn windows_versioned(home: Seq<char>, n: nat) -> Seq<Seq<char>>
    decreases n,
{
    if n == 0 {
        Seq::empty()
    } else {
        windows_versioned(home, (n - 1) as nat) + windows_places(
            home,
            plain_versions()[n - 1],
        )
    }
}

/// The interpreters that a version manager keeps below `home` on Windows.
pub open spec fn windows_managed(home: Seq<char>) -> Seq<Seq<char>> {
    Seq::new(
        105,
        |k: int|
            home + "\\.pyenv\\pyenv-win\\versions\\"@ + dotted_versions()[k / 21] + "."@
                + decimal((k % 21) as nat) + "\\python.exe"@,
    )
}

/// What is tried below the home directory on Windows, after the places of
/// the versions.
pub open spec fn windows_home_candidates(home: Seq<char>) -> Seq<Seq<char>> {
    seq![
        home + "\\.pyenv\\pyenv-win\\shims\\python.exe"@,
        home + "\\.pyenv\\pyenv-win\\shims\\python3.exe"@,
    ] + windows_managed(home) + seq![
        home + "\\Anaconda3\\python.exe"@,
        home + "\\miniconda3\\python.exe"@,
        home + "\\anaconda3\\python.exe"@,
        home + "\\Miniconda3\\python.exe"@,
    ]
}

/// What is tried on Windows, in the order of trying.
pub open spec fn windows_candidates(home: Seq<char>) -> Seq<Seq<char>> {
    seq!["python"@, "python3"@, "py"@] + windows_versioned(home, 6) + if home.len() > 0 {
        windows_home_candidates(home)
    } else {
        Seq::empty()
    }
}

/// What is tried, in the order of trying.
pub open spec fn candidates(windows: bool, home: Seq<char>) -> Seq<Seq<char>> {
    if windows {
        windows_candidates(home)
    } else {
        unix_candidates(home)
    }
}

fn push_str(out: &mut Vec<String>, s: &str)
    ensures
        texts(final(out)@) == texts(old(out)@).push(s@),
{
    push_string(out, String::from_str(s));
}

fn push_managed(out: &mut Vec<String>, home: &str, head: &str, tail: &str)
    ensures
        texts(final(out)@) == texts(old(out)@) + Seq::new(
            105,
            |k: int|
                home@ + head@ + dotted_versions()[k / 21] + "."@ + decimal((k % 21) as nat)
                    + tail@,
        ),
{
    let ghost all = Seq::new(
        105,
        |k: int|
            home@ + head@ + dotted_versions()[k / 21] + "."@ + decimal((k % 21) as nat) + tail@,
    );
    let ghost before = texts(out@);
    assert(before + all.take(0) =~= before);
    let mut v: usize = 0;
    while v < MANAGED_VERSIONS
        invariant
            v <= 5,
            texts(out@) == before + all.take(21 * v),
            all == Seq::new(
                105,
                |k: int|
                    home@ + head@ + dotted_versions()[k / 21] + "."@ + decimal((k % 21) as nat)
                        + tail@,
            ),
        decreases 5 - v,
    {
        let mut patch: usize = 0;
        while patch <= HIGHEST_PATCH
            invariant
                v < 5,
                patch <= 21,
                texts(out@) == before + all.take(21 * v + patch),
                all == Seq::new(
                    105,
                    |k: int|
                        home@ + head@ + dotted_versions()[k / 21] + "."@ + decimal(
                            (k % 21) as nat,
                        ) + tail@,
                ),
            decreases 21 - patch,
        {
            let path = String::from_str(home).concat(head).concat(dotted_version(v)).concat(
                ".",
            ).concat(u64_to_string(patch as u64).as_str()).concat(tail);
            proof {
                let k = 21 * v + patch;
                assert(k / 21 == v && k % 21 == patch);
                assert(path@ == all[k]);
                assert(all.take(k + 1) =~= all.take(k).push(all[k]));
            }
            push_string(out, path);
            assert(texts(out@) =~= before + all.take(21 * v + patch + 1));
            patch += 1;
        }
        v += 1;
    }
    assert(all.take(105) =~= all);
}

fn unix_list(home: &str) -> (out: Vec<String>)
    ensures
        texts(out@) == unix_candidates(home@),
{
    let mut out: Vec<String> = Vec::new();
    assert(texts(out@) =~= Seq::empty());
    push_str(&mut out, "python3");
    push_str(&mut out, "python");
    push_str(&mut out, "/usr/bin/python3");
    push_str(&mut out, "/usr/local/bin/python3");
    push_str(&mut out, "/opt/homebrew/bin/python3");
    let ghost head = seq![
        "python3"@,
        "python"@,
        "/usr/bin/python3"@,
        "/usr/local/bin/python3"@,
        "/opt/homebrew/bin/python3"@,
    ];
    assert(texts(out@) =~= head + unix_versioned().take(0));
    let mut v: usize = 0;
    while v < 6
        invariant
            v <= 6,
            texts(out@) == head + unix_versioned().take(3 * v),
        decreases 6 - v,
    {
        let mut d: usize = 0;
        while d < 3
            invariant
                v < 6,
                d <= 3,
                texts(out@) == head + unix_versioned().take(3 * v + d),
            decreases 3 - d,
        {
            let path = String::from_str(unix_bin_dir(d)).concat("python").concat(
                dotted_version(v),
            );
            proof {
                let k = 3 * v + d;
                assert(k / 3 == v && k % 3 == d);
                assert(path@ == unix_versioned()[k]);
                assert(unix_versioned().take(k + 1) =~= unix_versioned().take(k).push(
                    unix_versioned()[k],
                ));
            }
            push_string(&mut out, path);
            assert(texts(out@) =~= head + unix_versioned().take(3 * v + d + 1));
            d += 1;
        }
        v += 1;
    }
    assert(unix_versioned().take(18) =~= unix_versioned());
    if !home.is_empty() {
        let ghost base = texts(out@);
        push_string(&mut out, join2(home, "/.pyenv/shims/python"));
        push_string(&mut out, join2(home, "/.pyenv/shims/python3"));
        push_managed(&mut out, home, "/.pyenv/versions/", "/bin/python");
        assert(Seq::new(
            105,
            |k: int|
                home@ + "/.pyenv/versions/"@ + dotted_versions()[k / 21] + "."@ + decimal(
                    (k % 21) as nat,
                ) + "/bin/python"@,
        ) =~= unix_managed(home@));
        push_string(&mut out, join2(home, "/anaconda3/bin/python"));
        push_string(&mut out, join2(home, "/miniconda3/bin/python"));
        push_string(&mut out, join2(home, "/mambaforge/bin/python"));
        push_string(&mut out, join2(home, "/miniforge3/bin/python"));
        push_string(&mut out, join2(home, "/.asdf/shims/python"));
        push_string(&mut out, join2(home, "/.asdf/shims/python3"));
        assert(texts(out@) =~= base + unix_home_candidates(home@));
    } else {
        assert(texts(out@) =~= texts(out@) + Seq::<Seq<char>>::empty());
    }
    out
}

fn windows_list(home: &str) -> (out: Vec<String>)
    ensures
        texts(out@) == windows_candidates(home@),
{
    let mut out: Vec<String> = Vec::new();
    assert(texts(out@) =~= Seq::empty());
    push_str(&mut out, "python");
    push_str(&mut out, "python3");
    push_str(&mut out, "py");
    let ghost head = seq!["python"@, "python3"@, "py"@];
    assert(texts(out@) =~= head + windows_versioned(home@, 0));
    let mut v: usize = 0;
    while v < 6
        invariant
            v <= 6,
            texts(out@) == head + windows_versioned(home@, v as nat),
        decreases 6 - v,
    {
        let ghost before = texts(out@);
        let version = plain_version(v);
        push_string(&mut out, String::from_str("C:\\Python").concat(version).concat("\\python.exe"));
        push_string(
            &mut out,
            String::from_str("C:\\Program Files\\Python").concat(version).concat("\\python.exe"),
        );
        push_string(
            &mut out,
            String::from_str("C:\\Program Files (x86)\\Python").concat(version).concat(
                "\\python.exe",
            ),
        );
        if !home.is_empty() {
            push_string(
                &mut out,
                String::from_str(home).concat("\\AppData\\Local\\Programs\\Python\\Python").concat(
                    version,
                ).concat("\\python.exe"),
            );
        }
        assert(texts(out@) =~= before + windows_places(home@, plain_versions()[v as int]));
        assert(texts(out@) =~= head + windows_versioned(home@, (v + 1) as nat));
        v += 1;
    }
    if !home.is_empty() {
        let ghost base = texts(out@);
        push_string(&mut out, join2(home, "\\.pyenv\\pyenv-win\\shims\\python.exe"));
        push_string(&mut out, join2(home, "\\.pyenv\\pyenv-win\\shims\\python3.exe"));
        push_managed(&mut out, home, "\\.pyenv\\pyenv-win\\versions\\", "\\python.exe");
        assert(Seq::new(
            105,
            |k: int|
                home@ + "\\.pyenv\\pyenv-win\\versions\\"@ + dotted_versions()[k / 21] + "."@
                    + decimal((k % 21) as nat) + "\\python.exe"@,
        ) =~= windows_managed(home@));
        push_string(&mut out, join2(home, "\\Anaconda3\\python.exe"));
        push_string(&mut out, join2(home, "\\miniconda3\\python.exe"));
        push_string(&mut out, join2(home, "\\anaconda3\\python.exe"));
        push_string(&mut out, join2(home, "\\Miniconda3\\python.exe"));
        assert(texts(out@) =~= base + windows_home_candidates(home@));
    } else {
        assert(texts(out@) =~= texts(out@) + Seq::<Seq<char>>::empty());
    }
    out
}

/// What a search for an interpreter begins with.
#[derive(Debug)]
pub enum DetectionPlan {
    /// Try this interpreter and no other: the caller named it.
    Named(String),
    /// Try these in turn and take the first that works.
    Search(Vec<String>),
}

impl DetectionPlan {
    pub open spec fn named(&self) -> Option<Seq<char>> {
        match self {
            DetectionPlan::Named(p) => Some(p@),
            DetectionPlan::Search(_) => None,
        }
    }

    pub open spec fn search(&self) -> Option<Seq<Seq<char>>> {
        match self {
            DetectionPlan::Named(_) => None,
            DetectionPlan::Search(c) => Some(texts(c@)),
        }
    }
}

/// Plans the search for an interpreter where the caller names none: the
/// programs on the search path first, then the places where the system, a
/// version manager or a distribution keeps its interpreters.
pub fn detect_python(windows: bool, home_dir: &str) -> (r: Vec<String>)
    ensures
        texts(r@) == candidates(windows, home_dir@),
{
    if windows {
        windows_list(home_dir)
    } else {
        unix_list(home_dir)
    }
}

/// Plans the search for an interpreter. A path that the caller names, unless
/// it is empty, is the only one tried.
pub fn detect_python_with_path(custom_path: Option<&str>, windows: bool, home_dir: &str) -> (r:
    DetectionPlan)
    ensures
        match custom_path {
            Some(p) => if p@.len() > 0 {
                r.named() == Some(p@)
            } else {
                r.search() == Some(candidates(windows, home_dir@))
            },
            None => r.search() == Some(candidates(windows, home_dir@)),
        },
{
    match custom_path {
        Some(p) => {
            if !p.is_empty() {
                return DetectionPlan::Named(String::from_str(p));
            }
        },
        None => {},
    }
    DetectionPlan::Search(detect_python(windows, home_dir))
}

/// Why no interpreter was found.
#[derive(Debug)]
pub enum DetectError {
    /// The interpreter that the caller named does not work.
    InvalidPath(String),
    /// None of the candidates works, and the system knows of none.
    NotFound,
}

impl DetectError {
    pub open spec fn message_text(self) -> Seq<char> {
        match self {
            DetectError::InvalidPath(p) => "指定的 Python 路径无效: "@ + p@,
            DetectError::NotFound => "未找到 Python，请安装 Python 3.x 或手动指定 Python 路径"@,
        }
    }

    pub fn message(&self) -> (r: String)
        ensures
            r@ == self.message_text(),
    {
        match self {
            DetectError::InvalidPath(p) => join2("指定的 Python 路径无效: ", p.as_str()),
            DetectError::NotFound => String::from_str(
                "未找到 Python，请安装 Python 3.x 或手动指定 Python 路径",
            ),
        }
    }
}

/// Concludes the trial of an interpreter that the caller named.
pub fn conclude_named(path: String, works: bool) -> (r: Result<String, DetectError>)
    ensures
        works ==> r == Ok::<String, DetectError>(path),
        !works ==> r == Err::<String, DetectError>(DetectError::InvalidPath(path)),
{
    if works {
        Ok(path)
    } else {
        Err(DetectError::InvalidPath(path))
    }
}

/// Concludes a search: the first candidate that works is taken; where none
/// works, the interpreter that the system itself points to; where there is
/// none either, the search has failed.
pub fn conclude_search(
    candidates: &Vec<String>,
    first_working: Option<usize>,
    located: Option<String>,
) -> (r: Result<String, DetectError>)
    requires
        first_working is Some ==> first_working->0 < candidates.len(),
    ensures
        match first_working {
            Some(i) => r is Ok && r->Ok_0@ == candidates[i as int]@,
            None => match located {
                Some(p) => r == Ok::<String, DetectError>(p),
                None => r == Err::<String, DetectError>(DetectError::NotFound),
            },
        },
{
    match first_working {
        Some(i) => Ok(candidates[i].clone()),
        None => match located {
            Some(p) => Ok(p),
            None => Err(DetectError::NotFound),
        },
    }
}

/// The first line of a text, without the carriage return that may end it.
pub open spec fn first_line(s: Seq<char>) -> Seq<char> {
    let line = before_first(s, '\n');
    if line.len() > 0 && line.last() == '\r' {
        line.drop_last()
    } else {
        line
    }
}

/// The path that the system's own search printed: on Windows the first line
/// of the output, elsewhere all of it, without white space around it, and
/// nothing where that is empty.
pub open spec fn located_in(windows: bool, output: Seq<char>) -> Option<Seq<char>> {
    let path = if windows {
        trimmed(first_line(output))
    } else {
        trimmed(output)
    };
    if path.len() > 0 {
        Some(path)
    } else {
        None
    }
}

/// Reads the path that the system's own search for an interpreter printed.
pub fn located_path(windows: bool, output: &str) -> (r: Option<String>)
    ensures
        crate::text::opt_text(r) == located_in(windows, output@),
{
    let path = if windows {
        let line = take_before(output, '\n');
        let n: usize = line.unicode_len();
        let line = if n > 0 && line.get_char(n - 1) == '\r' {
            line.substring_char(0, n - 1)
        } else {
            line
        };
        assert(line@ =~= first_line(output@));
        trim(line)
    } else {
        trim(output)
    };
    if path.is_empty() {
        None
    } else {
        Some(String::from_str(path))
    }
}

/// The version that an interpreter reports: what it printed, without white
/// space around it; some interpreters print it to the error stream.
pub open spec fn version_in(success: bool, stdout: Seq<char>, stderr: Seq<char>) -> Option<
    Seq<char>,
> {
    if !success {
        None
    } else if trimmed(stdout).len() == 0 {
        Some(trimmed(stderr))
    } else {
        Some(trimmed(stdout))
    }
}

/// Reads the version that an interpreter reported when it was started with
/// `--version`. An interpreter that failed reported none.
pub fn get_python_version(success: bool, stdout: &str, stderr: &str) -> (r: Option<String>)
    ensures
        crate::text::opt_text(r) == version_in(success, stdout@, stderr@),
{
    if !success {
        return None;
    }
    let version = trim(stdout);
    if version.is_empty() {
        Some(String::from_str(trim(stderr)))
    } else {
        Some(String::from_str(version))
    }
}

/// The interpreters that were found, each path once, in the order of
/// finding.
pub struct FoundPythons {
    entries: Vec<(String, String)>,
}

impl View for FoundPythons {
    type V = Seq<(Seq<char>, Seq<char>)>;

    /// The paths and versions that were found.
    closed spec fn view(&self) -> Seq<(Seq<char>, Seq<char>)> {
        self.entries@.map_values(|e: (String, String)| (e.0@, e.1@))
    }
}

impl FoundPythons {
    /// No path stands twice in the list.
    pub closed spec fn wf(&self) -> bool {
        forall|i: int, j: int|
            0 <= i < j < self.entries.len() ==> (#[trigger] self.entries[i]).0@ != (
            #[trigger] self.entries[j]).0@
    }

    /// Whether `path` was found.
    pub open spec fn holds(&self, path: Seq<char>) -> bool {
        exists|i: int| 0 <= i < self@.len() && (#[trigger] self@[i]).0 == path
    }

    /// A list with nothing in it.
    pub fn new() -> (r: Self)
        ensures
            r.wf(),
            r@ == Seq::<(Seq<char>, Seq<char>)>::empty(),
    {
        let r = FoundPythons { entries: Vec::new() };
        assert(r@ =~= Seq::empty());
        r
    }

    /// How many interpreters were found.
    pub fn count(&self) -> (n: usize)
        ensures
            n == self@.len(),
    {
        self.entries.len()
    }

    /// Whether `path` was found.
    pub fn contains(&self, path: &str) -> (r: bool)
        ensures
            r == self.holds(path@),
    {
        let mut i: usize = 0;
        while i < self.entries.len()
            invariant
                i <= self.entries.len(),
                forall|j: int| 0 <= j < i ==> (#[trigger] self@[j]).0 != path@,
            decreases self.entries.len() - i,
        {
            if str_eq(self.entries[i].0.as_str(), path) {
                assert(self@[i as int].0 == path@);
                return true;
            }
            i += 1;
        }
        false
    }

    /// Takes an interpreter into the list, unless its path is there already
    /// or it reported no version. Returns whether it was taken.
    pub fn offer(&mut self, path: String, version: Option<String>) -> (taken: bool)
        requires
            old(self).wf(),
        ensures
            final(self).wf(),
            taken == (version is Some && !old(self).holds(path@)),
            taken ==> final(self)@ == old(self)@.push((path@, version->0@)),
            !taken ==> final(self)@ == old(self)@,
    {
        match version {
            Some(v) => {
                if self.contains(path.as_str()) {
                    false
                } else {
                    proof {
                        assert forall|i: int| 0 <= i < self.entries.len() implies (
                        #[trigger] self.entries[i]).0@ != path@ by {
                            assert(self@[i].0 == self.entries[i].0@);
                        }
                    }
                    self.entries.push((path, v));
                    assert(self@ =~= old(self)@.push((path@, v@)));
                    true
                }
            },
            None => false,
        }
    }

    /// The path and the version of the interpreter at `i`.
    pub fn get(&self, i: usize) -> (r: (&str, &str))
        requires
            i < self@.len(),
        ensures
            (r.0@, r.1@) == self@[i as int],
    {
        (self.entries[i].0.as_str(), self.entries[i].1.as_str())
    }
}

} // verus!
