//! Scenarios and their tests: which settings apply to a test, where its files
//! live, and the commands that build and run it.
use vstd::prelude::*;
use crate::language::Language;
use crate::schedule::MeasurementMode;
use crate::text::{decimal, push_decimal};

verus! {

/// A package a scenario's build pulls in.
#[derive(Debug)]
pub struct Dependency {
    pub name: String,
    pub version: Option<String>,
}

/// A system package a scenario needs.
#[derive(Debug)]
pub struct Package {
    pub name: String,
    pub version: Option<String>,
}

/// A program to measure, with defaults for its tests.
#[derive(Debug)]
pub struct Scenario {
    pub name: String,
    pub language: Language,
    pub description: Option<String>,
    pub code: Option<String>,
    pub framework: Option<String>,
    pub compile_options: Option<Vec<String>>,
    pub runtime_options: Option<Vec<String>>,
    pub arguments: Option<Vec<String>>,
    pub dependencies: Option<Vec<Dependency>>,
    pub packages: Option<Vec<Package>>,
    pub stdin: Option<Vec<u8>>,
    pub expected_stdout: Option<Vec<u8>>,
    pub measurement_mode: Option<MeasurementMode>,
    pub affinity: Option<Vec<usize>>,
    pub niceness: Option<i32>,
}

/// One way of running a scenario; each setting it gives overrides the scenario's.
#[derive(Debug)]
pub struct Test {
    pub name: Option<String>,
    pub compile_options: Option<Vec<String>>,
    pub runtime_options: Option<Vec<String>>,
    pub arguments: Option<Vec<String>>,
    pub dependencies: Option<Vec<Dependency>>,
    pub stdin: Option<Vec<u8>>,
    pub expected_stdout: Option<Vec<u8>>,
    pub measurement_mode: Option<MeasurementMode>,
    pub affinity: Option<Vec<usize>>,
    pub niceness: Option<i32>,
}

/// Why a scenario cannot be built or run.
#[derive(Clone, Copy, Debug, PartialEq, Eq, Structural)]
pub enum ScenarioError {
    /// The scenario has no code, or only blanks.
    MissingCode,
    /// A C# scenario names no .NET framework.
    MissingFramework,
    /// The build left no executable to run.
    ExecutableNotFound,
    /// Runtime options were given for a compiled language.
    RuntimeOptionsUnsupported,
    /// Text that should be base64 is not.
    InvalidBase64,
}

impl ScenarioError {
    /// The message shown to the user.
    pub open spec fn spec_message(self) -> Seq<char> {
        match self {
            ScenarioError::MissingCode => "Missing Code Error"@,
            ScenarioError::MissingFramework => "A .NET framework is required for C# scenarios"@,
            ScenarioError::ExecutableNotFound => "Executable not found"@,
            ScenarioError::RuntimeOptionsUnsupported => "Runtime options are not supported for compiled languages"@,
            ScenarioError::InvalidBase64 => "invalid base64"@,
        }
    }

    /// The message shown to the user.
    pub fn message(&self) -> (r: &'static str)
        ensures
            r@ == self.spec_message(),
    {
        match self {
            ScenarioError::MissingCode => "Missing Code Error",
            ScenarioError::MissingFramework => "A .NET framework is required for C# scenarios",
            ScenarioError::ExecutableNotFound => "Executable not found",
            ScenarioError::RuntimeOptionsUnsupported => "Runtime options are not supported for compiled languages",
            ScenarioError::InvalidBase64 => "invalid base64",
        }
    }
}

/// `t` when present, else `s`.
pub open spec fn prefer<T>(t: Option<T>, s: Option<T>) -> Option<T> {
    match t {
        Some(x) => Some(x),
        None => s,
    }
}

impl Test {
    /// A test that sets nothing and has no name.
    pub fn new() -> (r: Test)
        ensures
            r.name is None,
            r.compile_options is None,
            r.runtime_options is None,
            r.arguments is None,
            r.dependencies is None,
            r.stdin is None,
            r.expected_stdout is None,
            r.measurement_mode is None,
            r.affinity is None,
            r.niceness is None,
    {
        Test {
            name: None,
            compile_options: None,
            runtime_options: None,
            arguments: None,
            dependencies: None,
            stdin: None,
            expected_stdout: None,
            measurement_mode: None,
            affinity: None,
            niceness: None,
        }
    }

    /// Names an unnamed test by its 1-based position `index + 1` in its file.
    pub fn ensure_name(&mut self, index: usize)
        requires
            index < usize::MAX,
        ensures
            old(self).name is Some ==> final(self).name == old(self).name,
            old(self).name is None ==> (final(self).name matches Some(n) && n@ == decimal(
                (index + 1) as nat,
            )),
    {
        if self.name.is_none() {
            let mut s = String::new();
            push_decimal(&mut s, (index + 1) as u64);
            self.name = Some(s);
        }
    }
}

impl Scenario {
    /// The mode a test is measured in: the test's, else the scenario's, else Process.
    pub open spec fn spec_mode(&self, test: &Test) -> MeasurementMode {
        match prefer(test.measurement_mode, self.measurement_mode) {
            Some(m) => m,
            None => MeasurementMode::Process,
        }
    }

    /// The mode a test is measured in: the test's, else the scenario's, else Process.
    pub fn mode_for(&self, test: &Test) -> (r: MeasurementMode)
        ensures
            r == self.spec_mode(test),
    {
        match test.measurement_mode {
            Some(m) => m,
            None => match self.measurement_mode {
                Some(m) => m,
                None => MeasurementMode::Process,
            },
        }
    }

    /// The CPUs a test's child is pinned to: the test's set, else the scenario's.
    pub fn affinity_for(&self, test: &Test) -> (r: Option<Vec<usize>>)
        ensures
            test.affinity matches Some(a) ==> (r matches Some(x) && x@ == a@),
            test.affinity is None ==> (self.affinity matches Some(a) ==> (r matches Some(x) && x@
                == a@)),
            test.affinity is None && self.affinity is None ==> r is None,
    {
        match &test.affinity {
            Some(a) => Some(a.clone()),
            None => match &self.affinity {
                Some(a) => Some(a.clone()),
                None => None,
            },
        }
    }

    /// The niceness of a test's child: the test's, else the scenario's.
    pub fn niceness_for(&self, test: &Test) -> (r: Option<i32>)
        ensures
            r == prefer(test.niceness, self.niceness),
    {
        match test.niceness {
            Some(n) => Some(n),
            None => self.niceness,
        }
    }
}

/// `a/b`.
pub open spec fn join(a: Seq<char>, b: Seq<char>) -> Seq<char> {
    a + seq!['/'] + b
}

fn join_path(a: &str, b: &str) -> (r: String)
    ensures
        r@ == join(a@, b@),
{
    proof {
        reveal_strlit("/");
    }
    let mut s = String::from_str(a);
    s.append("/");
    s.append(b);
    assert(s@ =~= join(a@, b@));
    s
}

/// The directory results and build files go to.
pub open spec fn spec_results_dir() -> Seq<char> {
    "./results"@
}

/// The directory results and build files go to.
pub fn results_dir() -> (r: String)
    ensures
        r@ == spec_results_dir(),
{
    String::from_str("./results")
}

impl Scenario {
    /// `<results>/build/<language>/<scenario>`.
    pub open spec fn spec_scenario_dir(&self) -> Seq<char> {
        join(join(join(spec_results_dir(), "build"@), self.language.spec_name()), self.name@)
    }

    /// `<scenario dir>/<test>`.
    pub open spec fn spec_test_dir(&self, test_name: Seq<char>) -> Seq<char> {
        join(self.spec_scenario_dir(), test_name)
    }

    /// The directory of the scenario's build files.
    pub fn scenario_dir(&self) -> (r: String)
        ensures
            r@ == self.spec_scenario_dir(),
    {
        let a = join_path(results_dir().as_str(), "build");
        let b = join_path(a.as_str(), self.language.name());
        join_path(b.as_str(), self.name.as_str())
    }

    /// The directory of one test's build files and output.
    pub fn test_dir(&self, test: &Test) -> (r: String)
        requires
            test.name is Some,
        ensures
            r@ == self.spec_test_dir(test.name.unwrap()@),
    {
        let d = self.scenario_dir();
        match &test.name {
            Some(n) => join_path(d.as_str(), n.as_str()),
            None => d,
        }
    }

    /// Where the built program of a test goes.
    pub fn target_path(&self, test: &Test) -> (r: String)
        requires
            test.name is Some,
        ensures
            r@ == join(self.spec_test_dir(test.name.unwrap()@), self.language.spec_target_file()),
    {
        join_path(self.test_dir(test).as_str(), self.language.target_file())
    }

    /// Where the scenario's code is written.
    pub fn source_path(&self) -> (r: String)
        ensures
            r@ == join(self.spec_scenario_dir(), self.language.spec_source_file()),
    {
        join_path(self.scenario_dir().as_str(), self.language.source_file())
    }

    /// Where a test's stdout is captured.
    pub fn stdout_path(&self, test: &Test) -> (r: String)
        requires
            test.name is Some,
        ensures
            r@ == join(self.spec_test_dir(test.name.unwrap()@), "stdout.txt"@),
    {
        join_path(self.test_dir(test).as_str(), "stdout.txt")
    }

    /// Where a test's own expected stdout is written.
    pub fn test_expected_stdout_path(&self, test: &Test) -> (r: String)
        requires
            test.name is Some,
        ensures
            r@ == join(self.spec_test_dir(test.name.unwrap()@), "expected_stdout.txt"@),
    {
        join_path(self.test_dir(test).as_str(), "expected_stdout.txt")
    }

    /// Where the scenario's expected stdout is written.
    pub fn scenario_expected_stdout_path(&self) -> (r: String)
        ensures
            r@ == join(self.spec_scenario_dir(), "expected_stdout.txt"@),
    {
        join_path(self.scenario_dir().as_str(), "expected_stdout.txt")
    }

    /// Where a test's own stdin is written.
    pub fn test_stdin_path(&self, test: &Test) -> (r: String)
        requires
            test.name is Some,
        ensures
            r@ == join(self.spec_test_dir(test.name.unwrap()@), "stdin.txt"@),
    {
        join_path(self.test_dir(test).as_str(), "stdin.txt")
    }

    /// Where the scenario's stdin is written.
    pub fn scenario_stdin_path(&self) -> (r: String)
        ensures
            r@ == join(self.spec_scenario_dir(), "stdin.txt"@),
    {
        join_path(self.scenario_dir().as_str(), "stdin.txt")
    }
}

/// The views of a sequence of strings.
pub open spec fn views(v: Seq<String>) -> Seq<Seq<char>> {
    v.map_values(|x: String| x@)
}

/// Whether `c` has Unicode's White_Space property.
pub open spec fn is_white_space(c: char) -> bool {
    ('\u{9}' <= c && c <= '\u{d}') || c == ' ' || c == '\u{85}' || c == '\u{a0}' || c
        == '\u{1680}' || ('\u{2000}' <= c && c <= '\u{200a}') || c == '\u{2028}' || c
        == '\u{2029}' || c == '\u{202f}' || c == '\u{205f}' || c == '\u{3000}'
}

/// The whitespace-separated words of a text, in order: its maximal runs of
/// characters that are not white space.
pub open spec fn words_of(s: Seq<char>) -> Seq<Seq<char>>
    decreases s.len(),
{
    if s.len() == 0 {
        Seq::empty()
    } else {
        let w = words_of(s.drop_last());
        if is_white_space(s.last()) {
            w
        } else if s.len() >= 2 && !is_white_space(s[s.len() - 2]) {
            w.update(w.len() - 1, w.last().push(s.last()))
        } else {
            w.push(seq![s.last()])
        }
    }
}

/// A text has a word exactly when it has a character that is not white space.
pub proof fn lemma_words_nonempty(s: Seq<char>)
    ensures
        words_of(s).len() > 0 <==> exists|i: int| 0 <= i < s.len() && !is_white_space(s[i]),
    decreases s.len(),
{
    if s.len() > 0 {
        let p = s.drop_last();
        lemma_words_nonempty(p);
        if exists|i: int| 0 <= i < p.len() && !is_white_space(p[i]) {
            let i = choose|i: int| 0 <= i < p.len() && !is_white_space(p[i]);
            assert(s[i] == p[i]);
        }
        if exists|i: int| 0 <= i < s.len() && !is_white_space(s[i]) {
            let i = choose|i: int| 0 <= i < s.len() && !is_white_space(s[i]);
            if i < s.len() - 1 {
                assert(p[i] == s[i]);
            }
        }
        if s.len() >= 2 && !is_white_space(s[s.len() - 2]) {
            assert(p[p.len() - 1] == s[s.len() - 2]);
        }
    }
}

/// Relies on `str::split_whitespace`: the sub-slices of `s` separated by any
/// amount of white space, as Unicode's White_Space property defines it.
#[verifier::external_body]
fn split_words(s: &str) -> (r: Vec<String>)
    ensures
        views(r@) == words_of(s@),
{
    s.split_whitespace().map(|w| w.to_string()).collect()
}

/// The words of every option of `opts`, in order.
pub open spec fn all_words(opts: Seq<Seq<char>>) -> Seq<Seq<char>>
    decreases opts.len(),
{
    if opts.len() == 0 {
        Seq::empty()
    } else {
        all_words(opts.drop_last()) + words_of(opts.last())
    }
}

/// The words of the options `opts`, or none when there are no options.
pub open spec fn option_words(opts: Option<Seq<String>>) -> Seq<Seq<char>> {
    match opts {
        Some(o) => all_words(views(o)),
        None => Seq::empty(),
    }
}

/// The view of optional strings.
pub open spec fn opt_strings(o: Option<Vec<String>>) -> Option<Seq<String>> {
    match o {
        Some(v) => Some(v@),
        None => None,
    }
}

fn push_str(out: &mut Vec<String>, s: &str)
    ensures
        views(final(out)@) == views(old(out)@).push(s@),
{
    out.push(String::from_str(s));
    assert(views(final(out)@) =~= views(old(out)@).push(s@));
}

fn push_string(out: &mut Vec<String>, s: String)
    ensures
        views(final(out)@) == views(old(out)@).push(s@),
{
    out.push(s);
    assert(views(final(out)@) =~= views(old(out)@).push(s@));
}

fn push_words(out: &mut Vec<String>, opts: &Vec<String>)
    ensures
        views(final(out)@) == views(old(out)@) + all_words(views(opts@)),
{
    let ghost start = views(out@);
    let mut i: usize = 0;
    while i < opts.len()
        invariant
            i <= opts.len(),
            views(out@) == start + all_words(views(opts@.take(i as int))),
        decreases opts.len() - i,
    {
        let ws = split_words(opts[i].as_str());
        let ghost before = views(out@);
        let mut j: usize = 0;
        while j < ws.len()
            invariant
                j <= ws.len(),
                views(out@) == before + views(ws@.take(j as int)),
            decreases ws.len() - j,
        {
            push_string(out, ws[j].clone());
            assert(views(ws@.take(j as int + 1)) =~= views(ws@.take(j as int)).push(ws@[j as int]@));
            j = j + 1;
            assert(views(out@) =~= before + views(ws@.take(j as int)));
        }
        assert(ws@.take(j as int) =~= ws@);
        assert(views(opts@.take(i as int + 1)).drop_last() =~= views(opts@.take(i as int)));
        i = i + 1;
        assert(views(out@) =~= start + all_words(views(opts@.take(i as int))));
    }
    assert(opts@.take(i as int) =~= opts@);
}

/// What the build left behind, as the caller found it on disk.
#[derive(Clone, Copy, Debug, PartialEq, Eq, Structural)]
pub struct Artifacts {
    /// `<test dir>/Program` exists (C#).
    pub program: bool,
    /// `<test dir>/release/program` exists (Rust).
    pub release: bool,
    /// `<test dir>/debug/program` exists (Rust).
    pub debug: bool,
}

impl Scenario {
    /// The build command of a test, before its compile options.
    pub open spec fn spec_build_command(&self, t: Seq<char>, lib: Seq<char>) -> Seq<Seq<char>> {
        let source = join(self.spec_scenario_dir(), self.language.spec_source_file());
        let target = join(self.spec_test_dir(t), self.language.spec_target_file());
        let dir = self.spec_test_dir(t);
        match self.language {
            Language::C => seq!["gcc"@, source, "-o"@, target, "-lmeasurements"@],
            Language::Cpp => seq!["g++"@, source, "-o"@, target, "-lmeasurements"@],
            Language::Cs => seq![
                "dotnet"@,
                "build"@,
                self.spec_scenario_dir(),
                "-p:OutputType=Exe"@,
                "--output"@,
                dir,
            ],
            Language::Java => seq!["javac"@, source, "-d"@, dir, "-cp"@, lib + seq![':'] + dir],
            Language::Rust => seq![
                "cargo"@,
                "build"@,
                "--manifest-path"@,
                join(self.spec_scenario_dir(), "Cargo.toml"@),
                "--target-dir"@,
                dir,
            ],
            Language::Python | Language::Ruby => Seq::empty(),
        }
    }

    /// The build command of a test, before its compile options; `lib_dir` holds
    /// the signal library the program links against.
    pub fn build_command(&self, test: &Test, lib_dir: &str) -> (r: Vec<String>)
        requires
            test.name is Some,
        ensures
            views(r@) == self.spec_build_command(test.name.unwrap()@, lib_dir@),
    {
        let source = self.source_path();
        let target = self.target_path(test);
        let dir = self.test_dir(test);
        let mut r: Vec<String> = Vec::new();
        match self.language {
            Language::C | Language::Cpp => {
                push_str(&mut r, if self.language == Language::C { "gcc" } else { "g++" });
                push_string(&mut r, source);
                push_str(&mut r, "-o");
                push_string(&mut r, target);
                push_str(&mut r, "-lmeasurements");
            },
            Language::Cs => {
                push_str(&mut r, "dotnet");
                push_str(&mut r, "build");
                push_string(&mut r, self.scenario_dir());
                push_str(&mut r, "-p:OutputType=Exe");
                push_str(&mut r, "--output");
                push_string(&mut r, dir);
            },
            Language::Java => {
                let cp = class_path(lib_dir, dir.as_str());
                push_str(&mut r, "javac");
                push_string(&mut r, source);
                push_str(&mut r, "-d");
                push_string(&mut r, dir);
                push_str(&mut r, "-cp");
                push_string(&mut r, cp);
            },
            Language::Rust => {
                push_str(&mut r, "cargo");
                push_str(&mut r, "build");
                push_str(&mut r, "--manifest-path");
                push_string(&mut r, join_path(self.scenario_dir().as_str(), "Cargo.toml"));
                push_str(&mut r, "--target-dir");
                push_string(&mut r, dir);
            },
            Language::Python | Language::Ruby => {},
        }
        proof {
            reveal_strlit("gcc");
            reveal_strlit("g++");
        }
        assert(views(r@) =~= self.spec_build_command(test.name.unwrap()@, lib_dir@));
        r
    }

    /// The full build command of a test: the base command, then the words of the
    /// test's compile options (the scenario's when the test has none).
    pub fn build_test_command(&self, test: &Test, lib_dir: &str) -> (r: Vec<String>)
        requires
            test.name is Some,
        ensures
            views(r@) == self.spec_build_command(test.name.unwrap()@, lib_dir@) + option_words(
                prefer(opt_strings(test.compile_options), opt_strings(self.compile_options)),
            ),
    {
        let mut r = self.build_command(test, lib_dir);
        let ghost base = views(r@);
        match &test.compile_options {
            Some(o) => push_words(&mut r, o),
            None => match &self.compile_options {
                Some(o) => push_words(&mut r, o),
                None => {},
            },
        }
        assert(views(r@) =~= base + option_words(
            prefer(opt_strings(test.compile_options), opt_strings(self.compile_options)),
        ));
        r
    }
}

/// `<lib dir>:<test dir>`, the class path of Java builds and runs.
fn class_path(lib_dir: &str, dir: &str) -> (r: String)
    ensures
        r@ == lib_dir@ + seq![':'] + dir@,
{
    proof {
        reveal_strlit(":");
    }
    let mut s = String::from_str(lib_dir);
    s.append(":");
    s.append(dir);
    s
}

impl Scenario {
    /// The command that runs a built test, before its runtime options and
    /// arguments; fails when the build left no executable to run.
    pub open spec fn spec_exec_command(&self, t: Seq<char>, lib: Seq<char>, found: Artifacts) -> Result<
        Seq<Seq<char>>,
        ScenarioError,
    > {
        let dir = self.spec_test_dir(t);
        match self.language {
            Language::C | Language::Cpp => Ok(seq![join(dir, self.language.spec_target_file())]),
            Language::Cs => if found.program {
                Ok(seq![join(dir, "Program"@)])
            } else {
                Err(ScenarioError::ExecutableNotFound)
            },
            Language::Java => Ok(
                seq![
                    "java"@,
                    "--enable-native-access=ALL-UNNAMED"@,
                    "-cp"@,
                    lib + seq![':'] + dir,
                    self.language.spec_target_file(),
                ],
            ),
            Language::Rust => if found.release {
                Ok(seq![join(join(dir, "release"@), "program"@)])
            } else if found.debug {
                Ok(seq![join(join(dir, "debug"@), "program"@)])
            } else {
                Err(ScenarioError::ExecutableNotFound)
            },
            Language::Python | Language::Ruby => Ok(Seq::empty()),
        }
    }

    /// The command that runs a built test, before its runtime options and
    /// arguments; `found` tells which executables the build left.
    pub fn exec_command(&self, test: &Test, lib_dir: &str, found: Artifacts) -> (r: Result<
        Vec<String>,
        ScenarioError,
    >)
        requires
            test.name is Some,
        ensures
            match (r, self.spec_exec_command(test.name.unwrap()@, lib_dir@, found)) {
                (Ok(v), Ok(w)) => views(v@) == w,
                (Err(e), Err(f)) => e == f,
                _ => false,
            },
    {
        let dir = self.test_dir(test);
        let mut r: Vec<String> = Vec::new();
        match self.language {
            Language::C | Language::Cpp => {
                push_string(&mut r, self.target_path(test));
            },
            Language::Cs => {
                if !found.program {
                    return Err(ScenarioError::ExecutableNotFound);
                }
                push_string(&mut r, join_path(dir.as_str(), "Program"));
            },
            Language::Java => {
                push_str(&mut r, "java");
                push_str(&mut r, "--enable-native-access=ALL-UNNAMED");
                push_str(&mut r, "-cp");
                push_string(&mut r, class_path(lib_dir, dir.as_str()));
                push_str(&mut r, self.language.target_file());
            },
            Language::Rust => {
                if found.release {
                    push_string(&mut r, join_path(join_path(dir.as_str(), "release").as_str(), "program"));
                } else if found.debug {
                    push_string(&mut r, join_path(join_path(dir.as_str(), "debug").as_str(), "program"));
                } else {
                    return Err(ScenarioError::ExecutableNotFound);
                }
            },
            Language::Python | Language::Ruby => {},
        }
        assert(views(r@) =~= self.spec_exec_command(test.name.unwrap()@, lib_dir@, found)->Ok_0);
        Ok(r)
    }

    /// The full command that runs a test: the base command, then the words of the
    /// runtime options, then the words of the arguments, each the test's when it
    /// has them, else the scenario's. Compiled languages take no runtime options.
    pub open spec fn spec_exec_test_command(&self, test: &Test, lib: Seq<char>, found: Artifacts) -> Result<
        Seq<Seq<char>>,
        ScenarioError,
    > {
        let runtime = prefer(opt_strings(test.runtime_options), opt_strings(self.runtime_options));
        let args = prefer(opt_strings(test.arguments), opt_strings(self.arguments));
        if self.language.spec_is_native() && runtime is Some {
            Err(ScenarioError::RuntimeOptionsUnsupported)
        } else {
            match self.spec_exec_command(test.name.unwrap()@, lib, found) {
                Ok(base) => Ok(base + option_words(runtime) + option_words(args)),
                Err(e) => Err(e),
            }
        }
    }

    /// The full command that runs a test.
    pub fn exec_test_command(&self, test: &Test, lib_dir: &str, found: Artifacts) -> (r: Result<
        Vec<String>,
        ScenarioError,
    >)
        requires
            test.name is Some,
        ensures
            match (r, self.spec_exec_test_command(test, lib_dir@, found)) {
                (Ok(v), Ok(w)) => views(v@) == w,
                (Err(e), Err(f)) => e == f,
                _ => false,
            },
    {
        let native = match self.language {
            Language::C | Language::Cpp | Language::Rust | Language::Cs => true,
            _ => false,
        };
        if native && (test.runtime_options.is_some() || self.runtime_options.is_some()) {
            return Err(ScenarioError::RuntimeOptionsUnsupported);
        }
        let mut r = match self.exec_command(test, lib_dir, found) {
            Ok(v) => v,
            Err(e) => return Err(e),
        };
        let ghost base = views(r@);
        match &test.runtime_options {
            Some(o) => push_words(&mut r, o),
            None => match &self.runtime_options {
                Some(o) => push_words(&mut r, o),
                None => {},
            },
        }
        let ghost mid = views(r@);
        match &test.arguments {
            Some(o) => push_words(&mut r, o),
            None => match &self.arguments {
                Some(o) => push_words(&mut r, o),
                None => {},
            },
        }
        let ghost runtime = prefer(opt_strings(test.runtime_options), opt_strings(self.runtime_options));
        let ghost args = prefer(opt_strings(test.arguments), opt_strings(self.arguments));
        assert(mid =~= base + option_words(runtime));
        assert(views(r@) =~= base + option_words(runtime) + option_words(args));
        Ok(r)
    }

    /// Checks that the scenario has code to build: some text that is not blank.
    pub fn check_code(&self) -> (r: Result<(), ScenarioError>)
        ensures
            r is Ok <==> (self.code matches Some(c) && exists|i: int|
                0 <= i < c@.len() && !is_white_space(c@[i])),
            r matches Err(e) ==> e == ScenarioError::MissingCode,
    {
        match &self.code {
            None => Err(ScenarioError::MissingCode),
            Some(c) => {
                let ws = split_words(c.as_str());
                assert(views(ws@).len() == ws@.len());
                proof {
                    lemma_words_nonempty(c@);
                }
                if ws.len() == 0 {
                    Err(ScenarioError::MissingCode)
                } else {
                    Ok(())
                }
            },
        }
    }
}

impl Language {
    /// Whether the language builds to a native executable, which takes no
    /// runtime options.
    pub open spec fn spec_is_native(self) -> bool {
        match self {
            Language::C | Language::Cpp | Language::Rust | Language::Cs => true,
            _ => false,
        }
    }
}

/// The version a dependency asks for: the given one, else any (`*`).
pub open spec fn version_of(d: Dependency) -> Seq<char> {
    match d.version {
        Some(v) => v@,
        None => "*"@,
    }
}

/// The line of a C# project file that pulls in `d`.
pub open spec fn cs_reference(d: Dependency) -> Seq<char> {
    "    <PackageReference Include=\""@ + d.name@ + "\" Version=\""@ + version_of(d) + "\" />\n"@
}

/// The line of a Cargo manifest that pulls in `d`.
pub open spec fn cargo_dependency(d: Dependency) -> Seq<char> {
    d.name@ + " = \""@ + version_of(d) + "\"\n"@
}

/// The lines for all of `deps`, each made by `line`, in order.
pub open spec fn lines(deps: Seq<Dependency>, line: spec_fn(Dependency) -> Seq<char>) -> Seq<char>
    decreases deps.len(),
{
    if deps.len() == 0 {
        Seq::empty()
    } else {
        lines(deps.drop_last(), line) + line(deps.last())
    }
}

/// The dependencies of a test: its own, else the scenario's, else none.
pub open spec fn deps_of(test: &Test, s: &Scenario) -> Seq<Dependency> {
    match test.dependencies {
        Some(d) => d@,
        None => match s.dependencies {
            Some(d) => d@,
            None => Seq::empty(),
        },
    }
}

/// The text of a C# project file for `framework` with the given reference lines.
pub open spec fn cs_project_text(framework: Seq<char>, refs: Seq<char>) -> Seq<char> {
    "<Project Sdk=\"Microsoft.NET.Sdk\">\n  <PropertyGroup>\n    <TargetFramework>"@ + framework
        + "</TargetFramework>\n  </PropertyGroup>\n  <ItemGroup>\n"@ + refs
        + "  </ItemGroup>\n</Project>\n"@
}

/// The text of the Cargo manifest of a Rust scenario with the given dependency lines.
pub open spec fn cargo_manifest_text(deps: Seq<char>) -> Seq<char> {
    "[package]\nname = \"program\"\nversion = \"0.1.0\"\nedition = \"2024\"\n\n[[bin]]\nname = \"program\"\npath = \"main.rs\"\n\n[dependencies]\n"@
        + deps
}

fn push_version(s: &mut String, d: &Dependency)
    ensures
        final(s)@ == old(s)@ + version_of(*d),
{
    match &d.version {
        Some(v) => s.append(v.as_str()),
        None => s.append("*"),
    }
}

fn cs_reference_line(s: &mut String, d: &Dependency)
    ensures
        final(s)@ == old(s)@ + cs_reference(*d),
{
    s.append("    <PackageReference Include=\"");
    s.append(d.name.as_str());
    s.append("\" Version=\"");
    push_version(s, d);
    s.append("\" />\n");
    assert(final(s)@ =~= old(s)@ + cs_reference(*d));
}

fn cargo_dependency_line(s: &mut String, d: &Dependency)
    ensures
        final(s)@ == old(s)@ + cargo_dependency(*d),
{
    s.append(d.name.as_str());
    s.append(" = \"");
    push_version(s, d);
    s.append("\"\n");
    assert(final(s)@ =~= old(s)@ + cargo_dependency(*d));
}

fn push_lines(s: &mut String, deps: &Vec<Dependency>, cs: bool)
    ensures
        final(s)@ == old(s)@ + lines(
            deps@,
            if cs {
                |d: Dependency| cs_reference(d)
            } else {
                |d: Dependency| cargo_dependency(d)
            },
        ),
{
    let ghost line = if cs {
        |d: Dependency| cs_reference(d)
    } else {
        |d: Dependency| cargo_dependency(d)
    };
    let ghost start = s@;
    let mut i: usize = 0;
    while i < deps.len()
        invariant
            i <= deps.len(),
            line == (if cs {
                |d: Dependency| cs_reference(d)
            } else {
                |d: Dependency| cargo_dependency(d)
            }),
            s@ == start + lines(deps@.take(i as int), line),
        decreases deps.len() - i,
    {
        if cs {
            cs_reference_line(s, &deps[i]);
        } else {
            cargo_dependency_line(s, &deps[i]);
        }
        assert(deps@.take(i as int + 1).drop_last() =~= deps@.take(i as int));
        i = i + 1;
        assert(s@ =~= start + lines(deps@.take(i as int), line));
    }
    assert(deps@.take(i as int) =~= deps@);
}

impl Scenario {
    fn dependencies_for<'a>(&'a self, test: &'a Test) -> (r: Option<&'a Vec<Dependency>>)
        ensures
            match r {
                Some(d) => d@ == deps_of(test, self),
                None => deps_of(test, self) == Seq::<Dependency>::empty(),
            },
    {
        match &test.dependencies {
            Some(d) => Some(d),
            None => match &self.dependencies {
                Some(d) => Some(d),
                None => None,
            },
        }
    }

    /// The C# project file of a test: the scenario's framework and one package
    /// reference per dependency; fails without a framework.
    pub fn cs_project(&self, test: &Test) -> (r: Result<String, ScenarioError>)
        ensures
            self.framework is None <==> r == Err::<String, ScenarioError>(ScenarioError::MissingFramework),
            r matches Ok(t) ==> t@ == cs_project_text(
                self.framework.unwrap()@,
                lines(deps_of(test, self), |d: Dependency| cs_reference(d)),
            ),
    {
        let framework = match &self.framework {
            Some(f) => f,
            None => return Err(ScenarioError::MissingFramework),
        };
        let mut refs = String::new();
        match self.dependencies_for(test) {
            Some(d) => push_lines(&mut refs, d, true),
            None => {},
        }
        assert(refs@ =~= lines(deps_of(test, self), |d: Dependency| cs_reference(d)));
        let mut s = String::from_str(
            "<Project Sdk=\"Microsoft.NET.Sdk\">\n  <PropertyGroup>\n    <TargetFramework>",
        );
        s.append(framework.as_str());
        s.append("</TargetFramework>\n  </PropertyGroup>\n  <ItemGroup>\n");
        s.append(refs.as_str());
        s.append("  </ItemGroup>\n</Project>\n");
        assert(s@ =~= cs_project_text(framework@, refs@));
        Ok(s)
    }

    /// The Cargo manifest of a test: a `program` binary built from `main.rs`,
    /// with one line per dependency.
    pub fn cargo_manifest(&self, test: &Test) -> (r: String)
        ensures
            r@ == cargo_manifest_text(lines(deps_of(test, self), |d: Dependency| cargo_dependency(d))),
    {
        let mut deps = String::new();
        match self.dependencies_for(test) {
            Some(d) => push_lines(&mut deps, d, false),
            None => {},
        }
        assert(deps@ =~= lines(deps_of(test, self), |d: Dependency| cargo_dependency(d)));
        let mut s = String::from_str(
            "[package]\nname = \"program\"\nversion = \"0.1.0\"\nedition = \"2024\"\n\n[[bin]]\nname = \"program\"\npath = \"main.rs\"\n\n[dependencies]\n",
        );
        s.append(deps.as_str());
        s
    }
}

} // verus!
