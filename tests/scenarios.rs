use green_languages::config::{extend_path_var, lib_dir_str, Config, ConfigError, MeasureArgs};
use green_languages::encoding::{decode_field, encode_field, strip_spaces};
use green_languages::language::{is_supported, supported_languages, Language};
use green_languages::scenario::{
    results_dir, Artifacts, Dependency, Scenario, ScenarioError, Test,
};
use green_languages::schedule::MeasurementMode;

fn scenario(language: Language) -> Scenario {
    Scenario {
        name: "fib".to_string(),
        language,
        description: None,
        code: Some("int main() {}".to_string()),
        framework: None,
        compile_options: None,
        runtime_options: None,
        arguments: None,
        dependencies: None,
        packages: None,
        stdin: None,
        expected_stdout: None,
        measurement_mode: None,
        affinity: None,
        niceness: None,
    }
}

fn named(name: &str) -> Test {
    let mut t = Test::new();
    t.name = Some(name.to_string());
    t
}

#[test]
fn languages_by_name() {
    assert_eq!(supported_languages().len(), 7);
    assert!(is_supported("rust"));
    assert!(Language::is_supported("python"));
    assert!(!is_supported("Rust"));
    assert!(!is_supported("go"));
    assert_eq!(Language::from_name("cs"), Some(Language::Cs));
    assert_eq!(Language::Cs.source_file(), "Program.cs");
    assert_eq!(Language::Java.target_file(), "Program");
    assert_eq!(Language::Python.target_file(), "main.py");
    assert!(Language::Rust.is_compiled());
    assert!(!Language::Ruby.is_compiled());
}

#[test]
fn build_paths() {
    let s = scenario(Language::C);
    let t = named("1");
    assert_eq!(results_dir(), "./results");
    assert_eq!(s.scenario_dir(), "./results/build/c/fib");
    assert_eq!(s.test_dir(&t), "./results/build/c/fib/1");
    assert_eq!(s.source_path(), "./results/build/c/fib/main.c");
    assert_eq!(s.target_path(&t), "./results/build/c/fib/1/main");
    assert_eq!(s.stdout_path(&t), "./results/build/c/fib/1/stdout.txt");
    assert_eq!(s.test_expected_stdout_path(&t), "./results/build/c/fib/1/expected_stdout.txt");
    assert_eq!(s.scenario_expected_stdout_path(), "./results/build/c/fib/expected_stdout.txt");
    assert_eq!(s.test_stdin_path(&t), "./results/build/c/fib/1/stdin.txt");
    assert_eq!(s.scenario_stdin_path(), "./results/build/c/fib/stdin.txt");
}

#[test]
fn build_commands_with_options() {
    let mut s = scenario(Language::C);
    s.compile_options = Some(vec!["-O2  -Wall".to_string(), "-lm".to_string()]);
    let t = named("1");
    assert_eq!(
        s.build_test_command(&t, "/lib"),
        vec![
            "gcc",
            "./results/build/c/fib/main.c",
            "-o",
            "./results/build/c/fib/1/main",
            "-lmeasurements",
            "-O2",
            "-Wall",
            "-lm",
        ]
    );
    let mut own = named("1");
    own.compile_options = Some(vec!["-g".to_string()]);
    assert_eq!(s.build_test_command(&own, "/lib").last().unwrap(), "-g");
    let java = scenario(Language::Java);
    assert_eq!(
        java.build_command(&t, "/lib"),
        vec![
            "javac",
            "./results/build/java/fib/Program.java",
            "-d",
            "./results/build/java/fib/1",
            "-cp",
            "/lib:./results/build/java/fib/1",
        ]
    );
    assert!(scenario(Language::Python).build_command(&t, "/lib").is_empty());
}

#[test]
fn exec_commands() {
    let t = named("1");
    let none = Artifacts { program: false, release: false, debug: false };
    let rust = scenario(Language::Rust);
    assert_eq!(rust.exec_command(&t, "/lib", none), Err(ScenarioError::ExecutableNotFound));
    let debug = Artifacts { program: false, release: false, debug: true };
    assert_eq!(
        rust.exec_command(&t, "/lib", debug).unwrap(),
        vec!["./results/build/rust/fib/1/debug/program"]
    );
    let java = scenario(Language::Java);
    assert_eq!(
        java.exec_command(&t, "/lib", none).unwrap(),
        vec!["java", "--enable-native-access=ALL-UNNAMED", "-cp", "/lib:./results/build/java/fib/1", "Program"]
    );
    let mut c = scenario(Language::C);
    c.arguments = Some(vec!["10 20".to_string()]);
    assert_eq!(
        c.exec_test_command(&t, "/lib", none).unwrap(),
        vec!["./results/build/c/fib/1/main", "10", "20"]
    );
    c.runtime_options = Some(vec!["-X".to_string()]);
    assert_eq!(c.exec_test_command(&t, "/lib", none), Err(ScenarioError::RuntimeOptionsUnsupported));
    let mut py = scenario(Language::Python);
    py.runtime_options = Some(vec!["-O".to_string()]);
    assert_eq!(py.exec_test_command(&t, "/lib", none).unwrap(), vec!["-O"]);
}

#[test]
fn settings_prefer_the_test() {
    let mut s = scenario(Language::C);
    s.measurement_mode = Some(MeasurementMode::Internal);
    s.niceness = Some(5);
    s.affinity = Some(vec![1]);
    let mut t = named("1");
    assert_eq!(s.mode_for(&t), MeasurementMode::Internal);
    assert_eq!(s.niceness_for(&t), Some(5));
    assert_eq!(s.affinity_for(&t), Some(vec![1]));
    t.measurement_mode = Some(MeasurementMode::External);
    t.niceness = Some(-2);
    t.affinity = Some(vec![0, 3]);
    assert_eq!(s.mode_for(&t), MeasurementMode::External);
    assert_eq!(s.niceness_for(&t), Some(-2));
    assert_eq!(s.affinity_for(&t), Some(vec![0, 3]));
    assert_eq!(scenario(Language::C).mode_for(&named("1")), MeasurementMode::Process);
}

#[test]
fn unnamed_tests_get_their_position() {
    let mut t = Test::new();
    t.ensure_name(0);
    assert_eq!(t.name.as_deref(), Some("1"));
    t.ensure_name(4);
    assert_eq!(t.name.as_deref(), Some("1"));
}

#[test]
fn code_must_not_be_blank() {
    let mut s = scenario(Language::C);
    assert_eq!(s.check_code(), Ok(()));
    s.code = Some("  \n\t".to_string());
    assert_eq!(s.check_code(), Err(ScenarioError::MissingCode));
    s.code = None;
    assert_eq!(s.check_code(), Err(ScenarioError::MissingCode));
    assert_eq!(ScenarioError::MissingCode.message(), "Missing Code Error");
}

#[test]
fn project_files() {
    let mut s = scenario(Language::Cs);
    let t = named("1");
    assert_eq!(s.cs_project(&t), Err(ScenarioError::MissingFramework));
    s.framework = Some("net8.0".to_string());
    s.dependencies = Some(vec![Dependency { name: "Newtonsoft.Json".to_string(), version: None }]);
    let text = s.cs_project(&t).unwrap();
    assert!(text.contains("<TargetFramework>net8.0</TargetFramework>"));
    assert!(text.contains("<PackageReference Include=\"Newtonsoft.Json\" Version=\"*\" />\n"));
    let mut r = scenario(Language::Rust);
    r.dependencies = Some(vec![Dependency { name: "rand".to_string(), version: Some("0.8".to_string()) }]);
    let manifest = r.cargo_manifest(&t);
    assert!(manifest.starts_with("[package]\nname = \"program\"\n"));
    assert!(manifest.ends_with("[dependencies]\nrand = \"0.8\"\n"));
}

#[test]
fn base64_fields() {
    assert_eq!(decode_field("aGVsbG8K").unwrap(), b"hello\n".to_vec());
    assert_eq!(decode_field("aGVs\n bG8K\n").unwrap(), b"hello\n".to_vec());
    assert_eq!(decode_field("a$b").unwrap_err(), ScenarioError::InvalidBase64);
    assert_eq!(encode_field(&b"hello\n".to_vec()), "aGVsbG8K");
    assert_eq!(strip_spaces(" a\tb\r\n"), b"ab".to_vec());
}

#[test]
fn library_directory() {
    assert_eq!(Config::new(None, true).unwrap_err(), ConfigError::LibDirUnset);
    assert_eq!(Config::new(Some("/opt/gl"), false).unwrap_err(), ConfigError::LibDirMissing);
    let c = Config::new(Some("/opt/gl"), true).unwrap();
    assert_eq!(lib_dir_str(&c), "/opt/gl");
    assert_eq!(extend_path_var(Some("/usr/lib"), "/opt/gl"), "/usr/lib:/opt/gl");
    assert_eq!(extend_path_var(None, "/opt/gl"), "/opt/gl");
}

#[test]
fn arguments_select_bundles() {
    let args = MeasureArgs {
        iterations: 1,
        sleep: 0,
        scenarios: vec!["a.yml".to_string()],
        rapl: true,
        cycles: false,
        misses: false,
        cstates: false,
        time: true,
        affinity: None,
        niceness: None,
        output: None,
    };
    let c = args.bundle_config();
    assert!(c.rapl && c.time && !c.cycles && !c.misses && !c.cstates);
    assert_eq!(args.output_path(), "./results/results.csv");
}

#[test]
fn unicode_white_space_separates_words() {
    let mut s = scenario(Language::C);
    s.compile_options = Some(vec!["-a\u{2003}-b\u{a0}\u{3000}-c".to_string()]);
    let cmd = s.build_test_command(&named("1"), "/lib");
    assert_eq!(&cmd[cmd.len() - 3..], &["-a", "-b", "-c"]);
    s.code = Some("\u{3000}\u{85}\u{2028}".to_string());
    assert_eq!(s.check_code(), Err(ScenarioError::MissingCode));
    s.code = Some("\u{3000}x".to_string());
    assert_eq!(s.check_code(), Ok(()));
}
