//! Settings of a run: the command-line arguments as plain values, where the
//! signal library lives, and the search paths handed to builds and children.
use vstd::prelude::*;
use crate::bundle::BundleConfig;

verus! {

/// What a measurement run was asked to do.
#[derive(Debug)]
pub struct MeasureArgs {
    /// Iterations per test.
    pub iterations: u8,
    /// Seconds to sleep after each measured test.
    pub sleep: u8,
    /// Paths of the scenario files.
    pub scenarios: Vec<String>,
    /// Every available energy domain.
    pub rapl: bool,
    /// CPU cycles.
    pub cycles: bool,
    /// Cache misses and branch mispredictions.
    pub misses: bool,
    /// C-state residencies.
    pub cstates: bool,
    /// Elapsed time.
    pub time: bool,
    /// CPUs the children are pinned to, unless a scenario or test says otherwise.
    pub affinity: Option<Vec<usize>>,
    /// Niceness of the children, unless a scenario or test says otherwise.
    pub niceness: Option<i32>,
    /// Where the results table goes.
    pub output: Option<String>,
}

impl MeasureArgs {
    /// The bundles the flags ask for.
    pub fn bundle_config(&self) -> (r: BundleConfig)
        ensures
            r == (BundleConfig {
                time: self.time,
                rapl: self.rapl,
                misses: self.misses,
                cstates: self.cstates,
                cycles: self.cycles,
            }),
    {
        BundleConfig {
            time: self.time,
            rapl: self.rapl,
            misses: self.misses,
            cstates: self.cstates,
            cycles: self.cycles,
        }
    }

    /// Where the results table goes: the given path, else `./results/results.csv`.
    pub fn output_path(&self) -> (r: String)
        ensures
            self.output matches Some(o) ==> r@ == o@,
            self.output is None ==> r@ == "./results/results.csv"@,
    {
        match &self.output {
            Some(o) => o.clone(),
            None => String::from_str("./results/results.csv"),
        }
    }
}

/// Why the library directory cannot be used.
#[derive(Clone, Copy, Debug, PartialEq, Eq, Structural)]
pub enum ConfigError {
    /// No library directory was configured when the program was built.
    LibDirUnset,
    /// The configured library directory does not exist.
    LibDirMissing,
}

/// Where the signal library that children link against lives.
#[derive(Clone, Debug)]
pub struct Config {
    pub lib_dir: String,
}

impl Config {
    /// The configuration for the library directory `lib_dir` (as configured at
    /// build time), where `exists` tells whether that directory exists.
    pub fn new(lib_dir: Option<&str>, exists: bool) -> (r: Result<Config, ConfigError>)
        ensures
            lib_dir is None ==> r == Err::<Config, ConfigError>(ConfigError::LibDirUnset),
            lib_dir is Some && !exists ==> r == Err::<Config, ConfigError>(ConfigError::LibDirMissing),
            exists ==> (lib_dir matches Some(d) ==> (r matches Ok(c) && c.lib_dir@ == d@)),
    {
        match lib_dir {
            None => Err(ConfigError::LibDirUnset),
            Some(d) => if exists {
                Ok(Config { lib_dir: String::from_str(d) })
            } else {
                Err(ConfigError::LibDirMissing)
            },
        }
    }
}

/// The library directory of `config`, as text.
pub fn lib_dir_str(config: &Config) -> (r: String)
    ensures
        r@ == config.lib_dir@,
{
    config.lib_dir.clone()
}

/// A search path extended by the library directory: `current:lib_dir`, or
/// `lib_dir` alone when the variable was unset.
pub fn extend_path_var(current: Option<&str>, lib_dir: &str) -> (r: String)
    ensures
        current matches Some(c) ==> r@ == c@ + seq![':'] + lib_dir@,
        current is None ==> r@ == lib_dir@,
{
    match current {
        Some(c) => {
            proof {
                reveal_strlit(":");
            }
            let mut s = String::from_str(c);
            s.append(":");
            s.append(lib_dir);
            s
        },
        None => String::from_str(lib_dir),
    }
}

} // verus!
