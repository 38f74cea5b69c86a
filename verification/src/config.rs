use vstd::prelude::*;

use crate::text::folded;
use crate::text::str_eq;
use crate::text::str_eq_folded;

verus! {

/// A resolved run configuration: what to search for, in which file, and
/// whether the search ignores case. Immutable once constructed.
pub struct Config {
    pub query: String,
    pub file_path: String,
    pub ignore_case: bool,
}

/// The mathematical content of a `Config`.
pub struct ConfigView {
    pub query: Seq<char>,
    pub file_path: Seq<char>,
    pub ignore_case: bool,
}

impl View for Config {
    type V = ConfigView;

    open spec fn view(&self) -> ConfigView {
        ConfigView {
            query: self.query@,
            file_path: self.file_path@,
            ignore_case: self.ignore_case,
        }
    }
}

/// Why resolving the configuration failed.
#[derive(Clone, Copy, Debug, PartialEq, Eq, Structural)]
pub enum ConfigError {
    /// A token beginning with `-` that is not a recognized flag.
    UnknownFlag,
    /// No query token was present.
    MissingQuery,
    /// No file-path token was present after the query.
    MissingPath,
}

/// The `IGNORE_CASE` environment value forces case-insensitive mode when
/// it is `"1"` or, ignoring case, `"true"`.
pub open spec fn env_forces_ignore_case(env: Option<Seq<char>>) -> bool {
    match env {
        Option::Some(v) => v == "1"@ || folded(v, true) == "true"@,
        Option::None => false,
    }
}

/// A token that begins with `-` is a flag token.
pub open spec fn is_flag_token(t: Seq<char>) -> bool {
    t.len() > 0 && t[0] == '-'
}

/// The two spellings of the recognized flag.
pub open spec fn is_ignore_case_flag(t: Seq<char>) -> bool {
    t == "-i"@ || t == "--ignore-case"@
}

/// Resolution from token position `i` on, with the case mode resolved so
/// far: flag tokens are consumed first, then a query token and a
/// file-path token are required; further tokens are ignored.
pub open spec fn resolve_from(args: Seq<Seq<char>>, i: int, ignore_case: bool) -> Result<
    ConfigView,
    ConfigError,
>
    decreases args.len() - i,
{
    if 0 <= i < args.len() && is_flag_token(args[i]) {
        if is_ignore_case_flag(args[i]) {
            resolve_from(args, i + 1, true)
        } else {
            Result::Err(ConfigError::UnknownFlag)
        }
    } else if !(0 <= i < args.len()) {
        Result::Err(ConfigError::MissingQuery)
    } else if i + 1 >= args.len() {
        Result::Err(ConfigError::MissingPath)
    } else {
        Result::Ok(ConfigView { query: args[i], file_path: args[i + 1], ignore_case })
    }
}

/// Resolution of a full argument vector (program name first) under the
/// optional `IGNORE_CASE` environment value.
pub open spec fn spec_resolve(args: Seq<Seq<char>>, env: Option<Seq<char>>) -> Result<
    ConfigView,
    ConfigError,
> {
    resolve_from(args, 1, env_forces_ignore_case(env))
}

/// The view of the environment value handed to the resolver.
pub open spec fn env_view(env: Option<&str>) -> Option<Seq<char>> {
    match env {
        Option::Some(v) => Option::Some(v@),
        Option::None => Option::None,
    }
}

/// The view of a resolution result.
pub open spec fn config_result_view(r: Result<Config, ConfigError>) -> Result<
    ConfigView,
    ConfigError,
> {
    match r {
        Result::Ok(c) => Result::Ok(c@),
        Result::Err(e) => Result::Err(e),
    }
}

/// Folding `"true"` to lowercase leaves it unchanged.
proof fn lemma_true_already_lower()
    ensures
        folded("true"@, true) == "true"@,
{
    reveal_strlit("true");
    assert(folded("true"@, true) =~= "true"@);
}

/// A flag token begins with `-`.
fn is_flag(s: &str) -> (r: bool)
    ensures
        r == is_flag_token(s@),
{
    if s.unicode_len() > 0 {
        s.get_char(0) == '-'
    } else {
        false
    }
}

/// Consumes flag tokens from position `i` on, then takes the query and
/// file-path tokens, exactly as `resolve_from` states.
fn resolve_rec(args: &Vec<String>, i: usize, ignore_case: bool) -> (r: Result<Config, ConfigError>)
    ensures
        config_result_view(r) == resolve_from(args.deep_view(), i as int, ignore_case),
    decreases args@.len() - i,
{
    let ghost argsv = args.deep_view();
    if i < args.len() {
        proof {
            assert(argsv[i as int] == args@[i as int]@);
        }
        let s = &args[i];
        if is_flag(s.as_str()) {
            if str_eq(s.as_str(), "-i") || str_eq(s.as_str(), "--ignore-case") {
                return resolve_rec(args, i + 1, true);
            }
            return Result::Err(ConfigError::UnknownFlag);
        }
    }
    if i >= args.len() {
        return Result::Err(ConfigError::MissingQuery);
    }
    if i + 1 >= args.len() {
        return Result::Err(ConfigError::MissingPath);
    }
    proof {
        assert(argsv[i + 1] == args@[i + 1]@);
    }
    Result::Ok(
        Config { query: args[i].clone(), file_path: args[i + 1].clone(), ignore_case },
    )
}

impl Config {
    /// Resolves command-line tokens (the program name first, then
    /// optional `-i` / `--ignore-case` flags, then the query and the
    /// file path) together with the optional value of the `IGNORE_CASE`
    /// environment variable into a configuration.
    pub fn from(args: &Vec<String>, ignore_case_env: Option<&str>) -> (r: Result<
        Config,
        ConfigError,
    >)
        ensures
            config_result_view(r) == spec_resolve(args.deep_view(), env_view(ignore_case_env)),
    {
        let ignore_case = match ignore_case_env {
            Option::Some(v) => str_eq(v, "1") || {
                proof {
                    lemma_true_already_lower();
                }
                str_eq_folded(v, "true", true)
            },
            Option::None => false,
        };
        proof {
            assert(ignore_case == env_forces_ignore_case(env_view(ignore_case_env)));
        }
        resolve_rec(args, 1, ignore_case)
    }
}

} // verus!
