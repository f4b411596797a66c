//! The request submitted to the backend, built from the declared
//! configuration and the analysis result.
use vstd::prelude::*;

use crate::compile::{compile_config, compiled_config, first_profile_error};
use crate::config::{AnalysisResult, CDConfig, YamlConfig, YamlProfile};
use crate::error::ConfigError;
use crate::merge::{groups_error, merge_macros, merged_into, merged_symbols, profile_names, profile_symbols};
use crate::resolve::resolve_all;

verus! {

/// The names of the declared profiles, in order.
pub open spec fn declared_names(ys: Seq<YamlProfile>) -> Seq<Seq<char>> {
    ys.map_values(|y: YamlProfile| y.name@)
}

/// The resolved address lists of the declared profiles, in order.
pub open spec fn resolved_lists(ys: Seq<YamlProfile>, a: AnalysisResult) -> Seq<Seq<u64>> {
    ys.map_values(|y: YamlProfile| resolve_all(a, y.symbols@)->Ok_0)
}

/// `c` is the request built from `y`: the same module settings; one profile
/// for each declared one, in order, with its name, passes and compiler
/// settings; and as address lists the resolved symbols with the macro groups
/// merged after them.
pub open spec fn built_config(c: CDConfig, y: YamlConfig, a: AnalysisResult) -> bool {
    &&& c.module_settings == y.module_settings
    &&& c.profiles@.len() == y.profiles@.len()
    &&& forall|k: int|
        #![trigger c.profiles@[k]]
        0 <= k < c.profiles@.len() ==> {
            &&& c.profiles@[k].name == y.profiles@[k].name
            &&& c.profiles@[k].passes@ == y.profiles@[k].passes@
            &&& c.profiles@[k].compiler_settings == y.profiles@[k].compiler_settings
        }
    &&& profile_symbols(c.profiles@) == merged_symbols(
        declared_names(y.profiles@),
        resolved_lists(y.profiles@, a),
        a.macros@,
    )
}

/// Builds the request for the backend: every declared profile is compiled,
/// then the analysis' macro groups are merged. The first failure, of a
/// profile and then of a macro group, is returned, and no request is.
pub fn build_config(config: &YamlConfig, analysis: &AnalysisResult) -> (r: Result<
    CDConfig,
    ConfigError,
>)
    ensures
        match first_profile_error(config.profiles@, *analysis) {
            Some(e) => r == Err::<CDConfig, ConfigError>(e),
            None => match groups_error(declared_names(config.profiles@), analysis.macros@, *analysis) {
                Some(e) => r == Err::<CDConfig, ConfigError>(e),
                None => r is Ok && built_config(r->Ok_0, *config, *analysis),
            },
        },
{
    let mut compiled = compile_config(config, analysis)?;
    let ghost before = compiled;
    proof {
        assert(profile_names(before.profiles@) =~= declared_names(config.profiles@));
        assert(profile_symbols(before.profiles@) =~= resolved_lists(config.profiles@, *analysis));
    }
    merge_macros(&mut compiled, analysis)?;
    proof {
        assert(merged_into(compiled, before, analysis.macros@));
        assert(compiled_config(before, *config, *analysis));
    }
    Ok(compiled)
}

} // verus!
