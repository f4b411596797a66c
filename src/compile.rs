//! Compilation of the declared profiles into backend-ready profiles.
use vstd::prelude::*;

use crate::config::{
    AnalysisResult, CDConfig, CDProfile, ObfuscationPass, YamlConfig, YamlProfile, YamlSymbol,
};
use crate::error::ConfigError;
use crate::resolve::{resolve_all, resolve_symbol_spec, resolve_symbols};

verus! {

/// `p` is what `y` compiles to: the same name, passes and compiler settings,
/// and every declared symbol resolved, in order.
pub open spec fn compiled_profile(p: CDProfile, y: YamlProfile, a: AnalysisResult) -> bool {
    &&& p.name == y.name
    &&& p.passes@ == y.passes@
    &&& p.compiler_settings == y.compiler_settings
    &&& resolve_all(a, y.symbols@) == Ok::<Seq<u64>, ConfigError>(p.symbols@)
}

/// The failure of the first profile, in declaration order, that does not
/// compile.
pub open spec fn first_profile_error(ys: Seq<YamlProfile>, a: AnalysisResult) -> Option<
    ConfigError,
>
    decreases ys.len(),
{
    if ys.len() == 0 {
        None
    } else {
        match first_profile_error(ys.drop_last(), a) {
            Some(e) => Some(e),
            None => match resolve_all(a, ys.last().symbols@) {
                Ok(_) => None,
                Err(e) => Some(e),
            },
        }
    }
}

/// `c` is what `y` compiles to: the same module settings, and one compiled
/// profile for each declared one, in the same order.
pub open spec fn compiled_config(c: CDConfig, y: YamlConfig, a: AnalysisResult) -> bool {
    &&& c.module_settings == y.module_settings
    &&& c.profiles@.len() == y.profiles@.len()
    &&& forall|k: int|
        0 <= k < c.profiles@.len() ==> compiled_profile(
            #[trigger] c.profiles@[k],
            y.profiles@[k],
            a,
        )
}

proof fn lemma_first_profile_error_prefix(ys: Seq<YamlProfile>, a: AnalysisResult, i: int)
    requires
        0 <= i <= ys.len(),
        first_profile_error(ys.subrange(0, i), a) is Some,
    ensures
        first_profile_error(ys, a) == first_profile_error(ys.subrange(0, i), a),
    decreases ys.len() - i,
{
    if i < ys.len() {
        assert(ys.subrange(0, i + 1).drop_last() =~= ys.subrange(0, i));
        lemma_first_profile_error_prefix(ys, a, i + 1);
    } else {
        assert(ys.subrange(0, i) =~= ys);
    }
}

fn copy_passes(passes: &Vec<ObfuscationPass>) -> (r: Vec<ObfuscationPass>)
    ensures
        r@ == passes@,
{
    let mut out: Vec<ObfuscationPass> = Vec::new();
    let mut i: usize = 0;
    while i < passes.len()
        invariant
            0 <= i <= passes@.len(),
            out@ == passes@.subrange(0, i as int),
        decreases passes@.len() - i,
    {
        out.push(passes[i]);
        assert(passes@.subrange(0, i + 1) =~= passes@.subrange(0, i as int).push(passes@[i as int]));
        i += 1;
    }
    assert(passes@.subrange(0, i as int) =~= passes@);
    out
}

/// Compiles one profile: its symbols are resolved in declaration order and
/// its passes and compiler settings are carried through unchanged. The first
/// symbol that does not resolve fails the whole profile.
pub fn compile_profile(profile: &YamlProfile, analysis: &AnalysisResult) -> (r: Result<
    CDProfile,
    ConfigError,
>)
    ensures
        match r {
            Ok(p) => compiled_profile(p, *profile, *analysis),
            Err(e) => resolve_all(*analysis, profile.symbols@) == Err::<Seq<u64>, ConfigError>(e),
        },
{
    let symbols = resolve_symbols(profile.symbols.as_slice(), analysis)?;
    Ok(
        CDProfile {
            name: profile.name.clone(),
            passes: copy_passes(&profile.passes),
            compiler_settings: profile.compiler_settings.clone(),
            symbols,
        },
    )
}

/// Compiles every declared profile, in declaration order, and keeps the
/// module settings. The first profile that fails stops the work: no partial
/// configuration is produced.
pub fn compile_config(config: &YamlConfig, analysis: &AnalysisResult) -> (r: Result<
    CDConfig,
    ConfigError,
>)
    ensures
        match first_profile_error(config.profiles@, *analysis) {
            Some(e) => r == Err::<CDConfig, ConfigError>(e),
            None => r is Ok && compiled_config(r->Ok_0, *config, *analysis),
        },
{
    let mut profiles: Vec<CDProfile> = Vec::new();
    let mut i: usize = 0;
    while i < config.profiles.len()
        invariant
            0 <= i <= config.profiles@.len(),
            first_profile_error(config.profiles@.subrange(0, i as int), *analysis) is None,
            profiles@.len() == i,
            forall|k: int|
                0 <= k < i ==> compiled_profile(
                    #[trigger] profiles@[k],
                    config.profiles@[k],
                    *analysis,
                ),
        decreases config.profiles@.len() - i,
    {
        assert(config.profiles@.subrange(0, i + 1).drop_last() =~= config.profiles@.subrange(
            0,
            i as int,
        ));
        match compile_profile(&config.profiles[i], analysis) {
            Ok(p) => profiles.push(p),
            Err(e) => {
                proof {
                    lemma_first_profile_error_prefix(config.profiles@, *analysis, i + 1);
                }
                return Err(e);
            },
        }
        i += 1;
    }
    assert(config.profiles@.subrange(0, i as int) =~= config.profiles@);
    Ok(CDConfig { module_settings: config.module_settings.clone(), profiles })
}

proof fn lemma_unresolved_symbol(a: AnalysisResult, syms: Seq<YamlSymbol>, i: int)
    requires
        0 <= i < syms.len(),
        resolve_symbol_spec(a, syms[i]) is Err,
    ensures
        resolve_all(a, syms) is Err,
    decreases syms.len(),
{
    if i < syms.len() - 1 {
        lemma_unresolved_symbol(a, syms.drop_last(), i);
    }
}

proof fn lemma_failing_profile(ys: Seq<YamlProfile>, a: AnalysisResult, p: int)
    requires
        0 <= p < ys.len(),
        resolve_all(a, ys[p].symbols@) is Err,
    ensures
        first_profile_error(ys, a) is Some,
    decreases ys.len(),
{
    if p < ys.len() - 1 {
        lemma_failing_profile(ys.drop_last(), a, p);
    }
}

/// A profile with one symbol that does not resolve does not compile, whatever
/// its other symbols are, and no configuration is produced from a list of
/// profiles that holds it.
pub proof fn unresolved_symbol_fails_compilation(ys: Seq<YamlProfile>, a: AnalysisResult, p: int, i: int)
    requires
        0 <= p < ys.len(),
        0 <= i < ys[p].symbols@.len(),
        resolve_symbol_spec(a, ys[p].symbols@[i]) is Err,
    ensures
        resolve_all(a, ys[p].symbols@) is Err,
        first_profile_error(ys, a) is Some,
{
    lemma_unresolved_symbol(a, ys[p].symbols@, i);
    lemma_failing_profile(ys, a, p);
}

} // verus!
