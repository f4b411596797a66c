//! Merging of the backend-discovered macro groups into compiled profiles.
use vstd::prelude::*;

use crate::config::{AnalysisMacroProfile, AnalysisResult, CDConfig, CDProfile};
use crate::error::ConfigError;
use crate::resolve::{eligible_rva, is_valid_rva};

verus! {

/// The names of a list of compiled profiles, in order.
pub open spec fn profile_names(ps: Seq<CDProfile>) -> Seq<Seq<char>> {
    ps.map_values(|p: CDProfile| p.name@)
}

/// The address lists of a list of compiled profiles, in order.
pub open spec fn profile_symbols(ps: Seq<CDProfile>) -> Seq<Seq<u64>> {
    ps.map_values(|p: CDProfile| p.symbols@)
}

/// Index of the first profile named `name`.
pub open spec fn name_index(names: Seq<Seq<char>>, name: Seq<char>) -> Option<int>
    decreases names.len(),
{
    if names.len() == 0 {
        None
    } else {
        match name_index(names.drop_last(), name) {
            Some(i) => Some(i),
            None => if names.last() == name {
                Some(names.len() - 1)
            } else {
                None
            },
        }
    }
}

/// The first address of `rvas` that may not be protected.
pub open spec fn first_ineligible(a: AnalysisResult, rvas: Seq<u64>) -> Option<u64>
    decreases rvas.len(),
{
    if rvas.len() == 0 {
        None
    } else {
        match first_ineligible(a, rvas.drop_last()) {
            Some(rva) => Some(rva),
            None => if !eligible_rva(a, rvas.last()) {
                Some(rvas.last())
            } else {
                None
            },
        }
    }
}

/// Why a macro group cannot be merged into profiles of these names, if it
/// cannot: its profile must be declared, and each of its addresses eligible.
pub open spec fn group_error(names: Seq<Seq<char>>, g: AnalysisMacroProfile, a: AnalysisResult) -> Option<
    ConfigError,
> {
    match name_index(names, g.name@) {
        None => Some(ConfigError::UnknownMacroProfile(g.name)),
        Some(_) => match first_ineligible(a, g.rvas@) {
            Some(rva) => Some(ConfigError::UnprotectableMacroFunction(rva)),
            None => None,
        },
    }
}

/// The failure of the first macro group, in analysis order, that cannot be
/// merged.
pub open spec fn groups_error(
    names: Seq<Seq<char>>,
    gs: Seq<AnalysisMacroProfile>,
    a: AnalysisResult,
) -> Option<ConfigError>
    decreases gs.len(),
{
    if gs.len() == 0 {
        None
    } else {
        match groups_error(names, gs.drop_last(), a) {
            Some(e) => Some(e),
            None => group_error(names, gs.last(), a),
        }
    }
}

/// The address lists after the groups are merged, one after another: each
/// group's addresses are appended, in their order, to the list of the first
/// profile of the group's name.
pub open spec fn merged_symbols(
    names: Seq<Seq<char>>,
    lists: Seq<Seq<u64>>,
    gs: Seq<AnalysisMacroProfile>,
) -> Seq<Seq<u64>>
    decreases gs.len(),
{
    if gs.len() == 0 {
        lists
    } else {
        let before = merged_symbols(names, lists, gs.drop_last());
        match name_index(names, gs.last().name@) {
            Some(i) => before.update(i, before[i] + gs.last().rvas@),
            None => before,
        }
    }
}

proof fn lemma_name_index(names: Seq<Seq<char>>, name: Seq<char>, i: int)
    requires
        0 <= i <= names.len(),
        forall|k: int| 0 <= k < i ==> #[trigger] names[k] != name,
    ensures
        i == names.len() ==> name_index(names, name) == None::<int>,
        i < names.len() && names[i] == name ==> name_index(names, name) == Some(i),
    decreases names.len(),
{
    if names.len() > 0 {
        if i < names.len() - 1 {
            lemma_name_index(names.drop_last(), name, i);
        } else {
            lemma_name_index(names.drop_last(), name, names.len() - 1);
        }
    }
}

proof fn lemma_name_index_bounds(names: Seq<Seq<char>>, name: Seq<char>)
    ensures
        name_index(names, name) matches Some(i) ==> 0 <= i < names.len() && names[i] == name,
    decreases names.len(),
{
    if names.len() > 0 {
        lemma_name_index_bounds(names.drop_last(), name);
    }
}

proof fn lemma_first_ineligible(a: AnalysisResult, rvas: Seq<u64>, i: int)
    requires
        0 <= i <= rvas.len(),
        forall|k: int| 0 <= k < i ==> eligible_rva(a, #[trigger] rvas[k]),
    ensures
        i == rvas.len() ==> first_ineligible(a, rvas) == None::<u64>,
        i < rvas.len() && !eligible_rva(a, rvas[i]) ==> first_ineligible(a, rvas) == Some(rvas[i]),
    decreases rvas.len(),
{
    if rvas.len() > 0 {
        if i < rvas.len() - 1 {
            lemma_first_ineligible(a, rvas.drop_last(), i);
        } else {
            lemma_first_ineligible(a, rvas.drop_last(), rvas.len() - 1);
        }
    }
}

proof fn lemma_groups_error_prefix(
    names: Seq<Seq<char>>,
    gs: Seq<AnalysisMacroProfile>,
    a: AnalysisResult,
    i: int,
)
    requires
        0 <= i <= gs.len(),
        groups_error(names, gs.subrange(0, i), a) is Some,
    ensures
        groups_error(names, gs, a) == groups_error(names, gs.subrange(0, i), a),
    decreases gs.len() - i,
{
    if i < gs.len() {
        assert(gs.subrange(0, i + 1).drop_last() =~= gs.subrange(0, i));
        lemma_groups_error_prefix(names, gs, a, i + 1);
    } else {
        assert(gs.subrange(0, i) =~= gs);
    }
}

/// Index of the first profile named `name`.
fn find_profile(profiles: &Vec<CDProfile>, name: &String) -> (r: Option<usize>)
    ensures
        match r {
            Some(i) => name_index(profile_names(profiles@), name@) == Some(i as int),
            None => name_index(profile_names(profiles@), name@) == None::<int>,
        },
{
    let ghost names = profile_names(profiles@);
    let mut i: usize = 0;
    while i < profiles.len()
        invariant
            0 <= i <= profiles@.len(),
            names == profile_names(profiles@),
            forall|k: int| 0 <= k < i ==> #[trigger] names[k] != name@,
        decreases profiles@.len() - i,
    {
        if profiles[i].name == *name {
            proof {
                lemma_name_index(names, name@, i as int);
            }
            return Some(i);
        }
        i += 1;
    }
    proof {
        lemma_name_index(names, name@, i as int);
    }
    None
}

/// Why the group cannot be merged into these profiles, if it cannot.
fn check_group(profiles: &Vec<CDProfile>, group: &AnalysisMacroProfile, analysis: &AnalysisResult) -> (r: Result<usize, ConfigError>)
    ensures
        match group_error(profile_names(profiles@), *group, *analysis) {
            Some(e) => r == Err::<usize, ConfigError>(e),
            None => r is Ok && name_index(profile_names(profiles@), group.name@) == Some(
                r->Ok_0 as int,
            ),
        },
{
    let target = match find_profile(profiles, &group.name) {
        Some(t) => t,
        None => {
            return Err(ConfigError::UnknownMacroProfile(group.name.clone()));
        },
    };
    let mut j: usize = 0;
    while j < group.rvas.len()
        invariant
            0 <= j <= group.rvas@.len(),
            name_index(profile_names(profiles@), group.name@) == Some(target as int),
            forall|k: int| 0 <= k < j ==> eligible_rva(*analysis, #[trigger] group.rvas@[k]),
        decreases group.rvas@.len() - j,
    {
        if !is_valid_rva(group.rvas[j], analysis) {
            proof {
                lemma_first_ineligible(*analysis, group.rvas@, j as int);
            }
            return Err(ConfigError::UnprotectableMacroFunction(group.rvas[j]));
        }
        j += 1;
    }
    proof {
        lemma_first_ineligible(*analysis, group.rvas@, j as int);
    }
    Ok(target)
}

/// Appends `rvas`, in order, to the address list of the profile at `target`.
fn append_to_profile(profiles: &mut Vec<CDProfile>, target: usize, rvas: &Vec<u64>)
    requires
        target < old(profiles)@.len(),
    ensures
        final(profiles)@.len() == old(profiles)@.len(),
        forall|k: int|
            0 <= k < old(profiles)@.len() && k != target ==> #[trigger] final(profiles)@[k]
                == old(profiles)@[k],
        final(profiles)@[target as int].name == old(profiles)@[target as int].name,
        final(profiles)@[target as int].passes == old(profiles)@[target as int].passes,
        final(profiles)@[target as int].compiler_settings == old(
            profiles,
        )@[target as int].compiler_settings,
        final(profiles)@[target as int].symbols@ == old(profiles)@[target as int].symbols@
            + rvas@,
{
    let mut profile = profiles.remove(target);
    let ghost removed = profile;
    let mut j: usize = 0;
    while j < rvas.len()
        invariant
            0 <= j <= rvas@.len(),
            profile.name == removed.name,
            profile.passes == removed.passes,
            profile.compiler_settings == removed.compiler_settings,
            profile.symbols@ == removed.symbols@ + rvas@.subrange(0, j as int),
        decreases rvas@.len() - j,
    {
        profile.symbols.push(rvas[j]);
        assert(rvas@.subrange(0, j + 1) =~= rvas@.subrange(0, j as int).push(rvas@[j as int]));
        j += 1;
    }
    assert(rvas@.subrange(0, j as int) =~= rvas@);
    profiles.insert(target, profile);
}

/// `new` is `old` with the groups merged: the same module settings, and the
/// same profiles in the same order, of which only the address lists grew.
pub open spec fn merged_into(new: CDConfig, old: CDConfig, gs: Seq<AnalysisMacroProfile>) -> bool {
    &&& new.module_settings == old.module_settings
    &&& new.profiles@.len() == old.profiles@.len()
    &&& forall|k: int|
        #![trigger new.profiles@[k]]
        0 <= k < new.profiles@.len() ==> {
            &&& new.profiles@[k].name == old.profiles@[k].name
            &&& new.profiles@[k].passes == old.profiles@[k].passes
            &&& new.profiles@[k].compiler_settings == old.profiles@[k].compiler_settings
        }
    &&& profile_symbols(new.profiles@) == merged_symbols(
        profile_names(old.profiles@),
        profile_symbols(old.profiles@),
        gs,
    )
}

/// Merges the analysis' macro groups into the compiled profiles, in analysis
/// order. Every group is checked before any is merged: its profile must be
/// declared and each of its addresses eligible. On the first group that fails
/// its error is returned and the configuration is left as it was; otherwise
/// each group's addresses are appended, in order and without deduplication,
/// after those that the profile already holds.
pub fn merge_macros(config: &mut CDConfig, analysis: &AnalysisResult) -> (r: Result<(), ConfigError>)
    ensures
        match groups_error(profile_names(old(config).profiles@), analysis.macros@, *analysis) {
            Some(e) => r == Err::<(), ConfigError>(e) && *final(config) == *old(config),
            None => r is Ok && merged_into(*final(config), *old(config), analysis.macros@),
        },
{
    let ghost names = profile_names(config.profiles@);
    let ghost lists = profile_symbols(config.profiles@);
    let ghost gs = analysis.macros@;
    let mut targets: Vec<usize> = Vec::new();
    let mut i: usize = 0;
    while i < analysis.macros.len()
        invariant
            0 <= i <= gs.len(),
            gs == analysis.macros@,
            names == profile_names(config.profiles@),
            groups_error(names, gs.subrange(0, i as int), *analysis) is None,
            targets@.len() == i,
            forall|k: int|
                0 <= k < i ==> name_index(names, gs[k].name@) == Some(#[trigger] targets@[k] as int),
        decreases gs.len() - i,
    {
        assert(gs.subrange(0, i + 1).drop_last() =~= gs.subrange(0, i as int));
        match check_group(&config.profiles, &analysis.macros[i], analysis) {
            Ok(t) => targets.push(t),
            Err(e) => {
                proof {
                    lemma_groups_error_prefix(names, gs, *analysis, i + 1);
                }
                return Err(e);
            },
        }
        i += 1;
    }
    assert(gs.subrange(0, i as int) =~= gs);
    let ghost before = *config;
    let mut i: usize = 0;
    while i < analysis.macros.len()
        invariant
            0 <= i <= gs.len(),
            gs == analysis.macros@,
            names == profile_names(before.profiles@),
            lists == profile_symbols(before.profiles@),
            targets@.len() == gs.len(),
            forall|k: int|
                0 <= k < gs.len() ==> name_index(names, gs[k].name@) == Some(
                    #[trigger] targets@[k] as int,
                ),
            config.module_settings == before.module_settings,
            config.profiles@.len() == before.profiles@.len(),
            forall|k: int|
                #![trigger config.profiles@[k]]
                0 <= k < config.profiles@.len() ==> {
                    &&& config.profiles@[k].name == before.profiles@[k].name
                    &&& config.profiles@[k].passes == before.profiles@[k].passes
                    &&& config.profiles@[k].compiler_settings
                        == before.profiles@[k].compiler_settings
                },
            profile_symbols(config.profiles@) == merged_symbols(
                names,
                lists,
                gs.subrange(0, i as int),
            ),
        decreases gs.len() - i,
    {
        let t = targets[i];
        proof {
            lemma_name_index_bounds(names, gs[i as int].name@);
            assert(gs.subrange(0, i + 1).drop_last() =~= gs.subrange(0, i as int));
        }
        let ghost prev = profile_symbols(config.profiles@);
        append_to_profile(&mut config.profiles, t, &analysis.macros[i].rvas);
        assert(profile_symbols(config.profiles@) =~= prev.update(
            t as int,
            prev[t as int] + gs[i as int].rvas@,
        ));
        i += 1;
    }
    assert(gs.subrange(0, i as int) =~= gs);
    Ok(())
}

proof fn lemma_name_index_found(names: Seq<Seq<char>>, name: Seq<char>, p: int)
    requires
        0 <= p < names.len(),
        names[p] == name,
    ensures
        name_index(names, name) is Some,
    decreases names.len(),
{
    if p < names.len() - 1 {
        lemma_name_index_found(names.drop_last(), name, p);
    }
}

proof fn lemma_group_fails(
    names: Seq<Seq<char>>,
    gs: Seq<AnalysisMacroProfile>,
    a: AnalysisResult,
    i: int,
)
    requires
        0 <= i < gs.len(),
        groups_error(names, gs.subrange(0, i), a) is None,
        group_error(names, gs[i], a) is Some,
    ensures
        groups_error(names, gs, a) == group_error(names, gs[i], a),
{
    assert(gs.subrange(0, i + 1).drop_last() =~= gs.subrange(0, i));
    lemma_groups_error_prefix(names, gs, a, i + 1);
}

/// A macro group whose profile the configuration does not declare fails the
/// merge with that profile's name, once the groups before it pass; the merge
/// then leaves every profile as it was.
pub proof fn unknown_macro_profile_fails(
    names: Seq<Seq<char>>,
    gs: Seq<AnalysisMacroProfile>,
    a: AnalysisResult,
    i: int,
)
    requires
        0 <= i < gs.len(),
        groups_error(names, gs.subrange(0, i), a) is None,
        forall|k: int| 0 <= k < names.len() ==> #[trigger] names[k] != gs[i].name@,
    ensures
        groups_error(names, gs, a) == Some(ConfigError::UnknownMacroProfile(gs[i].name)),
{
    lemma_name_index(names, gs[i].name@, names.len() as int);
    lemma_group_fails(names, gs, a, i);
}

/// A macro group of a declared profile with an address that may not be
/// protected fails the merge with the first such address, once the groups
/// before it pass; the merge then appends none of the group's addresses.
pub proof fn ineligible_macro_address_fails(
    names: Seq<Seq<char>>,
    gs: Seq<AnalysisMacroProfile>,
    a: AnalysisResult,
    i: int,
    p: int,
    j: int,
)
    requires
        0 <= i < gs.len(),
        groups_error(names, gs.subrange(0, i), a) is None,
        0 <= p < names.len(),
        names[p] == gs[i].name@,
        0 <= j < gs[i].rvas@.len(),
        !eligible_rva(a, gs[i].rvas@[j]),
        forall|k: int| 0 <= k < j ==> eligible_rva(a, #[trigger] gs[i].rvas@[k]),
    ensures
        groups_error(names, gs, a) == Some(
            ConfigError::UnprotectableMacroFunction(gs[i].rvas@[j]),
        ),
{
    lemma_name_index_found(names, gs[i].name@, p);
    lemma_first_ineligible(a, gs[i].rvas@, j);
    lemma_group_fails(names, gs, a, i);
}

/// Two macro groups of one profile append their addresses after those the
/// profile held: the first group's, then the second's, each in its order,
/// duplicates kept. The other profiles keep their lists.
pub proof fn two_groups_of_one_profile(
    names: Seq<Seq<char>>,
    lists: Seq<Seq<u64>>,
    g1: AnalysisMacroProfile,
    g2: AnalysisMacroProfile,
    p: int,
)
    requires
        names.len() == lists.len(),
        0 <= p < names.len(),
        names[p] == g1.name@,
        forall|k: int| 0 <= k < p ==> #[trigger] names[k] != g1.name@,
        g2.name@ == g1.name@,
    ensures
        merged_symbols(names, lists, seq![g1, g2]) == lists.update(
            p,
            lists[p] + g1.rvas@ + g2.rvas@,
        ),
{
    lemma_name_index(names, g1.name@, p);
    let gs = seq![g1, g2];
    assert(gs.drop_last() =~= seq![g1]);
    assert(seq![g1].drop_last() =~= Seq::<AnalysisMacroProfile>::empty());
    assert(merged_symbols(names, lists, seq![g1].drop_last()) == lists);
    assert(seq![g1].last() == g1 && gs.last() == g2);
    assert(merged_symbols(names, lists, seq![g1]) == lists.update(p, lists[p] + g1.rvas@));
    assert(merged_symbols(names, lists, gs) =~= lists.update(p, lists[p] + g1.rvas@ + g2.rvas@));
}

} // verus!
