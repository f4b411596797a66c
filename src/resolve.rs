//! Resolution of the symbols that a profile declares, by name or by address,
//! against the functions that the analysis found.
use vstd::prelude::*;

use crate::config::{AnalysisFunction, AnalysisReject, AnalysisResult, YamlSymbol};
use crate::error::ConfigError;

verus! {

/// Rejection category of functions that are left out by default but stay
/// resolvable when a profile targets them explicitly.
pub const FORCE_RESOLVE_CATEGORY: &'static str = "ReadWriteToCode";

/// Whether a rejected function may still be targeted explicitly.
pub open spec fn is_force_resolvable(r: AnalysisReject) -> bool {
    r.ty@ == FORCE_RESOLVE_CATEGORY@
}

/// An address may be protected when it is the address of an analysed
/// function, or of a rejected one whose category allows it.
pub open spec fn eligible_rva(a: AnalysisResult, rva: u64) -> bool {
    (exists|i: int| 0 <= i < a.functions@.len() && #[trigger] a.functions@[i].rva == rva)
        || (exists|j: int|
        0 <= j < a.rejects@.len() && #[trigger] a.rejects@[j].rva == rva && is_force_resolvable(
            a.rejects@[j],
        ))
}

/// Address of the first function in `fs` named `name`.
pub open spec fn function_rva_named(fs: Seq<AnalysisFunction>, name: Seq<char>) -> Option<u64>
    decreases fs.len(),
{
    if fs.len() == 0 {
        None
    } else {
        match function_rva_named(fs.drop_last(), name) {
            Some(rva) => Some(rva),
            None => if fs.last().symbol@ == name {
                Some(fs.last().rva)
            } else {
                None
            },
        }
    }
}

/// Address of the first force-resolvable rejection in `rs` named `name`.
pub open spec fn forced_reject_rva_named(rs: Seq<AnalysisReject>, name: Seq<char>) -> Option<u64>
    decreases rs.len(),
{
    if rs.len() == 0 {
        None
    } else {
        match forced_reject_rva_named(rs.drop_last(), name) {
            Some(rva) => Some(rva),
            None => if rs.last().symbol@ == name && is_force_resolvable(rs.last()) {
                Some(rs.last().rva)
            } else {
                None
            },
        }
    }
}

/// A name resolves to the first analysed function of that name, and failing
/// that to the first force-resolvable rejection of that name.
pub open spec fn resolve_name(a: AnalysisResult, name: Seq<char>) -> Option<u64> {
    match function_rva_named(a.functions@, name) {
        Some(rva) => Some(rva),
        None => forced_reject_rva_named(a.rejects@, name),
    }
}

/// What a single symbol resolves to.
pub open spec fn resolve_symbol_spec(a: AnalysisResult, s: YamlSymbol) -> Result<u64, ConfigError> {
    match s {
        YamlSymbol::Name(name) => match resolve_name(a, name@) {
            Some(rva) => Ok(rva),
            None => Err(ConfigError::UnresolvedSymbolName(name)),
        },
        YamlSymbol::Rva(rva) => if eligible_rva(a, rva) {
            Ok(rva)
        } else {
            Err(ConfigError::UnresolvedSymbolAddress(rva))
        },
    }
}

/// What a list of symbols resolves to: every address in declaration order,
/// or the failure of the first symbol that does not resolve.
pub open spec fn resolve_all(a: AnalysisResult, syms: Seq<YamlSymbol>) -> Result<
    Seq<u64>,
    ConfigError,
>
    decreases syms.len(),
{
    if syms.len() == 0 {
        Ok(Seq::empty())
    } else {
        match resolve_all(a, syms.drop_last()) {
            Err(e) => Err(e),
            Ok(prefix) => match resolve_symbol_spec(a, syms.last()) {
                Ok(rva) => Ok(prefix.push(rva)),
                Err(e) => Err(e),
            },
        }
    }
}

proof fn lemma_function_rva_named(fs: Seq<AnalysisFunction>, name: Seq<char>, i: int)
    requires
        0 <= i <= fs.len(),
        forall|k: int| 0 <= k < i ==> (#[trigger] fs[k]).symbol@ != name,
    ensures
        i == fs.len() ==> function_rva_named(fs, name) == None::<u64>,
        i < fs.len() && fs[i].symbol@ == name ==> function_rva_named(fs, name) == Some(fs[i].rva),
    decreases fs.len(),
{
    if fs.len() > 0 {
        if i < fs.len() - 1 {
            lemma_function_rva_named(fs.drop_last(), name, i);
        } else {
            lemma_function_rva_named(fs.drop_last(), name, fs.len() - 1);
        }
    }
}

proof fn lemma_forced_reject_rva_named(rs: Seq<AnalysisReject>, name: Seq<char>, i: int)
    requires
        0 <= i <= rs.len(),
        forall|k: int|
            0 <= k < i ==> !((#[trigger] rs[k]).symbol@ == name && is_force_resolvable(rs[k])),
    ensures
        i == rs.len() ==> forced_reject_rva_named(rs, name) == None::<u64>,
        i < rs.len() && rs[i].symbol@ == name && is_force_resolvable(rs[i])
            ==> forced_reject_rva_named(rs, name) == Some(rs[i].rva),
    decreases rs.len(),
{
    if rs.len() > 0 {
        if i < rs.len() - 1 {
            lemma_forced_reject_rva_named(rs.drop_last(), name, i);
        } else {
            lemma_forced_reject_rva_named(rs.drop_last(), name, rs.len() - 1);
        }
    }
}

/// Whether a rejection category is the one that allows explicit targeting.
fn is_force_resolvable_category(ty: &String) -> (r: bool)
    ensures
        r == (ty@ == FORCE_RESOLVE_CATEGORY@),
{
    let forced = String::from_str(FORCE_RESOLVE_CATEGORY);
    *ty == forced
}

/// Whether `rva` may be protected: it is the address of an analysed function
/// or of a rejected function whose category allows explicit targeting.
pub fn is_valid_rva(rva: u64, analysis: &AnalysisResult) -> (r: bool)
    ensures
        r == eligible_rva(*analysis, rva),
{
    let mut i: usize = 0;
    while i < analysis.functions.len()
        invariant
            0 <= i <= analysis.functions@.len(),
            forall|k: int| 0 <= k < i ==> (#[trigger] analysis.functions@[k]).rva != rva,
        decreases analysis.functions@.len() - i,
    {
        if analysis.functions[i].rva == rva {
            return true;
        }
        i += 1;
    }
    let mut j: usize = 0;
    while j < analysis.rejects.len()
        invariant
            0 <= j <= analysis.rejects@.len(),
            forall|k: int| 0 <= k < analysis.functions@.len() ==> (#[trigger] analysis.functions@[k]).rva != rva,
            forall|k: int|
                0 <= k < j ==> !((#[trigger] analysis.rejects@[k]).rva == rva
                    && is_force_resolvable(analysis.rejects@[k])),
        decreases analysis.rejects@.len() - j,
    {
        let r = &analysis.rejects[j];
        if r.rva == rva && is_force_resolvable_category(&r.ty) {
            return true;
        }
        j += 1;
    }
    false
}

/// Address of the first analysed function named `name`.
fn find_function_rva(name: &String, analysis: &AnalysisResult) -> (r: Option<u64>)
    ensures
        r == function_rva_named(analysis.functions@, name@),
{
    let mut i: usize = 0;
    while i < analysis.functions.len()
        invariant
            0 <= i <= analysis.functions@.len(),
            forall|k: int| 0 <= k < i ==> (#[trigger] analysis.functions@[k]).symbol@ != name@,
        decreases analysis.functions@.len() - i,
    {
        if analysis.functions[i].symbol == *name {
            proof {
                lemma_function_rva_named(analysis.functions@, name@, i as int);
            }
            return Some(analysis.functions[i].rva);
        }
        i += 1;
    }
    proof {
        lemma_function_rva_named(analysis.functions@, name@, i as int);
    }
    None
}

/// Address of the first force-resolvable rejection named `name`.
fn find_forced_reject_rva(name: &String, analysis: &AnalysisResult) -> (r: Option<u64>)
    ensures
        r == forced_reject_rva_named(analysis.rejects@, name@),
{
    let mut i: usize = 0;
    while i < analysis.rejects.len()
        invariant
            0 <= i <= analysis.rejects@.len(),
            forall|k: int|
                0 <= k < i ==> !((#[trigger] analysis.rejects@[k]).symbol@ == name@
                    && is_force_resolvable(analysis.rejects@[k])),
        decreases analysis.rejects@.len() - i,
    {
        let r = &analysis.rejects[i];
        if r.symbol == *name && is_force_resolvable_category(&r.ty) {
            proof {
                lemma_forced_reject_rva_named(analysis.rejects@, name@, i as int);
            }
            return Some(r.rva);
        }
        i += 1;
    }
    proof {
        lemma_forced_reject_rva_named(analysis.rejects@, name@, i as int);
    }
    None
}

/// Resolves one symbol: a name to the address of the first analysed function
/// of that name, else of the first force-resolvable rejection of that name;
/// an address to itself once it is known to be eligible.
pub fn resolve_symbol(symbol: &YamlSymbol, analysis: &AnalysisResult) -> (r: Result<
    u64,
    ConfigError,
>)
    ensures
        r == resolve_symbol_spec(*analysis, *symbol),
{
    match symbol {
        YamlSymbol::Name(name) => match find_function_rva(name, analysis) {
            Some(rva) => Ok(rva),
            None => match find_forced_reject_rva(name, analysis) {
                Some(rva) => Ok(rva),
                None => Err(ConfigError::UnresolvedSymbolName(name.clone())),
            },
        },
        YamlSymbol::Rva(rva) => {
            if is_valid_rva(*rva, analysis) {
                Ok(*rva)
            } else {
                Err(ConfigError::UnresolvedSymbolAddress(*rva))
            }
        },
    }
}

proof fn lemma_resolve_all_err_prefix(a: AnalysisResult, syms: Seq<YamlSymbol>, i: int)
    requires
        0 <= i <= syms.len(),
        resolve_all(a, syms.subrange(0, i)) is Err,
    ensures
        resolve_all(a, syms) == resolve_all(a, syms.subrange(0, i)),
    decreases syms.len() - i,
{
    if i < syms.len() {
        assert(syms.subrange(0, i + 1).drop_last() =~= syms.subrange(0, i));
        lemma_resolve_all_err_prefix(a, syms, i + 1);
    } else {
        assert(syms.subrange(0, i) =~= syms);
    }
}

/// Resolves a profile's symbols in declaration order. The first symbol that
/// does not resolve stops the work, and its failure is returned.
pub fn resolve_symbols(symbols: &[YamlSymbol], analysis: &AnalysisResult) -> (r: Result<
    Vec<u64>,
    ConfigError,
>)
    ensures
        match r {
            Ok(v) => resolve_all(*analysis, symbols@) == Ok::<Seq<u64>, ConfigError>(v@),
            Err(e) => resolve_all(*analysis, symbols@) == Err::<Seq<u64>, ConfigError>(e),
        },
{
    let mut resolved: Vec<u64> = Vec::new();
    let mut i: usize = 0;
    while i < symbols.len()
        invariant
            0 <= i <= symbols@.len(),
            resolve_all(*analysis, symbols@.subrange(0, i as int)) == Ok::<Seq<u64>, ConfigError>(
                resolved@,
            ),
        decreases symbols@.len() - i,
    {
        let step = resolve_symbol(&symbols[i], analysis);
        assert(symbols@.subrange(0, i + 1).drop_last() =~= symbols@.subrange(0, i as int));
        match step {
            Ok(rva) => resolved.push(rva),
            Err(e) => {
                proof {
                    lemma_resolve_all_err_prefix(*analysis, symbols@, i + 1);
                }
                return Err(e);
            },
        }
        i += 1;
    }
    assert(symbols@.subrange(0, i as int) =~= symbols@);
    Ok(resolved)
}

/// A name that an analysed function carries resolves to the address of the
/// first function of that name, whatever the rejections hold.
pub proof fn name_of_function_resolves_to_it(a: AnalysisResult, name: String, i: int)
    requires
        0 <= i < a.functions@.len(),
        a.functions@[i].symbol@ == name@,
        forall|k: int| 0 <= k < i ==> (#[trigger] a.functions@[k]).symbol@ != name@,
    ensures
        resolve_symbol_spec(a, YamlSymbol::Name(name)) == Ok::<u64, ConfigError>(a.functions@[i].rva),
{
    lemma_function_rva_named(a.functions@, name@, i);
}

/// A name that no analysed function carries resolves to the address of the
/// first rejection of that name whose category allows explicit targeting.
pub proof fn name_of_forced_reject_resolves_to_it(a: AnalysisResult, name: String, j: int)
    requires
        forall|k: int| 0 <= k < a.functions@.len() ==> (#[trigger] a.functions@[k]).symbol@ != name@,
        0 <= j < a.rejects@.len(),
        a.rejects@[j].symbol@ == name@,
        is_force_resolvable(a.rejects@[j]),
        forall|k: int|
            0 <= k < j ==> !((#[trigger] a.rejects@[k]).symbol@ == name@ && is_force_resolvable(
                a.rejects@[k],
            )),
    ensures
        resolve_symbol_spec(a, YamlSymbol::Name(name)) == Ok::<u64, ConfigError>(a.rejects@[j].rva),
{
    lemma_function_rva_named(a.functions@, name@, a.functions@.len() as int);
    lemma_forced_reject_rva_named(a.rejects@, name@, j);
}

/// A name that no analysed function carries, and that only rejections of
/// other categories carry, does not resolve.
pub proof fn name_of_other_reject_fails(a: AnalysisResult, name: String)
    requires
        forall|k: int| 0 <= k < a.functions@.len() ==> (#[trigger] a.functions@[k]).symbol@ != name@,
        forall|k: int|
            0 <= k < a.rejects@.len() && (#[trigger] a.rejects@[k]).symbol@ == name@
                ==> !is_force_resolvable(a.rejects@[k]),
    ensures
        resolve_symbol_spec(a, YamlSymbol::Name(name)) == Err::<u64, ConfigError>(
            ConfigError::UnresolvedSymbolName(name),
        ),
{
    lemma_function_rva_named(a.functions@, name@, a.functions@.len() as int);
    lemma_forced_reject_rva_named(a.rejects@, name@, a.rejects@.len() as int);
}

/// An address of no analysed function, and of no rejection whose category
/// allows explicit targeting, does not resolve.
pub proof fn ineligible_address_fails(a: AnalysisResult, rva: u64)
    requires
        forall|k: int| 0 <= k < a.functions@.len() ==> (#[trigger] a.functions@[k]).rva != rva,
        forall|k: int|
            0 <= k < a.rejects@.len() && (#[trigger] a.rejects@[k]).rva == rva
                ==> !is_force_resolvable(a.rejects@[k]),
    ensures
        resolve_symbol_spec(a, YamlSymbol::Rva(rva)) == Err::<u64, ConfigError>(
            ConfigError::UnresolvedSymbolAddress(rva),
        ),
{
}

} // verus!
