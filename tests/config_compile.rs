use codedefender::compile::{compile_config, compile_profile};
use codedefender::config::{
    AnalysisFunction, AnalysisMacroProfile, AnalysisReject, AnalysisResult, AssemblerSettings,
    BitWidths, CDCompilerSettings, CDConfig, CDModuleSettings, CDProfile, CustomSectionName,
    FakePdbString, LifterSettings, MutationEngine, MutationEngineExtension, ObfuscationPass,
    OptimizationSettings, PeEnvironment, Semantics, YamlConfig, YamlProfile, YamlSymbol,
};
use codedefender::error::ConfigError;
use codedefender::merge::merge_macros;
use codedefender::request::build_config;
use codedefender::resolve::{is_valid_rva, resolve_symbol, resolve_symbols};

fn settings() -> CDCompilerSettings {
    CDCompilerSettings {
        assembler_settings: AssemblerSettings {
            shuffle_basic_blocks: true,
            instruction_prefix: "0x3E".to_string(),
            random_prefix_chance_bits: 0.25f64.to_bits(),
        },
        optimization_settings: OptimizationSettings {
            constant_propagation: true,
            instruction_combine: true,
            dead_code_elim: true,
            prune_useless_block_params: false,
            iterations: 2,
        },
        lifter_settings: LifterSettings {
            lift_calls: true,
            calling_convention: "WindowsAbi".to_string(),
            max_stack_copy_size: 1024,
            split_on_calls_fallback: false,
        },
    }
}

fn module_settings() -> CDModuleSettings {
    CDModuleSettings {
        ida_crasher: false,
        import_protection: true,
        obscure_entry_point: false,
        clear_unwind_info: false,
        fake_pdb_string: FakePdbString { enabled: true, value: "fake.pdb".to_string() },
        custom_section_name: CustomSectionName { enabled: false, value: ".text".to_string() },
    }
}

fn mutation_pass() -> ObfuscationPass {
    let all = Semantics { add: true, sub: true, and: true, xor: true, or: true, not: true, neg: true };
    ObfuscationPass::MutationEngine(MutationEngine {
        iterations: 3,
        probability: 50,
        extension: MutationEngineExtension::SSE,
        semantics: all,
        bitwidths: BitWidths { bit8: false, bit16: true, bit32: true, bit64: true },
    })
}

fn function(rva: u64, name: &str) -> AnalysisFunction {
    AnalysisFunction { rva, symbol: name.to_string(), ref_count: 1 }
}

fn reject(rva: u64, name: &str, ty: &str) -> AnalysisReject {
    AnalysisReject { rva, symbol: name.to_string(), ty: ty.to_string(), reason: "excluded".to_string() }
}

fn group(name: &str, rvas: Vec<u64>) -> AnalysisMacroProfile {
    AnalysisMacroProfile { name: name.to_string(), rvas }
}

fn analysis(
    functions: Vec<AnalysisFunction>,
    rejects: Vec<AnalysisReject>,
    macros: Vec<AnalysisMacroProfile>,
) -> AnalysisResult {
    AnalysisResult { environment: PeEnvironment::UserMode, functions, rejects, macros }
}

fn name(s: &str) -> YamlSymbol {
    YamlSymbol::Name(s.to_string())
}

fn yaml_profile(profile_name: &str, symbols: Vec<YamlSymbol>) -> YamlProfile {
    YamlProfile {
        name: profile_name.to_string(),
        passes: vec![mutation_pass(), ObfuscationPass::ObscureConstants],
        compiler_settings: settings(),
        symbols,
        color: None,
    }
}

fn yaml_config(profiles: Vec<YamlProfile>) -> YamlConfig {
    YamlConfig { version: "1.0.0".to_string(), module_settings: module_settings(), profiles }
}

fn compiled(profile_name: &str, symbols: Vec<u64>) -> CDProfile {
    CDProfile { name: profile_name.to_string(), passes: vec![], compiler_settings: settings(), symbols }
}

fn symbols_of(c: &CDConfig) -> Vec<Vec<u64>> {
    c.profiles.iter().map(|p| p.symbols.clone()).collect()
}

#[test]
fn name_resolves_to_function_before_rejection() {
    let a = analysis(
        vec![function(0x1000, "foo")],
        vec![reject(0x9000, "foo", "ReadWriteToCode")],
        vec![],
    );
    assert_eq!(resolve_symbol(&name("foo"), &a), Ok(0x1000));
}

#[test]
fn name_resolves_to_first_of_duplicate_functions() {
    let a = analysis(vec![function(0x1000, "foo"), function(0x2000, "foo")], vec![], vec![]);
    assert_eq!(resolve_symbol(&name("foo"), &a), Ok(0x1000));
}

#[test]
fn name_resolves_to_forced_rejection() {
    let a = analysis(
        vec![function(0x1000, "bar")],
        vec![reject(0x3000, "foo", "Other"), reject(0x4000, "foo", "ReadWriteToCode")],
        vec![],
    );
    assert_eq!(resolve_symbol(&name("foo"), &a), Ok(0x4000));
}

#[test]
fn name_of_other_rejection_fails() {
    let a = analysis(vec![function(0x1000, "bar")], vec![reject(0x3000, "foo", "Exception")], vec![]);
    assert_eq!(
        resolve_symbol(&name("foo"), &a),
        Err(ConfigError::UnresolvedSymbolName("foo".to_string()))
    );
}

#[test]
fn unknown_name_fails() {
    let a = analysis(vec![], vec![], vec![]);
    assert_eq!(
        resolve_symbol(&name("missing"), &a),
        Err(ConfigError::UnresolvedSymbolName("missing".to_string()))
    );
}

#[test]
fn address_of_function_is_valid() {
    let a = analysis(vec![function(0x1000, "foo")], vec![reject(0x2000, "bar", "Other")], vec![]);
    assert!(is_valid_rva(0x1000, &a));
    assert!(!is_valid_rva(0x2000, &a));
    assert_eq!(resolve_symbol(&YamlSymbol::Rva(0x1000), &a), Ok(0x1000));
}

#[test]
fn address_of_forced_rejection_is_valid() {
    let a = analysis(vec![], vec![reject(0x2000, "bar", "ReadWriteToCode")], vec![]);
    assert!(is_valid_rva(0x2000, &a));
    assert_eq!(resolve_symbol(&YamlSymbol::Rva(0x2000), &a), Ok(0x2000));
}

#[test]
fn ineligible_address_fails() {
    let a = analysis(
        vec![function(0x1000, "foo")],
        vec![reject(0x2000, "bar", "readwritetocode")],
        vec![],
    );
    assert_eq!(
        resolve_symbol(&YamlSymbol::Rva(0x2000), &a),
        Err(ConfigError::UnresolvedSymbolAddress(0x2000))
    );
    assert_eq!(
        resolve_symbol(&YamlSymbol::Rva(0x5000), &a),
        Err(ConfigError::UnresolvedSymbolAddress(0x5000))
    );
}

#[test]
fn symbols_resolve_in_declaration_order_with_duplicates() {
    let a = analysis(
        vec![function(0x1000, "foo"), function(0x2000, "bar")],
        vec![reject(0x3000, "baz", "ReadWriteToCode")],
        vec![],
    );
    let syms = vec![name("bar"), YamlSymbol::Rva(0x3000), name("foo"), name("bar")];
    assert_eq!(resolve_symbols(&syms, &a), Ok(vec![0x2000, 0x3000, 0x1000, 0x2000]));
    assert_eq!(resolve_symbols(&[], &a), Ok(vec![]));
}

#[test]
fn first_failing_symbol_is_reported() {
    let a = analysis(vec![function(0x1000, "foo")], vec![], vec![]);
    let syms = vec![name("foo"), YamlSymbol::Rva(0x7000), name("nope")];
    assert_eq!(resolve_symbols(&syms, &a), Err(ConfigError::UnresolvedSymbolAddress(0x7000)));
}

#[test]
fn profile_with_one_invalid_symbol_does_not_compile() {
    let a = analysis(vec![function(0x1000, "foo")], vec![], vec![]);
    let p = yaml_profile("P", vec![name("nope"), name("foo")]);
    assert_eq!(
        compile_profile(&p, &a).unwrap_err(),
        ConfigError::UnresolvedSymbolName("nope".to_string())
    );
    let p = yaml_profile("P", vec![name("foo"), YamlSymbol::Rva(0x4242)]);
    assert_eq!(compile_profile(&p, &a).unwrap_err(), ConfigError::UnresolvedSymbolAddress(0x4242));
    let config = yaml_config(vec![
        yaml_profile("Good", vec![name("foo")]),
        yaml_profile("Bad", vec![name("foo"), name("nope")]),
    ]);
    assert_eq!(
        compile_config(&config, &a).unwrap_err(),
        ConfigError::UnresolvedSymbolName("nope".to_string())
    );
}

#[test]
fn compiled_profile_carries_passes_and_settings() {
    let a = analysis(vec![function(0x1000, "foo")], vec![], vec![]);
    let p = yaml_profile("P", vec![name("foo"), YamlSymbol::Rva(0x1000)]);
    let c = compile_profile(&p, &a).unwrap();
    assert_eq!(c.name, "P");
    assert_eq!(c.symbols, vec![0x1000, 0x1000]);
    assert_eq!(c.passes, vec![mutation_pass(), ObfuscationPass::ObscureConstants]);
    assert_eq!(c.compiler_settings.lifter_settings.calling_convention, "WindowsAbi");
    assert_eq!(c.compiler_settings.assembler_settings.instruction_prefix, "0x3E");
    assert_eq!(f64::from_bits(c.compiler_settings.assembler_settings.random_prefix_chance_bits), 0.25);
    assert_eq!(c.compiler_settings.optimization_settings.iterations, 2);
}

#[test]
fn compiled_config_keeps_profile_order_and_module_settings() {
    let a = analysis(vec![function(0x1000, "foo"), function(0x2000, "bar")], vec![], vec![]);
    let config = yaml_config(vec![
        yaml_profile("A", vec![name("bar")]),
        yaml_profile("B", vec![]),
        yaml_profile("C", vec![name("foo"), name("bar")]),
    ]);
    let c = compile_config(&config, &a).unwrap();
    let names: Vec<&str> = c.profiles.iter().map(|p| p.name.as_str()).collect();
    assert_eq!(names, vec!["A", "B", "C"]);
    assert_eq!(symbols_of(&c), vec![vec![0x2000], vec![], vec![0x1000, 0x2000]]);
    assert!(c.module_settings.import_protection);
    assert_eq!(c.module_settings.fake_pdb_string.value, "fake.pdb");
}

#[test]
fn unknown_macro_profile_leaves_config_unchanged() {
    let a = analysis(
        vec![function(0x1000, "foo"), function(0x2000, "bar")],
        vec![],
        vec![group("P", vec![0x2000]), group("Q", vec![0x1000])],
    );
    let mut config = CDConfig {
        module_settings: module_settings(),
        profiles: vec![compiled("P", vec![0x1000])],
    };
    assert_eq!(
        merge_macros(&mut config, &a),
        Err(ConfigError::UnknownMacroProfile("Q".to_string()))
    );
    assert_eq!(symbols_of(&config), vec![vec![0x1000]]);
}

#[test]
fn ineligible_macro_address_appends_nothing() {
    let a = analysis(
        vec![function(0x1000, "foo"), function(0x2000, "bar")],
        vec![reject(0x3000, "baz", "Other")],
        vec![group("P", vec![0x2000, 0x3000, 0x1000])],
    );
    let mut config = CDConfig {
        module_settings: module_settings(),
        profiles: vec![compiled("P", vec![0x1000])],
    };
    assert_eq!(merge_macros(&mut config, &a), Err(ConfigError::UnprotectableMacroFunction(0x3000)));
    assert_eq!(symbols_of(&config), vec![vec![0x1000]]);
}

#[test]
fn two_macro_groups_append_in_order_without_dedup() {
    let a = analysis(
        vec![function(0x1000, "foo"), function(0x2000, "bar"), function(0x3000, "baz")],
        vec![reject(0x4000, "qux", "ReadWriteToCode")],
        vec![group("P", vec![0x3000, 0x1000]), group("P", vec![0x4000, 0x2000, 0x1000])],
    );
    let mut config = CDConfig {
        module_settings: module_settings(),
        profiles: vec![compiled("O", vec![0x2000]), compiled("P", vec![0x1000])],
    };
    assert_eq!(merge_macros(&mut config, &a), Ok(()));
    assert_eq!(
        symbols_of(&config),
        vec![vec![0x2000], vec![0x1000, 0x3000, 0x1000, 0x4000, 0x2000, 0x1000]]
    );
}

#[test]
fn macro_group_goes_to_first_profile_of_its_name() {
    let a = analysis(vec![function(0x1000, "foo")], vec![], vec![group("P", vec![0x1000])]);
    let mut config = CDConfig {
        module_settings: module_settings(),
        profiles: vec![compiled("P", vec![]), compiled("P", vec![])],
    };
    assert_eq!(merge_macros(&mut config, &a), Ok(()));
    assert_eq!(symbols_of(&config), vec![vec![0x1000], vec![]]);
}

#[test]
fn declared_symbol_then_macro_group() {
    let a = analysis(
        vec![function(0x1000, "foo"), function(0x2000, "bar")],
        vec![],
        vec![group("P", vec![0x2000])],
    );
    let config = yaml_config(vec![yaml_profile("P", vec![name("foo")])]);
    let compiled_only = compile_config(&config, &a).unwrap();
    assert_eq!(symbols_of(&compiled_only), vec![vec![0x1000]]);
    let built = build_config(&config, &a).unwrap();
    assert_eq!(built.profiles[0].name, "P");
    assert_eq!(symbols_of(&built), vec![vec![0x1000, 0x2000]]);
}

#[test]
fn build_reports_profile_error_before_macro_error() {
    let a = analysis(vec![function(0x1000, "foo")], vec![], vec![group("Missing", vec![0x1000])]);
    let bad = yaml_config(vec![yaml_profile("P", vec![name("nope")])]);
    assert_eq!(
        build_config(&bad, &a).unwrap_err(),
        ConfigError::UnresolvedSymbolName("nope".to_string())
    );
    let good = yaml_config(vec![yaml_profile("P", vec![name("foo")])]);
    assert_eq!(
        build_config(&good, &a).unwrap_err(),
        ConfigError::UnknownMacroProfile("Missing".to_string())
    );
}

#[test]
fn config_version_is_checked() {
    let mut config = yaml_config(vec![]);
    assert!(config.has_supported_version());
    config.version = "0.9.0".to_string();
    assert!(!config.has_supported_version());
}
