//! The pipeline orchestrator's decisions: which transform stages run for a
//! module, in which fixed order, from the module kind, the options and the
//! module's locality. Executing the stages themselves (parsing, stripping,
//! lowering, printing) is the host's work; this module pins down the plan.

use vstd::prelude::*;

verus! {

use vstd::string::StringExecFns;

/// Options for transpiling a module.
#[derive(Debug, Clone)]
pub struct EmitOptions {
    /// When set, JSX lowering uses the automatic runtime imported from this
    /// path; otherwise the classic pragma-based runtime.
    pub jsx_import_source: Option<String>,
    /// Classic-mode call target.
    pub jsx_factory: String,
    /// Classic-mode fragment target.
    pub jsx_fragment_factory: String,
    /// Gates fast-refresh instrumentation.
    pub is_dev: bool,
}

impl core::default::Default for EmitOptions {
    /// No automatic runtime, the `React` factories, development mode off.
    fn default() -> (r: EmitOptions)
        ensures
            r.jsx_import_source is None,
            r.jsx_factory@ == "React.createElement"@,
            r.jsx_fragment_factory@ == "React.Fragment"@,
            !r.is_dev,
    {
        EmitOptions {
            jsx_import_source: None,
            jsx_factory: String::from_str("React.createElement"),
            jsx_fragment_factory: String::from_str("React.Fragment"),
            is_dev: false,
        }
    }
}

/// The kind a module's identity was classified to.
#[derive(Debug, Clone, Copy, PartialEq, Eq, Structural)]
pub enum SourceType {
    JS,
    JSX,
    TS,
    TSX,
    Unknown,
}

/// The parser/stripper flavor a module kind selects.
#[derive(Debug, Clone, Copy, PartialEq, Eq, Structural)]
pub enum Syntax {
    Es { jsx: bool },
    Ts { tsx: bool },
}

/// A module kind carries embedded markup and must take the JSX-aware paths.
pub open spec fn spec_is_jsx(t: SourceType) -> bool {
    t is JSX || t is TSX
}

/// An unknown kind defaults to the most tolerant parse path: typed syntax
/// with markup enabled.
pub open spec fn syntax_for(t: SourceType) -> Syntax {
    match t {
        SourceType::JS => Syntax::Es { jsx: false },
        SourceType::JSX => Syntax::Es { jsx: true },
        SourceType::TS => Syntax::Ts { tsx: false },
        SourceType::TSX => Syntax::Ts { tsx: true },
        SourceType::Unknown => Syntax::Ts { tsx: true },
    }
}

/// Whether the module kind takes the JSX-aware strip and lowering paths.
pub fn is_jsx_module(source_type: &SourceType) -> (r: bool)
    ensures
        r == spec_is_jsx(*source_type),
{
    match source_type {
        SourceType::JSX => true,
        SourceType::TSX => true,
        _ => false,
    }
}

/// The parser/stripper flavor for a module kind.
pub fn get_syntax(source_type: &SourceType) -> (r: Syntax)
    ensures
        r == syntax_for(*source_type),
{
    match source_type {
        SourceType::JS => Syntax::Es { jsx: false },
        SourceType::JSX => Syntax::Es { jsx: true },
        SourceType::TS => Syntax::Ts { tsx: false },
        SourceType::TSX => Syntax::Ts { tsx: true },
        SourceType::Unknown => Syntax::Ts { tsx: true },
    }
}

/// Which JSX lowering runtime the options select.
#[derive(Debug, Clone, Copy, PartialEq, Eq, Structural)]
pub enum JsxRuntime {
    Classic,
    Automatic,
}

pub open spec fn spec_jsx_runtime(jsx_import_source: Option<Seq<char>>) -> JsxRuntime {
    if jsx_import_source is Some {
        JsxRuntime::Automatic
    } else {
        JsxRuntime::Classic
    }
}

/// Automatic runtime exactly when an automatic JSX import source is
/// configured.
pub fn jsx_runtime(options: &EmitOptions) -> (r: JsxRuntime)
    ensures
        r == spec_jsx_runtime(
            match options.jsx_import_source {
                Some(s) => Some(s@),
                None => None,
            },
        ),
{
    match &options.jsx_import_source {
        Some(_) => JsxRuntime::Automatic,
        None => JsxRuntime::Classic,
    }
}

/// What a type-stripping stage does with imports only used as values.
#[derive(Debug, Clone, Copy, PartialEq, Eq, Structural)]
pub enum ImportsNotUsedAsValues {
    Remove,
    Preserve,
}

/// The type-stripping configuration derived from the options.
#[derive(Debug, Clone)]
pub struct StripConfig {
    pub pragma: Option<String>,
    pub pragma_frag: Option<String>,
    pub import_not_used_as_values: ImportsNotUsedAsValues,
    pub use_define_for_class_fields: bool,
    pub no_empty_export: bool,
}

/// The strip stages take the configured factories as pragmas and drop
/// imports no longer used as values.
pub fn strip_config_from_emit_options(options: &EmitOptions) -> (r: StripConfig)
    ensures
        (r.pragma matches Some(p) && p@ == options.jsx_factory@),
        (r.pragma_frag matches Some(p) && p@ == options.jsx_fragment_factory@),
        r.import_not_used_as_values is Remove,
        r.use_define_for_class_fields,
        r.no_empty_export,
{
    StripConfig {
        pragma: Some(options.jsx_factory.clone()),
        pragma_frag: Some(options.jsx_fragment_factory.clone()),
        import_not_used_as_values: ImportsNotUsedAsValues::Remove,
        use_define_for_class_fields: true,
        no_empty_export: true,
    }
}

/// One stage of the transform pipeline, in the order they may run.
#[derive(Debug, Clone, Copy, PartialEq, Eq, Structural)]
pub enum StageId {
    /// Scope/binding resolution.
    ScopeResolution,
    /// The specifier rewriter.
    SpecifierRewrite,
    /// Legacy decorator lowering.
    DecoratorLowering,
    /// Runtime-helper injection.
    HelperInjection,
    /// Plain type stripping.
    TypeStrip,
    /// JSX-aware type stripping.
    TypeStripJsx,
    /// Fast-refresh instrumentation.
    FastRefresh,
    /// JSX-to-call lowering.
    JsxLowering,
    /// Cosmetic fix-up.
    Fixup,
    /// Identifier hygiene.
    Hygiene,
    /// Code generation.
    Codegen,
}

/// The ordered stage list for one module: the fixed stages, with exactly one
/// strip variant, fast refresh only for locally-owned sources in development
/// mode, and JSX lowering only for JSX/TSX kinds.
pub open spec fn spec_stage_sequence(is_jsx: bool, is_dev: bool, is_remote: bool) -> Seq<StageId> {
    seq![
        StageId::ScopeResolution,
        StageId::SpecifierRewrite,
        StageId::DecoratorLowering,
        StageId::HelperInjection,
    ] + (if !is_jsx {
        seq![StageId::TypeStrip]
    } else {
        seq![StageId::TypeStripJsx]
    }) + (if is_dev && !is_remote {
        seq![StageId::FastRefresh]
    } else {
        seq![]
    }) + (if is_jsx {
        seq![StageId::JsxLowering]
    } else {
        seq![]
    }) + seq![StageId::Fixup, StageId::Hygiene, StageId::Codegen]
}

/// The ordered list of stages this module runs.
pub fn stage_sequence(source_type: &SourceType, options: &EmitOptions, specifier_is_remote: bool)
    -> (r: Vec<StageId>)
    ensures
        r@ == spec_stage_sequence(spec_is_jsx(*source_type), options.is_dev, specifier_is_remote),
{
    let is_jsx = is_jsx_module(source_type);
    let mut stages: Vec<StageId> = Vec::new();
    stages.push(StageId::ScopeResolution);
    stages.push(StageId::SpecifierRewrite);
    stages.push(StageId::DecoratorLowering);
    stages.push(StageId::HelperInjection);
    if !is_jsx {
        stages.push(StageId::TypeStrip);
    } else {
        stages.push(StageId::TypeStripJsx);
    }
    if options.is_dev && !specifier_is_remote {
        stages.push(StageId::FastRefresh);
    }
    if is_jsx {
        stages.push(StageId::JsxLowering);
    }
    stages.push(StageId::Fixup);
    stages.push(StageId::Hygiene);
    stages.push(StageId::Codegen);
    proof {
        assert(stages@ =~= spec_stage_sequence(
            spec_is_jsx(*source_type),
            options.is_dev,
            specifier_is_remote,
        ));
    }
    stages
}

/// A JSX/TSX module runs the JSX-aware strip variant and the JSX lowering
/// stage and not the plain strip; any other module runs the plain strip and
/// neither JSX-aware stage.
pub proof fn lemma_stage_selection(is_jsx: bool, is_dev: bool, is_remote: bool)
    ensures
        spec_stage_sequence(is_jsx, is_dev, is_remote).contains(StageId::TypeStripJsx) <==> is_jsx,
        spec_stage_sequence(is_jsx, is_dev, is_remote).contains(StageId::JsxLowering) <==> is_jsx,
        spec_stage_sequence(is_jsx, is_dev, is_remote).contains(StageId::TypeStrip) <==> !is_jsx,
{
    let s = spec_stage_sequence(is_jsx, is_dev, is_remote);
    if is_jsx {
        assert(s[4] == StageId::TypeStripJsx);
        if is_dev && !is_remote {
            assert(s[6] == StageId::JsxLowering);
        } else {
            assert(s[5] == StageId::JsxLowering);
        }
        assert forall|i: int| 0 <= i < s.len() implies s[i] != StageId::TypeStrip by {
            assert(s.len() <= 10);
        }
    } else {
        assert(s[4] == StageId::TypeStrip);
        assert forall|i: int| 0 <= i < s.len() implies s[i] != StageId::TypeStripJsx by {
            assert(s.len() <= 10);
        }
        assert forall|i: int| 0 <= i < s.len() implies s[i] != StageId::JsxLowering by {
            assert(s.len() <= 10);
        }
    }
}

/// Fast-refresh instrumentation runs exactly when development mode is on and
/// the module's resolved specifier is not remote.
pub proof fn lemma_refresh_gating(is_jsx: bool, is_dev: bool, is_remote: bool)
    ensures
        spec_stage_sequence(is_jsx, is_dev, is_remote).contains(StageId::FastRefresh) <==> (is_dev
            && !is_remote),
{
    let s = spec_stage_sequence(is_jsx, is_dev, is_remote);
    if is_dev && !is_remote {
        assert(s[5] == StageId::FastRefresh);
    } else {
        assert forall|i: int| 0 <= i < s.len() implies s[i] != StageId::FastRefresh by {
            assert(s.len() <= 10);
        }
    }
}

} // verus!
