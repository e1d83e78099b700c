//! The debt items that the results views display, held as plain values.
//!
//! Scores are kept in hundredths (a score of 50.0 is `5000`), coverage in
//! hundredths of a percent (75.5% is `7550`), and dampening factors in
//! thousandths (0.95 is `950`).
use vstd::prelude::*;
use crate::text::{path_ranks, paths_equal, str_equal};

verus! {

/// Source location of a debt item.
#[derive(Debug, Clone)]
pub struct Location {
    pub file: String,
    pub function: String,
    pub line: usize,
}

impl Location {
    /// Creates a location.
    pub fn new(file: &str, function: &str, line: usize) -> (r: Self)
        ensures
            r.file@ == file@,
            r.function@ == function@,
            r.line == line,
    {
        Location { file: String::from_str(file), function: String::from_str(function), line }
    }

    /// Copy of this location.
    pub fn copy(&self) -> (r: Self)
        ensures
            r.file@ == self.file@,
            r.function@ == self.function@,
            r.line == self.line,
    {
        Location { file: self.file.clone(), function: self.function.clone(), line: self.line }
    }
}

/// Two locations name the same file (compared as paths), function and line.
pub open spec fn same_location(a: Location, b: Location) -> bool {
    path_ranks(a.file@) == path_ranks(b.file@) && a.function@ == b.function@ && a.line == b.line
}

/// Whether two locations are the same.
pub fn locations_equal(a: &Location, b: &Location) -> (r: bool)
    ensures
        r == same_location(*a, *b),
{
    a.line == b.line && paths_equal(a.file.as_str(), b.file.as_str()) && str_equal(
        a.function.as_str(),
        b.function.as_str(),
    )
}

/// The kind of technical debt an item represents.
#[derive(Debug, Clone, Copy, PartialEq, Eq, Structural)]
pub enum DebtType {
    ComplexityHotspot { cyclomatic: u32, cognitive: u32 },
    TestingGap { cyclomatic: u32, cognitive: u32 },
    DeadCode,
    Duplication,
    Risk,
    TestComplexityHotspot,
    TestTodo,
    TestDuplication,
    ErrorSwallowing,
    AllocationInefficiency,
    StringConcatenation,
    NestedLoops,
    BlockingIO,
    SuboptimalDataStructure,
    /// A god object, with its score in hundredths.
    GodObject { methods: u32, fields: Option<u32>, responsibilities: u32, lines: u32, god_object_score: u64 },
    FeatureEnvy,
    PrimitiveObsession,
    MagicValues,
    AssertionComplexity,
    FlakyTestPattern,
    AsyncMisuse,
    ResourceLeak,
    CollectionInefficiency,
    ScatteredType,
    OrphanedFunctions,
    UtilitiesSprawl,
    /// Legacy complexity variant, displayed as "Other".
    Complexity { cyclomatic: u32, cognitive: u32 },
}

/// Entropy-based complexity dampening details.
#[derive(Debug, Clone, Copy)]
pub struct EntropyDetails {
    /// Token entropy in thousandths (0.45 is `450`).
    pub entropy_score: u32,
    /// Pattern repetition in thousandths.
    pub pattern_repetition: u32,
    pub original_complexity: u32,
    pub adjusted_cognitive: u32,
    /// Dampening factor in thousandths (1000 means no dampening).
    pub dampening_factor: u32,
}

/// What kind of god object was detected.
#[derive(Debug, Clone, Copy, PartialEq, Eq, Structural)]
pub enum DetectionType {
    /// A class (type) with too many methods.
    GodClass,
    /// A file with too many functions.
    GodFile,
    /// A module with too many functions.
    GodModule,
}

/// The number of methods that serve a responsibility.
#[derive(Debug, Clone)]
pub struct ResponsibilityCount {
    pub responsibility: String,
    pub methods: usize,
}

/// Trait methods of a god object: those a trait mandates, and those that
/// could move elsewhere.
#[derive(Debug, Clone, Copy)]
pub struct TraitMethodSummary {
    pub mandated_count: usize,
    pub extractable_count: usize,
}

/// Complexity of a god object's methods.
#[derive(Debug, Clone, Copy)]
pub struct GodObjectComplexity {
    /// Average cyclomatic complexity in hundredths.
    pub avg_cyclomatic: u64,
    pub max_cyclomatic: u32,
}

/// God object indicators aggregated over a file.
#[derive(Debug, Clone)]
pub struct GodObjectIndicators {
    pub is_god_object: bool,
    pub detection_type: DetectionType,
    /// God object score in hundredths.
    pub god_object_score: u64,
    pub method_count: usize,
    pub field_count: usize,
    pub responsibility_count: usize,
    /// Method count weighted down for pure methods, in hundredths.
    pub weighted_method_count: Option<u64>,
    pub trait_method_summary: Option<TraitMethodSummary>,
    /// Number of distinct domains the methods serve.
    pub domain_count: usize,
    /// Domain diversity in hundredths.
    pub domain_diversity: u64,
    pub complexity_metrics: Option<GodObjectComplexity>,
    pub aggregated_entropy: Option<EntropyDetails>,
    pub aggregated_error_swallowing_count: Option<u32>,
    pub aggregated_error_swallowing_patterns: Option<Vec<String>>,
    /// Responsibilities found in the file, in display order.
    pub responsibilities: Vec<String>,
    /// Method counts per responsibility; a responsibility may be missing.
    pub responsibility_method_counts: Vec<ResponsibilityCount>,
}

/// Framework and trait patterns found in a function.
#[derive(Debug, Clone, Copy)]
pub struct PatternAnalysis {
    /// Whether any framework pattern was detected.
    pub frameworks_detected: bool,
    /// Number of trait implementations found.
    pub trait_impls: usize,
}

/// A detected design pattern.
#[derive(Debug, Clone)]
pub struct DetectedPattern {
    /// Name of the pattern type.
    pub pattern_type: String,
    /// Confidence in thousandths (0.85 is `850`).
    pub confidence: u32,
}

/// Rust-specific findings for a function.
#[derive(Debug, Clone)]
pub struct RustSpecificData {
    /// The trait the function implements, by name.
    pub trait_impl: Option<String>,
    pub async_patterns: usize,
    pub error_patterns: usize,
    pub builder_patterns: usize,
}

/// What a risk context provider found.
#[derive(Debug, Clone, Copy)]
pub enum ContextDetails {
    /// Git history of the function's file.
    Historical {
        /// Changes per month in hundredths (2.5 is `250`).
        change_frequency: u32,
        /// Share of changes that fixed bugs, in thousandths (0.125 is `125`).
        bug_density: u32,
        age_days: u32,
        author_count: usize,
        /// Commits that touched the function, its introduction included.
        total_commits: u32,
        /// Commits among them that fixed bugs.
        bug_fix_count: u32,
    },
    /// Findings of any other provider.
    Other,
}

/// One provider's contribution to the contextual risk.
#[derive(Debug, Clone)]
pub struct RiskContext {
    pub provider: String,
    pub details: ContextDetails,
}

/// Risk of an item with and without its context.
#[derive(Debug, Clone)]
pub struct ContextualRisk {
    /// Risk before context, in hundredths.
    pub base_risk: u32,
    /// Risk with context, in hundredths.
    pub contextual_risk: u32,
    pub contexts: Vec<RiskContext>,
}

/// How a related context range relates to the debt item.
#[derive(Debug, Clone, Copy, PartialEq, Eq, Structural)]
pub enum ContextRelationship {
    Caller,
    Callee,
    TypeDefinition,
    TestCode,
    SiblingMethod,
    TraitDefinition,
    ModuleHeader,
}

/// A range of lines in a file, optionally naming a symbol.
#[derive(Debug, Clone)]
pub struct FileRange {
    pub file: String,
    pub start_line: usize,
    pub end_line: usize,
    pub symbol: Option<String>,
}

/// A related range with its relationship and the reason to read it.
#[derive(Debug, Clone)]
pub struct RelatedContext {
    pub range: FileRange,
    pub relationship: ContextRelationship,
    pub reason: String,
}

/// Suggested code context to read for a debt item.
#[derive(Debug, Clone)]
pub struct ContextSuggestion {
    pub primary: FileRange,
    pub related: Vec<RelatedContext>,
    pub total_lines: u32,
    /// Completeness confidence in thousandths (850 means 85%).
    pub completeness_confidence: u32,
}

/// A score reduction for an orchestrating function.
#[derive(Debug, Clone)]
pub struct OrchestrationAdjustment {
    /// Score before the adjustment, in hundredths.
    pub original_score: u64,
    /// Score after the adjustment, in hundredths.
    pub adjusted_score: u64,
    /// Reduction in hundredths of a percent.
    pub reduction_percent: u32,
    pub adjustment_reason: String,
}

/// Debt added to the score, by kind, in hundredths (negative lowers it).
#[derive(Debug, Clone, Copy)]
pub struct DebtAdjustment {
    pub total: i64,
    pub testing: i64,
    pub resource: i64,
    pub duplication: i64,
}

/// A technical-debt item as the results views read it.
#[derive(Debug, Clone)]
pub struct UnifiedDebtItem {
    pub location: Location,
    pub debt_type: DebtType,
    /// Final score in hundredths.
    pub final_score: u64,
    /// Primary recommended action.
    pub primary_action: String,
    /// Why the recommended action helps.
    pub rationale: String,
    /// Direct coverage in hundredths of a percent, when coverage data exists.
    pub coverage: Option<u32>,
    /// Transitive coverage (through callers' tests) in hundredths of a
    /// percent, when coverage data exists.
    pub transitive_coverage: Option<u32>,
    pub cyclomatic_complexity: u32,
    pub cognitive_complexity: u32,
    pub nesting_depth: u32,
    pub function_length: usize,
    /// Number of functions that call this one.
    pub upstream_dependencies: usize,
    /// Number of functions this one calls.
    pub downstream_dependencies: usize,
    /// The functions that call this one, as `path:name`.
    pub upstream_callers: Vec<String>,
    /// The functions this one calls, as `path:name`.
    pub downstream_callees: Vec<String>,
    pub is_pure: Option<bool>,
    pub pattern_analysis: Option<PatternAnalysis>,
    pub detected_pattern: Option<DetectedPattern>,
    pub language_specific: Option<RustSpecificData>,
    pub entropy_details: Option<EntropyDetails>,
    pub error_swallowing_count: Option<u32>,
    pub error_swallowing_patterns: Option<Vec<String>>,
    pub god_object_indicators: Option<GodObjectIndicators>,
    pub contextual_risk: Option<ContextualRisk>,
    /// Name of the kind of file that dampens the score (such as `Test`).
    pub context_type: Option<String>,
    /// Score multiplier of the file kind, in thousandths.
    pub context_multiplier: Option<u32>,
    /// Responsibility category of a function that is no god object.
    pub responsibility_category: Option<String>,
    pub context_suggestion: Option<ContextSuggestion>,
    /// Name of the function's role (such as `PureLogic`).
    pub function_role: String,
    /// Score multiplier of the role, in thousandths.
    pub role_multiplier: u32,
    /// Purity factor of the score, in thousandths, where one applies.
    pub purity_factor: Option<u32>,
    /// Name of the purity level, where known.
    pub purity_level: Option<String>,
    /// Confidence of the purity analysis, in thousandths.
    pub purity_confidence: Option<u32>,
    /// Pattern factor of the score (data flow against logic), in thousandths.
    pub pattern_factor: Option<u32>,
    /// Refactorability factor of the score, in thousandths.
    pub refactorability_factor: Option<u32>,
    /// Structural multiplier of the score, in thousandths.
    pub structural_multiplier: Option<u32>,
    /// Complexity factor of the score (0 to 10), in hundredths.
    pub complexity_factor: u32,
    /// Coverage gap factor of the score (0 to 10), in hundredths.
    pub coverage_factor: u32,
    /// Dependency factor of the score (0 to 10), in hundredths.
    pub dependency_factor: u32,
    /// Score before exponential scaling, in hundredths, where recorded.
    pub base_score: Option<u64>,
    /// Exponent of the score scaling, in hundredths, where recorded.
    pub exponential_factor: Option<u32>,
    /// Risk boost of the score, in hundredths, where recorded.
    pub risk_boost: Option<u32>,
    /// Score before adjustments, in hundredths, where recorded.
    pub pre_adjustment_score: Option<u64>,
    /// Orchestration adjustment of the score, where one was applied.
    pub adjustment_applied: Option<OrchestrationAdjustment>,
    /// Debt added to the score, where any was.
    pub debt_adjustment: Option<DebtAdjustment>,
    /// Multiplier from git history risk, in thousandths, where applied.
    pub contextual_risk_multiplier: Option<u32>,
    /// Score before the git history risk, in hundredths, where recorded.
    pub pre_contextual_score: Option<u64>,
    /// Score before normalization, in hundredths, where recorded.
    pub pre_normalization_score: Option<u64>,
}

impl UnifiedDebtItem {
    /// An item at `location` with the given debt type and score, and no
    /// optional analysis data.
    pub fn new(location: Location, debt_type: DebtType, final_score: u64) -> (r: Self)
        ensures
            r.location == location,
            r.debt_type == debt_type,
            r.final_score == final_score,
            r.primary_action@ == Seq::<char>::empty(),
            r.rationale@ == Seq::<char>::empty(),
            r.coverage is None,
            r.transitive_coverage is None,
            r.cyclomatic_complexity == 0,
            r.cognitive_complexity == 0,
            r.nesting_depth == 0,
            r.function_length == 0,
            r.upstream_dependencies == 0,
            r.downstream_dependencies == 0,
            r.upstream_callers@.len() == 0,
            r.downstream_callees@.len() == 0,
            r.is_pure is None,
            r.pattern_analysis is None,
            r.detected_pattern is None,
            r.language_specific is None,
            r.entropy_details is None,
            r.error_swallowing_count is None,
            r.error_swallowing_patterns is None,
            r.god_object_indicators is None,
            r.contextual_risk is None,
            r.context_type is None,
            r.context_multiplier is None,
            r.responsibility_category is None,
            r.context_suggestion is None,
            r.function_role@ == "Unknown"@,
            r.role_multiplier == 1000,
            r.purity_factor is None,
            r.purity_level is None,
            r.purity_confidence is None,
            r.pattern_factor is None,
            r.refactorability_factor is None,
            r.structural_multiplier is None,
            r.complexity_factor == 0,
            r.coverage_factor == 0,
            r.dependency_factor == 0,
            r.base_score is None,
            r.exponential_factor is None,
            r.risk_boost is None,
            r.pre_adjustment_score is None,
            r.adjustment_applied is None,
            r.debt_adjustment is None,
            r.contextual_risk_multiplier is None,
            r.pre_contextual_score is None,
            r.pre_normalization_score is None,
    {
        UnifiedDebtItem {
            location,
            debt_type,
            final_score,
            primary_action: String::new(),
            rationale: String::new(),
            coverage: None,
            transitive_coverage: None,
            cyclomatic_complexity: 0,
            cognitive_complexity: 0,
            nesting_depth: 0,
            function_length: 0,
            upstream_dependencies: 0,
            downstream_dependencies: 0,
            upstream_callers: Vec::new(),
            downstream_callees: Vec::new(),
            is_pure: None,
            pattern_analysis: None,
            detected_pattern: None,
            language_specific: None,
            entropy_details: None,
            error_swallowing_count: None,
            error_swallowing_patterns: None,
            god_object_indicators: None,
            contextual_risk: None,
            context_type: None,
            context_multiplier: None,
            responsibility_category: None,
            context_suggestion: None,
            function_role: String::from_str("Unknown"),
            role_multiplier: 1000,
            purity_factor: None,
            purity_level: None,
            purity_confidence: None,
            pattern_factor: None,
            refactorability_factor: None,
            structural_multiplier: None,
            complexity_factor: 0,
            coverage_factor: 0,
            dependency_factor: 0,
            base_score: None,
            exponential_factor: None,
            risk_boost: None,
            pre_adjustment_score: None,
            adjustment_applied: None,
            debt_adjustment: None,
            contextual_risk_multiplier: None,
            pre_contextual_score: None,
            pre_normalization_score: None,
        }
    }
}

/// Identity of a function in the data flow graph.
#[derive(Debug, Clone)]
pub struct FunctionId {
    pub file: String,
    pub name: String,
    pub line: usize,
}

impl FunctionId {
    /// The identity of the function `name` at `line` of `file`.
    pub fn new(file: &str, name: &str, line: usize) -> (r: Self)
        ensures
            r.file@ == file@,
            r.name@ == name@,
            r.line == line,
    {
        FunctionId { file: String::from_str(file), name: String::from_str(name), line }
    }
}

/// Value of a function identity.
pub open spec fn function_id_view(f: FunctionId) -> (Seq<u32>, Seq<char>, usize) {
    (path_ranks(f.file@), f.name@, f.line)
}

/// The function identity of an item's location.
pub open spec fn item_function_id(item: UnifiedDebtItem) -> (Seq<u32>, Seq<char>, usize) {
    (path_ranks(item.location.file@), item.location.function@, item.location.line)
}

/// Purity analysis of a function.
#[derive(Debug, Clone)]
pub struct PurityInfo {
    pub is_pure: bool,
    /// Confidence in thousandths (0.95 is `950`).
    pub confidence: u32,
    pub impurity_reasons: Vec<String>,
}

/// Mutation analysis of a function.
#[derive(Debug, Clone)]
pub struct MutationInfo {
    pub has_mutations: bool,
    /// Mutations found, best effort.
    pub detected_mutations: Vec<String>,
}

/// An I/O operation performed by a function.
#[derive(Debug, Clone)]
pub struct IoOperation {
    pub operation_type: String,
    pub line: usize,
    /// Variables involved in the operation.
    pub variables: Vec<String>,
}

/// The functions of `entries`, in order.
pub open spec fn entry_ids<T>(entries: Seq<(FunctionId, T)>) -> Seq<FunctionId> {
    entries.map_values(|e: (FunctionId, T)| e.0)
}

/// The information recorded last for the function `f`, if any.
pub open spec fn latest_info<T>(entries: Seq<(FunctionId, T)>, f: (Seq<u32>, Seq<char>, usize)) -> Option<T>
    decreases entries.len(),
{
    if entries.len() == 0 {
        None
    } else if function_id_view(entries.last().0) == f {
        Some(entries.last().1)
    } else {
        latest_info(entries.drop_last(), f)
    }
}

/// Whether `ids` holds the function identity `f`.
pub open spec fn holds_function(ids: Seq<FunctionId>, f: (Seq<u32>, Seq<char>, usize)) -> bool {
    exists|i: int| 0 <= i < ids.len() && function_id_view(#[trigger] ids[i]) == f
}

/// Information is recorded for a function exactly when the function is among
/// those recorded.
pub proof fn lemma_latest_info_recorded<T>(entries: Seq<(FunctionId, T)>, f: (Seq<u32>, Seq<char>, usize))
    ensures
        (latest_info(entries, f) is Some) == holds_function(entry_ids(entries), f),
    decreases entries.len(),
{
    if entries.len() > 0 {
        let ids = entry_ids(entries);
        let prev = entry_ids(entries.drop_last());
        lemma_latest_info_recorded(entries.drop_last(), f);
        assert(prev =~= ids.drop_last());
        if function_id_view(entries.last().0) == f {
            assert(function_id_view(ids[ids.len() - 1]) == f);
        } else {
            if holds_function(ids, f) {
                let i = choose|i: int| 0 <= i < ids.len() && function_id_view(#[trigger] ids[i]) == f;
                assert(i != ids.len() - 1);
                assert(prev[i] == ids[i]);
            }
            if holds_function(prev, f) {
                let i = choose|i: int| 0 <= i < prev.len() && function_id_view(#[trigger] prev[i]) == f;
                assert(ids[i] == prev[i]);
            }
        }
    }
}

/// Recording information for a function makes it what a lookup of that
/// function gives, and leaves what a lookup of any other function gives.
pub proof fn lemma_latest_info_after_record<T>(
    entries: Seq<(FunctionId, T)>,
    f: FunctionId,
    x: T,
    g: (Seq<u32>, Seq<char>, usize),
)
    ensures
        latest_info(entries.push((f, x)), function_id_view(f)) == Some(x),
        g != function_id_view(f) ==> latest_info(entries.push((f, x)), g) == latest_info(entries, g),
{
    assert(entries.push((f, x)).drop_last() =~= entries);
}

/// The information recorded last for a function.
fn latest_entry<'a, T>(entries: &'a Vec<(FunctionId, T)>, id: &FunctionId) -> (r: Option<&'a T>)
    ensures
        match r {
            Some(x) => latest_info(entries@, function_id_view(*id)) == Some(*x),
            None => latest_info(entries@, function_id_view(*id)) is None,
        },
{
    let ghost f = function_id_view(*id);
    let mut i: usize = entries.len();
    assert(entries@.take(i as int) =~= entries@);
    while i > 0
        invariant
            i <= entries.len(),
            f == function_id_view(*id),
            latest_info(entries@, f) == latest_info(entries@.take(i as int), f),
        decreases i,
    {
        let e = &entries[i - 1];
        let ghost t = entries@.take(i as int);
        assert(t.drop_last() =~= entries@.take(i - 1));
        assert(t.last() == entries@[i - 1]);
        if e.0.line == id.line && paths_equal(e.0.file.as_str(), id.file.as_str()) && str_equal(
            e.0.name.as_str(),
            id.name.as_str(),
        ) {
            assert(function_id_view(t.last().0) == f);
            return Some(&e.1);
        }
        assert(function_id_view(t.last().0) != f);
        i = i - 1;
    }
    None
}

/// What the data flow analysis found: purity, mutation and I/O information
/// per function, each in the order it was recorded.
#[derive(Debug)]
pub struct DataFlowGraph {
    purity: Vec<(FunctionId, PurityInfo)>,
    mutation: Vec<(FunctionId, MutationInfo)>,
    io: Vec<(FunctionId, Vec<IoOperation>)>,
}

impl DataFlowGraph {
    /// Purity information, in the order it was recorded.
    pub closed spec fn purity_entries(&self) -> Seq<(FunctionId, PurityInfo)> {
        self.purity@
    }

    /// Mutation information, in the order it was recorded.
    pub closed spec fn mutation_entries(&self) -> Seq<(FunctionId, MutationInfo)> {
        self.mutation@
    }

    /// I/O operations, in the order they were recorded.
    pub closed spec fn io_entries(&self) -> Seq<(FunctionId, Vec<IoOperation>)> {
        self.io@
    }

    /// Functions with purity information.
    pub open spec fn purity_set(&self) -> Seq<FunctionId> {
        entry_ids(self.purity_entries())
    }

    /// Functions with mutation information.
    pub open spec fn mutation_set(&self) -> Seq<FunctionId> {
        entry_ids(self.mutation_entries())
    }

    /// Functions with I/O operation information.
    pub open spec fn io_set(&self) -> Seq<FunctionId> {
        entry_ids(self.io_entries())
    }

    /// An empty graph.
    pub fn new() -> (r: Self)
        ensures
            r.purity_entries().len() == 0,
            r.mutation_entries().len() == 0,
            r.io_entries().len() == 0,
    {
        DataFlowGraph { purity: Vec::new(), mutation: Vec::new(), io: Vec::new() }
    }

    /// Records purity information for a function; it replaces what was
    /// recorded for the function before.
    pub fn add_purity_info(&mut self, f: FunctionId, info: PurityInfo)
        ensures
            final(self).purity_entries() == old(self).purity_entries().push((f, info)),
            final(self).mutation_entries() == old(self).mutation_entries(),
            final(self).io_entries() == old(self).io_entries(),
    {
        self.purity.push((f, info));
    }

    /// Records mutation information for a function; it replaces what was
    /// recorded for the function before.
    pub fn add_mutation_info(&mut self, f: FunctionId, info: MutationInfo)
        ensures
            final(self).mutation_entries() == old(self).mutation_entries().push((f, info)),
            final(self).purity_entries() == old(self).purity_entries(),
            final(self).io_entries() == old(self).io_entries(),
    {
        self.mutation.push((f, info));
    }

    /// Records the I/O operations of a function; they replace what was
    /// recorded for the function before.
    pub fn add_io_operations(&mut self, f: FunctionId, ops: Vec<IoOperation>)
        ensures
            final(self).io_entries() == old(self).io_entries().push((f, ops)),
            final(self).purity_entries() == old(self).purity_entries(),
            final(self).mutation_entries() == old(self).mutation_entries(),
    {
        self.io.push((f, ops));
    }

    /// Purity information of a function.
    pub fn get_purity_info(&self, id: &FunctionId) -> (r: Option<&PurityInfo>)
        ensures
            match r {
                Some(x) => latest_info(self.purity_entries(), function_id_view(*id)) == Some(*x),
                None => latest_info(self.purity_entries(), function_id_view(*id)) is None,
            },
    {
        latest_entry(&self.purity, id)
    }

    /// Mutation information of a function.
    pub fn get_mutation_info(&self, id: &FunctionId) -> (r: Option<&MutationInfo>)
        ensures
            match r {
                Some(x) => latest_info(self.mutation_entries(), function_id_view(*id)) == Some(*x),
                None => latest_info(self.mutation_entries(), function_id_view(*id)) is None,
            },
    {
        latest_entry(&self.mutation, id)
    }

    /// I/O operations of a function.
    pub fn get_io_operations(&self, id: &FunctionId) -> (r: Option<&Vec<IoOperation>>)
        ensures
            match r {
                Some(x) => latest_info(self.io_entries(), function_id_view(*id)) == Some(*x),
                None => latest_info(self.io_entries(), function_id_view(*id)) is None,
            },
    {
        latest_entry(&self.io, id)
    }

    /// Whether purity information exists for a function.
    pub fn has_purity_info(&self, id: &FunctionId) -> (r: bool)
        ensures
            r == holds_function(self.purity_set(), function_id_view(*id)),
    {
        proof {
            lemma_latest_info_recorded(self.purity_entries(), function_id_view(*id));
        }
        self.get_purity_info(id).is_some()
    }

    /// Whether mutation information exists for a function.
    pub fn has_mutation_info(&self, id: &FunctionId) -> (r: bool)
        ensures
            r == holds_function(self.mutation_set(), function_id_view(*id)),
    {
        proof {
            lemma_latest_info_recorded(self.mutation_entries(), function_id_view(*id));
        }
        self.get_mutation_info(id).is_some()
    }

    /// Whether I/O operation information exists for a function.
    pub fn has_io_operations(&self, id: &FunctionId) -> (r: bool)
        ensures
            r == holds_function(self.io_set(), function_id_view(*id)),
    {
        proof {
            lemma_latest_info_recorded(self.io_entries(), function_id_view(*id));
        }
        self.get_io_operations(id).is_some()
    }
}

/// Coupling metrics of a file.
#[derive(Debug, Clone)]
pub struct FileMetrics {
    pub path: String,
    /// Number of files that use this one.
    pub afferent_coupling: usize,
    /// Number of files this one uses.
    pub efferent_coupling: usize,
    /// Instability in hundredths (0.35 is `35`), from 0 to 100.
    pub instability: u32,
    /// Paths of the files that use this one.
    pub dependents: Vec<String>,
    /// Paths of the files this one uses.
    pub dependencies_list: Vec<String>,
}

/// A file-level debt item.
#[derive(Debug, Clone)]
pub struct FileDebtItem {
    pub metrics: FileMetrics,
}

/// An item of a prepared view: a function-level or a file-level finding.
#[derive(Debug, Clone)]
pub enum ViewItem {
    Function(UnifiedDebtItem),
    File(FileDebtItem),
}

/// Findings prepared for display, in display order.
#[derive(Debug)]
pub struct PreparedDebtView {
    pub items: Vec<ViewItem>,
}

/// The function-level findings among some view items, in order.
pub open spec fn function_items(items: Seq<ViewItem>) -> Seq<UnifiedDebtItem>
    decreases items.len(),
{
    if items.len() == 0 {
        Seq::empty()
    } else {
        let rest = function_items(items.drop_last());
        match items.last() {
            ViewItem::Function(f) => rest.push(f),
            ViewItem::File(_) => rest,
        }
    }
}

/// The file-level findings among some view items, in order.
pub open spec fn file_items_of(items: Seq<ViewItem>) -> Seq<FileDebtItem>
    decreases items.len(),
{
    if items.len() == 0 {
        Seq::empty()
    } else {
        let rest = file_items_of(items.drop_last());
        match items.last() {
            ViewItem::File(f) => rest.push(f),
            ViewItem::Function(_) => rest,
        }
    }
}

/// The analysis results that the results views browse.
#[derive(Debug)]
pub struct UnifiedAnalysis {
    pub items: Vec<UnifiedDebtItem>,
    pub file_items: Vec<FileDebtItem>,
    pub data_flow_graph: DataFlowGraph,
}

impl UnifiedAnalysis {
    /// Analysis results with no items and an empty data flow graph.
    pub fn new() -> (r: Self)
        ensures
            r.items@.len() == 0,
            r.file_items@.len() == 0,
            r.data_flow_graph.purity_entries().len() == 0,
            r.data_flow_graph.mutation_entries().len() == 0,
            r.data_flow_graph.io_entries().len() == 0,
    {
        UnifiedAnalysis { items: Vec::new(), file_items: Vec::new(), data_flow_graph: DataFlowGraph::new() }
    }
}

} // verus!
