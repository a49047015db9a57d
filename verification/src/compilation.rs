//! What a compilation is told, and what is known of how it went.
use crate::config::GarbageCollectionConfig;
use crate::session_cache::SessionId;
use crate::uri::DocumentUri;
use std::collections::BTreeMap;
use std::path::PathBuf;
use vstd::prelude::*;

verus! {

/// The state of the last compilation process.
#[derive(Clone, Copy, Debug, PartialEq, Eq, Structural)]
pub enum LastCompilationState {
    Success,
    Failed,
    Uninitialized,
}

/// What the worker and the rest of the server tell each other.
#[derive(Clone, Copy, Debug, PartialEq, Eq, Structural)]
pub struct CompilationStatus {
    /// A compilation is under way.
    pub is_compiling: bool,
    /// The compilation under way is to give up early.
    pub retrigger_compilation: bool,
    /// How the last compilation ended.
    pub last_compilation_state: LastCompilationState,
}

/// The messages that can be sent to the compilation worker.
#[derive(Debug)]
pub enum TaskMessage {
    CompilationContext(CompilationContext),
    /// A signal to the receiving thread to gracefully terminate its operation.
    Terminate,
}

/// All the details required by the compilation worker to execute a compilation process.
#[derive(Debug)]
pub struct CompilationContext {
    pub session: Option<SessionId>,
    pub uri: Option<DocumentUri>,
    pub version: Option<i32>,
    pub optimized_build: bool,
    pub gc_options: GarbageCollectionConfig,
    /// The version of each file.
    pub file_versions: BTreeMap<PathBuf, Option<u64>>,
}

/// Garbage is collected at this version of a document: it is enabled, and the frequency divides
/// the version.
pub open spec fn collection_is_due(options: GarbageCollectionConfig, version: int) -> bool {
    options.gc_enabled && version % options.gc_frequency as int == 0
}

impl CompilationContext {
    /// A context that says nothing but how garbage is collected.
    pub fn new(gc_options: GarbageCollectionConfig) -> (context: CompilationContext)
        ensures
            context.session is None,
            context.uri is None,
            context.version is None,
            !context.optimized_build,
            context.gc_options == gc_options,
            context.file_versions@ == Map::<PathBuf, Option<u64>>::empty(),
    {
        CompilationContext {
            session: None,
            uri: None,
            version: None,
            optimized_build: false,
            gc_options,
            file_versions: BTreeMap::new(),
        }
    }

    /// The context names a document and a session, and where garbage may be collected, the
    /// remainder of the version by the frequency is defined.
    pub open spec fn complete(self) -> bool {
        &&& self.uri is Some
        &&& self.session is Some
        &&& self.gc_options.gc_enabled && self.version is Some ==> {
            &&& self.gc_options.gc_frequency != 0
            &&& !(self.version == Some(i32::MIN) && self.gc_options.gc_frequency == -1)
        }
    }

    /// Garbage is collected before this compilation: the document has a version, at which it is
    /// due.
    pub open spec fn collects_garbage(self) -> bool {
        self.version matches Some(version) && collection_is_due(self.gc_options, version as int)
    }

    /// Tells whether the worker can take the context.
    pub fn is_complete(&self) -> (complete: bool)
        ensures
            complete == self.complete(),
            complete == (self.uri is Some && self.session is Some && !(self.gc_options.gc_enabled
                && self.version is Some && (self.gc_options.gc_frequency == 0 || (self.version
                == Some(i32::MIN) && self.gc_options.gc_frequency == -1)))),
    {
        if self.uri.is_none() || self.session.is_none() {
            return false;
        }
        match self.version {
            Some(version) => !self.gc_options.gc_enabled || version.checked_rem_euclid(
                self.gc_options.gc_frequency,
            ).is_some(),
            None => true,
        }
    }

    /// Tells whether garbage is collected before this compilation.
    pub fn should_collect_garbage(&self) -> (collect: bool)
        requires
            self.complete(),
        ensures
            collect == self.collects_garbage(),
            collect == (self.gc_options.gc_enabled && self.version is Some && self.version->0 as int
                % self.gc_options.gc_frequency as int == 0),
    {
        match self.version {
            Some(version) => self.gc_options.gc_enabled && version.checked_rem_euclid(
                self.gc_options.gc_frequency,
            ) == Some(0i32),
            None => false,
        }
    }
}

/// The distance between the versions at which garbage is collected.
pub open spec fn collection_interval(options: GarbageCollectionConfig) -> int {
    if options.gc_frequency >= 0 {
        options.gc_frequency as int
    } else {
        -options.gc_frequency
    }
}

/// Garbage is collected at regular intervals: from one version at which it is due, the next such
/// version is one interval away.
pub proof fn law_collection_interval(options: GarbageCollectionConfig, version: int, later: int)
    requires
        options.gc_frequency != 0,
        collection_is_due(options, version),
        version < later <= version + collection_interval(options),
    ensures
        collection_is_due(options, later) <==> later == version + collection_interval(options),
{
    let interval = collection_interval(options);
    let distance = later - version;
    if options.gc_frequency < 0 {
        lemma_remainder_ignores_sign(version, interval);
        lemma_remainder_ignores_sign(later, interval);
    }
    vstd::arithmetic::div_mod::lemma_add_mod_noop(version, distance, interval);
    if distance < interval {
        vstd::arithmetic::div_mod::lemma_small_mod(distance as nat, interval as nat);
    } else {
        vstd::arithmetic::div_mod::lemma_mod_self_0(interval);
        vstd::arithmetic::div_mod::lemma_small_mod(0, interval as nat);
    }
}

proof fn lemma_remainder_ignores_sign(number: int, divisor: int)
    by (nonlinear_arith)
    requires
        divisor > 0,
    ensures
        number % (-divisor) == number % divisor,
{
}

/// Garbage is due at every multiple of the frequency, if it is collected at all.
pub proof fn law_due_at_multiples(options: GarbageCollectionConfig, times: int)
    requires
        options.gc_frequency != 0,
    ensures
        collection_is_due(options, times * options.gc_frequency) == options.gc_enabled,
{
    let frequency = options.gc_frequency as int;
    assert((times * frequency) % frequency == 0) by (nonlinear_arith)
        requires
            frequency != 0,
    ;
}

/// Garbage is due at no version but the multiples of the frequency, and never where it is not
/// collected at all.
pub proof fn law_due_only_at_multiples(options: GarbageCollectionConfig, version: int) -> (times:
    int)
    requires
        options.gc_frequency != 0,
        collection_is_due(options, version),
    ensures
        options.gc_enabled,
        version == times * options.gc_frequency,
{
    let frequency = options.gc_frequency as int;
    let times = version / frequency;
    assert(version == times * frequency) by (nonlinear_arith)
        requires
            frequency != 0,
            version % frequency == 0,
            times == version / frequency,
    ;
    times
}

/// A compilation collects garbage exactly if its document has a version at which garbage is due.
pub proof fn law_version_decides_collection(context: CompilationContext)
    ensures
        context.version is None ==> !context.collects_garbage(),
        context.version matches Some(version) ==> context.collects_garbage() == collection_is_due(
            context.gc_options,
            version as int,
        ),
{
}

/// The worker can take every context that names a document and a session, unless the remainder of
/// the version by the frequency is asked for and is not defined.
pub proof fn law_which_contexts_are_complete(context: CompilationContext)
    ensures
        context.uri is None || context.session is None ==> !context.complete(),
        context.uri is Some && context.session is Some ==> {
            &&& context.version is None || !context.gc_options.gc_enabled ==> context.complete()
            &&& context.version is Some && context.gc_options.gc_enabled ==> context.complete() == (
            context.gc_options.gc_frequency != 0 && (context.version != Some(i32::MIN)
                || context.gc_options.gc_frequency != -1))
        },
{
}

} // verus!
