//! Execution engines and the choice among them.
//!
//! Whether an engine is available is probed by the platform layer; the
//! choice made from the probes' answers is decided here.
use vstd::prelude::*;
use crate::text;
use crate::{Config, ExecutionMode};

pub mod container;
pub mod native;
pub mod vm;

verus! {

/// What every execution engine tells about itself.
pub trait Engine {
    /// Name of this engine.
    fn name(&self) -> &'static str;

    /// Priority (higher is preferred).
    fn priority(&self) -> u32;
}

/// The fallback engine, which cannot run anything.
pub struct NullEngine;

impl Engine for NullEngine {
    fn name(&self) -> (r: &'static str)
        ensures
            r@ == "null"@,
    {
        "null"
    }

    fn priority(&self) -> (r: u32)
        ensures
            r == 0,
    {
        0
    }
}

/// The engines the runtime knows.
#[derive(Debug, Clone, Copy, PartialEq, Eq, Structural)]
pub enum EngineKind {
    Null,
    Avf,
    Container,
    Native,
}

/// What the availability probes reported.
#[derive(Debug, Clone, Copy, PartialEq, Eq, Structural)]
pub struct EngineAvailability {
    pub avf: bool,
    pub container: bool,
    pub native: bool,
}

/// Why no engine was chosen.
#[derive(Debug, Clone, Copy, PartialEq, Eq, Structural)]
pub enum EngineError {
    /// The engine that the mode asks for is not available.
    NotAvailable(ExecutionMode),
    /// No engine at all is available.
    NoneAvailable,
    /// The runtime has no engine to run: none was chosen yet.
    NotConfigured,
}

/// The name of an engine.
pub open spec fn kind_name(k: EngineKind) -> Seq<char> {
    match k {
        EngineKind::Null => "null"@,
        EngineKind::Avf => "avf"@,
        EngineKind::Container => "container"@,
        EngineKind::Native => "native"@,
    }
}

/// The priority of an engine.
pub open spec fn kind_priority(k: EngineKind) -> u32 {
    match k {
        EngineKind::Null => 0,
        EngineKind::Avf => 30,
        EngineKind::Container => 20,
        EngineKind::Native => 10,
    }
}

/// Whether the probes found `k` available.
pub open spec fn is_available(a: EngineAvailability, k: EngineKind) -> bool {
    match k {
        EngineKind::Null => false,
        EngineKind::Avf => a.avf,
        EngineKind::Container => a.container,
        EngineKind::Native => a.native,
    }
}

/// The engine that an explicit mode asks for.
pub open spec fn kind_for_mode(m: ExecutionMode) -> EngineKind {
    match m {
        ExecutionMode::Native => EngineKind::Native,
        ExecutionMode::Container => EngineKind::Container,
        ExecutionMode::MicroVM => EngineKind::Avf,
        ExecutionMode::Auto => EngineKind::Null,
    }
}

/// The candidate engines, in the order they are considered.
pub open spec fn candidate_kinds() -> Seq<EngineKind> {
    seq![EngineKind::Avf, EngineKind::Container, EngineKind::Native]
}

/// The priority of an optional engine; none counts as 0.
pub open spec fn priority_of(b: Option<EngineKind>) -> u32 {
    match b {
        Some(k) => kind_priority(k),
        None => 0,
    }
}

/// Going through `c` in order, the engine kept as best: an available one
/// replaces the best so far when its priority is strictly higher.
pub open spec fn best_available(c: Seq<EngineKind>, a: EngineAvailability) -> Option<EngineKind>
    decreases c.len(),
{
    if c.len() == 0 {
        None
    } else {
        let b = best_available(c.drop_last(), a);
        let k = c.last();
        if is_available(a, k) && kind_priority(k) > priority_of(b) {
            Some(k)
        } else {
            b
        }
    }
}

/// The engine chosen for `mode` from the probes' answers.
pub open spec fn detected(mode: ExecutionMode, a: EngineAvailability) -> Result<EngineKind, EngineError> {
    if mode == ExecutionMode::Auto {
        if a.avf {
            Ok(EngineKind::Avf)
        } else if a.container {
            Ok(EngineKind::Container)
        } else if a.native {
            Ok(EngineKind::Native)
        } else {
            Err(EngineError::NoneAvailable)
        }
    } else if is_available(a, kind_for_mode(mode)) {
        Ok(kind_for_mode(mode))
    } else {
        Err(EngineError::NotAvailable(mode))
    }
}

/// The engines whose availability is probed for `mode`: every candidate
/// under Auto, otherwise only the one that the mode names.
pub open spec fn probed(mode: ExecutionMode) -> Seq<EngineKind> {
    if mode == ExecutionMode::Auto {
        candidate_kinds()
    } else {
        seq![kind_for_mode(mode)]
    }
}

impl EngineKind {
    /// The engine's name.
    pub fn name(&self) -> (r: &'static str)
        ensures
            r@ == kind_name(*self),
    {
        match self {
            EngineKind::Null => "null",
            EngineKind::Avf => "avf",
            EngineKind::Container => "container",
            EngineKind::Native => "native",
        }
    }

    /// The engine's priority.
    pub fn priority(&self) -> (r: u32)
        ensures
            r == kind_priority(*self),
    {
        match self {
            EngineKind::Null => 0,
            EngineKind::Avf => 30,
            EngineKind::Container => 20,
            EngineKind::Native => 10,
        }
    }
}

impl EngineAvailability {
    /// Whether the probes found `k` available.
    pub fn has(&self, k: EngineKind) -> (r: bool)
        ensures
            r == is_available(*self, k),
    {
        match k {
            EngineKind::Null => false,
            EngineKind::Avf => self.avf,
            EngineKind::Container => self.container,
            EngineKind::Native => self.native,
        }
    }
}

/// The candidate engines, in the order they are considered: the microVM,
/// then the container, then the native engine.
pub fn candidates() -> (r: Vec<EngineKind>)
    ensures
        r@ == candidate_kinds(),
{
    let mut v: Vec<EngineKind> = Vec::new();
    v.push(EngineKind::Avf);
    v.push(EngineKind::Container);
    v.push(EngineKind::Native);
    assert(v@ =~= candidate_kinds());
    v
}

/// The name that an explicit mode asks for; Auto names none.
fn mode_engine_name(mode: ExecutionMode) -> (r: &'static str)
    ensures
        mode != ExecutionMode::Auto ==> r@ == kind_name(kind_for_mode(mode)),
{
    match mode {
        ExecutionMode::Native => "native",
        ExecutionMode::Container => "container",
        ExecutionMode::MicroVM => "avf",
        _ => "",
    }
}

/// The engines whose availability `detect_best` consults for `mode`, in
/// order; the platform layer probes exactly these.
pub fn probes_for(mode: ExecutionMode) -> (r: Vec<EngineKind>)
    ensures
        r@ == probed(mode),
{
    if mode == ExecutionMode::Auto {
        return candidates();
    }
    let mut v: Vec<EngineKind> = Vec::new();
    let k = match mode {
        ExecutionMode::Native => EngineKind::Native,
        ExecutionMode::Container => EngineKind::Container,
        _ => EngineKind::Avf,
    };
    v.push(k);
    assert(v@ =~= probed(mode));
    v
}

proof fn lemma_best_of_candidates(a: EngineAvailability)
    ensures
        best_available(candidate_kinds(), a) == (if a.avf {
            Some(EngineKind::Avf)
        } else if a.container {
            Some(EngineKind::Container)
        } else if a.native {
            Some(EngineKind::Native)
        } else {
            None
        }),
{
    let c = candidate_kinds();
    assert(c.drop_last() =~= seq![EngineKind::Avf, EngineKind::Container]);
    assert(c.drop_last().drop_last() =~= seq![EngineKind::Avf]);
    assert(c.drop_last().drop_last().drop_last() =~= Seq::<EngineKind>::empty());
    reveal_with_fuel(best_available, 4);
}

proof fn lemma_names_distinct(k: EngineKind, j: EngineKind)
    requires
        k != j,
    ensures
        kind_name(k) != kind_name(j),
{
    reveal_strlit("null");
    reveal_strlit("avf");
    reveal_strlit("container");
    reveal_strlit("native");
    if kind_name(k) == kind_name(j) {
        assert(kind_name(k).len() == kind_name(j).len());
        assert(kind_name(k)[0] == kind_name(j)[0]);
    }
}

/// Choose the engine for the configured mode from what the probes reported.
/// An explicit mode gets the engine it names when that one is available and
/// an error otherwise; Auto gets the available engine of highest priority.
pub fn detect_best(config: &Config, availability: &EngineAvailability) -> (r: Result<EngineKind, EngineError>)
    ensures
        r == detected(config.engine.mode, *availability),
{
    let cands = candidates();
    let mode = config.engine.mode;
    if mode != ExecutionMode::Auto {
        let wanted = mode_engine_name(mode);
        let mut i: usize = 0;
        while i < cands.len()
            invariant
                cands@ == candidate_kinds(),
                mode == config.engine.mode,
                mode != ExecutionMode::Auto,
                wanted@ == kind_name(kind_for_mode(mode)),
                i <= cands@.len(),
                forall|j: int| 0 <= j < i ==> !(cands@[j] == kind_for_mode(mode)
                    && is_available(*availability, cands@[j])),
            decreases cands@.len() - i,
        {
            let e = cands[i];
            proof {
                if e != kind_for_mode(mode) {
                    lemma_names_distinct(e, kind_for_mode(mode));
                }
            }
            if text::str_eq(e.name(), wanted) && availability.has(e) {
                assert(e == kind_for_mode(mode));
                return Ok(e);
            }
            i = i + 1;
        }
        proof {
            let k = kind_for_mode(mode);
            if is_available(*availability, k) {
                let j: int = if k == EngineKind::Avf { 0 } else if k == EngineKind::Container { 1 } else { 2 };
                assert(cands@[j] == k);
            }
        }
        return Err(EngineError::NotAvailable(mode));
    }
    let mut best: Option<EngineKind> = None;
    let mut best_prio: u32 = 0;
    let mut i: usize = 0;
    while i < cands.len()
        invariant
            cands@ == candidate_kinds(),
            i <= cands@.len(),
            best == best_available(cands@.take(i as int), *availability),
            best_prio == priority_of(best),
        decreases cands@.len() - i,
    {
        let e = cands[i];
        proof {
            assert(cands@.take(i + 1).drop_last() =~= cands@.take(i as int));
            assert(cands@.take(i + 1).last() == e);
        }
        if availability.has(e) && e.priority() > best_prio {
            best_prio = e.priority();
            best = Some(e);
        }
        i = i + 1;
    }
    proof {
        assert(cands@.take(3) =~= candidate_kinds());
        lemma_best_of_candidates(*availability);
    }
    match best {
        Some(k) => Ok(k),
        None => Err(EngineError::NoneAvailable),
    }
}

/// The chosen engine is one that the probes found available, and under Auto
/// no available candidate has a higher priority.
pub proof fn law_chosen_engine_is_best(mode: ExecutionMode, a: EngineAvailability)
    ensures
        detected(mode, a) matches Ok(k) ==> is_available(a, k),
        mode == ExecutionMode::Auto ==> (detected(mode, a) matches Ok(k) ==> forall|j: EngineKind|
            #![trigger is_available(a, j)]
            is_available(a, j) ==> kind_priority(j) <= kind_priority(k)),
        mode == ExecutionMode::Auto ==> (detected(mode, a) is Err <==> !a.avf && !a.container && !a.native),
        mode != ExecutionMode::Auto ==> (detected(mode, a) matches Ok(k) ==> k == kind_for_mode(mode)),
        probed(mode).len() >= 1,
{
}

/// Environment variables, as name and value, in the order they are set.
pub type EnvPairs = Vec<(String, String)>;

/// The variable that an environment entry sets: the name up to the first
/// '=', the value after it. An entry without '=' sets none.
pub open spec fn entry_variable(e: Seq<char>) -> Option<(Seq<char>, Seq<char>)> {
    match text::first_index_of(e, '=') {
        Some(i) => Some((e.take(i), e.skip(i + 1))),
        None => None,
    }
}

/// The variables that a list of environment entries sets, in order.
pub open spec fn entry_variables(es: Seq<Seq<char>>) -> Seq<(Seq<char>, Seq<char>)>
    decreases es.len(),
{
    if es.len() == 0 {
        Seq::empty()
    } else {
        let rest = entry_variables(es.drop_last());
        match entry_variable(es.last()) {
            Some(p) => rest.push(p),
            None => rest,
        }
    }
}

/// The views of environment pairs.
pub open spec fn pair_views(v: EnvPairs) -> Seq<(Seq<char>, Seq<char>)> {
    v@.map_values(|p: (String, String)| (p.0@, p.1@))
}

/// The environment of a command run under `c`: PATH is the configured
/// entries joined with ':', HOME the work directory, TERM xterm-256color,
/// then the engine's own variables (the container marker for a container;
/// the preload library, the rootfs and the hostname for the native engine,
/// which works through LD_PRELOAD), then the variables the
/// configured entries set.
pub open spec fn is_environment(c: Config, container: bool, r: EnvPairs) -> bool {
    pair_views(r) == seq![
        ("PATH"@, text::joined(text::views(c.runtime.env@), ":"@)),
        ("HOME"@, c.runtime.workdir@),
        ("TERM"@, "xterm-256color"@),
    ] + engine_variables(c, container) + entry_variables(text::views(c.runtime.env@))
}

/// The variables an engine adds: the container marker for a container; the
/// preload library, the rootfs and the hostname for the native engine.
pub open spec fn engine_variables(c: Config, container: bool) -> Seq<(Seq<char>, Seq<char>)> {
    if container {
        seq![("container"@, "astrashell"@)]
    } else {
        seq![
            ("LD_PRELOAD"@, "libastrashell-preload.so"@),
            ("ASTRASHELL_ROOT"@, c.runtime.rootfs@),
            ("ASTRASHELL_HOSTNAME"@, c.runtime.hostname@),
        ]
    }
}

/// Split an environment entry at its first '='.
pub fn split_env_entry(e: &str) -> (r: Option<(String, String)>)
    ensures
        match r {
            Some(p) => entry_variable(e@) == Some((p.0@, p.1@)),
            None => entry_variable(e@) is None,
        },
{
    match text::find_char(e, '=') {
        Some(i) => {
            let n = e.unicode_len();
            let name = text::substring(e, 0, i);
            let value = text::substring(e, i + 1, n);
            assert(name@ =~= e@.take(i as int));
            assert(value@ =~= e@.skip(i + 1));
            Some((name, value))
        },
        None => None,
    }
}

fn push_pair(v: &mut EnvPairs, name: &str, value: &str)
    ensures
        pair_views(*final(v)) == pair_views(*old(v)).push((name@, value@)),
{
    v.push((text::owned(name), text::owned(value)));
    assert(pair_views(*final(v)) =~= pair_views(*old(v)).push((name@, value@)));
}

/// The environment of a command run under `config` by the container engine
/// when `container` holds, by the native engine otherwise.
pub fn environment(config: &Config, container: bool) -> (r: EnvPairs)
    ensures
        is_environment(*config, container, r),
{
    let env = &config.runtime.env;
    let path_env = text::join(env, ":");
    let mut v: EnvPairs = Vec::new();
    push_pair(&mut v, "PATH", path_env.as_str());
    push_pair(&mut v, "HOME", config.runtime.workdir.as_str());
    push_pair(&mut v, "TERM", "xterm-256color");
    if container {
        push_pair(&mut v, "container", "astrashell");
    } else {
        push_pair(&mut v, "LD_PRELOAD", "libastrashell-preload.so");
        push_pair(&mut v, "ASTRASHELL_ROOT", config.runtime.rootfs.as_str());
        push_pair(&mut v, "ASTRASHELL_HOSTNAME", config.runtime.hostname.as_str());
    }
    let ghost head = pair_views(v);
    assert(head =~= seq![
        ("PATH"@, text::joined(text::views(env@), ":"@)),
        ("HOME"@, config.runtime.workdir@),
        ("TERM"@, "xterm-256color"@),
    ] + engine_variables(*config, container));
    let ghost es = text::views(env@);
    let mut i: usize = 0;
    while i < env.len()
        invariant
            es == text::views(env@),
            es.len() == env@.len(),
            i <= env@.len(),
            pair_views(v) == head + entry_variables(es.take(i as int)),
        decreases env@.len() - i,
    {
        proof {
            assert(es.take(i + 1).drop_last() =~= es.take(i as int));
            assert(es.take(i + 1).last() == env@[i as int]@);
        }
        match split_env_entry(env[i].as_str()) {
            Some(p) => {
                let ghost before = pair_views(v);
                v.push(p);
                assert(pair_views(v) =~= before.push((p.0@, p.1@)));
                assert(pair_views(v) =~= head + entry_variables(es.take(i + 1)));
            },
            None => {},
        }
        i = i + 1;
    }
    assert(es.take(env@.len() as int) =~= es);
    v
}

/// An environment entry that sets a variable is the variable's name, '='
/// and its value, and the name holds no '='.
pub proof fn law_entry_split_round_trip(e: Seq<char>)
    ensures
        entry_variable(e) matches Some((name, value)) ==> e == name + "="@ + value && !name.contains(
            '=',
        ),
        e.contains('=') <==> entry_variable(e) is Some,
{
    text::lemma_first_index_of(e, '=');
    reveal_strlit("=");
    match text::first_index_of(e, '=') {
        Some(i) => {
            let name = e.take(i);
            assert(e =~= name + "="@ + e.skip(i + 1));
            assert(!name.contains('=')) by {
                if name.contains('=') {
                    let k = choose|k: int| 0 <= k < name.len() && name[k] == '=';
                    assert(e[k] == '=');
                }
            }
            assert(e.contains('=')) by { assert(e[i] == '='); }
        },
        None => {
            assert(!e.contains('='));
        },
    }
}

/// Where an engine's start sequence goes after one of its steps.
#[derive(Debug, Clone, Copy, PartialEq, Eq, Structural)]
pub enum StepProgress {
    /// Perform the step with this index next.
    Next(usize),
    /// The step with this index failed: the start stops with its error.
    Failed(usize),
    /// Every step succeeded.
    Finished,
}

/// The progress after step `done` of `total` succeeded (`ok`) or failed.
pub open spec fn progress_after(done: int, total: int, ok: bool) -> StepProgress {
    if !ok {
        StepProgress::Failed(done as usize)
    } else if done + 1 < total {
        StepProgress::Next((done + 1) as usize)
    } else {
        StepProgress::Finished
    }
}

/// Decide what follows step `done` of a start sequence of `total` steps:
/// the first failure ends the start; otherwise the next step runs, until
/// the last one is done.
pub fn next_step(done: usize, total: usize, ok: bool) -> (r: StepProgress)
    requires
        done < total,
    ensures
        r == progress_after(done as int, total as int, ok),
{
    if !ok {
        StepProgress::Failed(done)
    } else if done + 1 < total {
        StepProgress::Next(done + 1)
    } else {
        StepProgress::Finished
    }
}

/// Where a start sequence ends when it is driven by `progress_after` from
/// step `i`, each step `k` succeeding as `results[k]` says.
pub open spec fn driven_from(results: Seq<bool>, i: int) -> StepProgress
    decreases results.len() - i,
{
    if i < 0 || i >= results.len() {
        StepProgress::Finished
    } else {
        match progress_after(i, results.len() as int, results[i]) {
            StepProgress::Next(j) => if j as int == i + 1 {
                driven_from(results, i + 1)
            } else {
                StepProgress::Finished
            },
            other => other,
        }
    }
}

/// A start sequence stops at its first failed step and runs no step after
/// it: driven by `next_step`, it ends failed at step `k` exactly when every
/// step before `k` succeeded and step `k` failed, and finishes exactly when
/// every step succeeded.
pub proof fn law_start_stops_at_first_failure(results: Seq<bool>, i: int)
    requires
        0 <= i <= results.len(),
        results.len() <= usize::MAX,
    ensures
        driven_from(results, i) matches StepProgress::Failed(k) ==> i <= k < results.len() && !results[k as int]
            && forall|j: int| i <= j < k ==> results[j],
        driven_from(results, i) is Finished <==> forall|j: int| i <= j < results.len() ==> results[j],
        !(driven_from(results, i) is Next),
    decreases results.len() - i,
{
    if i < results.len() {
        law_start_stops_at_first_failure(results, i + 1);
        if !results[i] {
            assert(!(forall|j: int| i <= j < results.len() ==> results[j]));
        } else if (forall|j: int| i + 1 <= j < results.len() ==> results[j]) {
            assert forall|j: int| i <= j < results.len() implies results[j] by {
                if j > i {
                    assert(i + 1 <= j);
                }
            }
        }
    }
}

} // verus!
