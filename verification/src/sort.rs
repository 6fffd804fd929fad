//! The per-file sort pipeline, as an explicit state machine:
//! render the destination, decide (same file? exists? overwrite allowed?),
//! then replicate through the strategy chain.
//!
//! The engine decides; the filesystem acts. Each pending state names the
//! one filesystem action to perform (`FsAction`); the caller performs it
//! and hands the outcome back (`FsOutcome`), and the machine moves on,
//! until it is `Done`. A destination equal to the source is skipped before
//! any filesystem action is requested.
//!
//! When every strategy of the chain has failed, the run ends with the
//! sentinel's fixed error; the intermediate failures are the caller's to
//! log. An empty chain fails the same way at once.

use vstd::prelude::*;

use crate::context::{Context, ContextModel, Provider, ProviderModel};
use crate::pathname::{extension_of, file_name_of, file_stem_of, spec_ext_of_name, spec_file_name, spec_stem_of_name};
use crate::replicator::{spec_none_replicate_error, NoneReplicator, ReplicatorKind, ReplicatorWithFallback};
use crate::strings::str_eq;
use crate::template::{spec_render, RenderError, RenderErrorModel, Template, TokenModel};

verus! {

/// Why a file was skipped rather than replicated.
#[derive(Clone, Copy, Debug, PartialEq, Eq, Structural)]
pub enum SkippedReason {
    /// The destination exists and overwriting is disabled.
    Overwrite,
    /// Source and destination are the same path.
    SameFile,
}

/// The outcome of one completed sort operation.
#[derive(Debug)]
pub enum SortResult {
    /// The file was not replicated.
    Skipped { replicate_path: String, reason: SkippedReason },
    /// The file was replicated; `overwrite` says whether an existing
    /// destination was removed first.
    Replicated { replicate_path: String, overwrite: bool },
}

pub enum SortResultModel {
    Skipped { replicate_path: Seq<char>, reason: SkippedReason },
    Replicated { replicate_path: Seq<char>, overwrite: bool },
}

impl SortResult {
    pub open spec fn model(&self) -> SortResultModel {
        match self {
            SortResult::Skipped { replicate_path, reason } => SortResultModel::Skipped {
                replicate_path: replicate_path@,
                reason: *reason,
            },
            SortResult::Replicated { replicate_path, overwrite } => SortResultModel::Replicated {
                replicate_path: replicate_path@,
                overwrite: *overwrite,
            },
        }
    }
}

/// A failed sort operation, classified by the stage that failed. The
/// replicate and overwrite errors carry the error text and the
/// destination path implicated.
#[derive(Debug)]
pub enum SortError {
    TemplateError(RenderError),
    ReplicateError(String, String),
    OverwriteError(String, String),
}

pub enum SortErrorModel {
    TemplateError(RenderErrorModel),
    ReplicateError(Seq<char>, Seq<char>),
    OverwriteError(Seq<char>, Seq<char>),
}

impl SortError {
    pub open spec fn model(&self) -> SortErrorModel {
        match self {
            SortError::TemplateError(e) => SortErrorModel::TemplateError(e.model()),
            SortError::ReplicateError(m, d) => SortErrorModel::ReplicateError(m@, d@),
            SortError::OverwriteError(m, d) => SortErrorModel::OverwriteError(m@, d@),
        }
    }
}

pub open spec fn sort_result_model(r: Result<SortResult, SortError>) -> Result<
    SortResultModel,
    SortErrorModel,
> {
    match r {
        Ok(s) => Ok(s.model()),
        Err(e) => Err(e.model()),
    }
}

/// The sort engine's configuration: the destination template, the
/// strategy chain, and whether an existing destination may be overwritten.
#[derive(Debug)]
pub struct Config {
    template: Template,
    replicator: ReplicatorWithFallback,
    overwrite: bool,
}

impl Config {
    pub closed spec fn spec_template(&self) -> Seq<TokenModel> {
        self.template.model()
    }

    pub closed spec fn spec_chain(&self) -> Seq<ReplicatorKind> {
        self.replicator.model()
    }

    pub closed spec fn spec_overwrite(&self) -> bool {
        self.overwrite
    }

    pub fn new(template: Template, replicator: ReplicatorWithFallback, overwrite: bool) -> (r:
        Self)
        ensures
            r.spec_template() == template.model(),
            r.spec_chain() == replicator.model(),
            r.spec_overwrite() == overwrite,
    {
        Self { template, replicator, overwrite }
    }
}

/// The phase a pending run is in.
pub enum PhaseModel {
    /// Waiting to learn whether the destination exists.
    CheckDest,
    /// Waiting for the existing destination to be removed.
    RemoveDest,
    /// Waiting for the destination's parent directory to be ensured.
    EnsureParent { overwrote: bool },
    /// Waiting for the strategy at `idx` of the chain to run.
    Replicate { overwrote: bool, idx: int },
}

/// The whole state of a pending run.
pub struct SortRunModel {
    pub src: Seq<char>,
    pub dest: Seq<char>,
    pub chain: Seq<ReplicatorKind>,
    pub overwrite: bool,
    pub phase: PhaseModel,
}

#[derive(Debug, Clone, Copy)]
enum Phase {
    CheckDest,
    RemoveDest,
    EnsureParent { overwrote: bool },
    Replicate { overwrote: bool, idx: usize },
}

/// One pending sort run: the decided source and destination, the chain,
/// and the phase. The caller performs `action()` and feeds the outcome to
/// `step`.
#[derive(Debug)]
pub struct SortRun {
    src: String,
    dest: String,
    chain: Vec<ReplicatorKind>,
    overwrite: bool,
    phase: Phase,
}

impl SortRun {
    pub closed spec fn model(&self) -> SortRunModel {
        SortRunModel {
            src: self.src@,
            dest: self.dest@,
            chain: self.chain@,
            overwrite: self.overwrite,
            phase: match self.phase {
                Phase::CheckDest => PhaseModel::CheckDest,
                Phase::RemoveDest => PhaseModel::RemoveDest,
                Phase::EnsureParent { overwrote } => PhaseModel::EnsureParent { overwrote },
                Phase::Replicate { overwrote, idx } => PhaseModel::Replicate {
                    overwrote,
                    idx: idx as int,
                },
            },
        }
    }

    /// In a replicate phase, the position is inside the chain.
    pub closed spec fn wf(&self) -> bool {
        match self.phase {
            Phase::Replicate { overwrote: _, idx } => idx < self.chain@.len(),
            _ => true,
        }
    }
}

/// The one filesystem action a pending run asks for.
#[derive(Debug)]
pub enum FsAction {
    /// Does the destination exist?
    CheckDestExists { dest: String },
    /// Remove the destination (recursively, if it is a directory).
    RemoveDest { dest: String },
    /// Ensure the destination's parent directory exists, creating it and
    /// its ancestors as needed.
    CreateParentDir { dest: String },
    /// Run one replication strategy on (src, dest).
    Replicate { kind: ReplicatorKind, src: String, dest: String },
}

pub enum FsActionModel {
    CheckDestExists { dest: Seq<char> },
    RemoveDest { dest: Seq<char> },
    CreateParentDir { dest: Seq<char> },
    Replicate { kind: ReplicatorKind, src: Seq<char>, dest: Seq<char> },
}

impl FsAction {
    pub open spec fn model(&self) -> FsActionModel {
        match self {
            FsAction::CheckDestExists { dest } => FsActionModel::CheckDestExists { dest: dest@ },
            FsAction::RemoveDest { dest } => FsActionModel::RemoveDest { dest: dest@ },
            FsAction::CreateParentDir { dest } => FsActionModel::CreateParentDir { dest: dest@ },
            FsAction::Replicate { kind, src, dest } => FsActionModel::Replicate {
                kind: *kind,
                src: src@,
                dest: dest@,
            },
        }
    }
}

/// What the filesystem answered; each variant answers one action, with
/// the error text on failure.
#[derive(Debug)]
pub enum FsOutcome {
    Exists(bool),
    Removed(Result<(), String>),
    DirCreated(Result<(), String>),
    Replicated(Result<(), String>),
}

pub enum FsOutcomeModel {
    Exists(bool),
    Removed(Result<(), Seq<char>>),
    DirCreated(Result<(), Seq<char>>),
    Replicated(Result<(), Seq<char>>),
}

impl FsOutcome {
    pub open spec fn model(&self) -> FsOutcomeModel {
        match self {
            FsOutcome::Exists(b) => FsOutcomeModel::Exists(*b),
            FsOutcome::Removed(r) => FsOutcomeModel::Removed(
                match r {
                    Ok(_) => Ok(()),
                    Err(m) => Err(m@),
                },
            ),
            FsOutcome::DirCreated(r) => FsOutcomeModel::DirCreated(
                match r {
                    Ok(_) => Ok(()),
                    Err(m) => Err(m@),
                },
            ),
            FsOutcome::Replicated(r) => FsOutcomeModel::Replicated(
                match r {
                    Ok(_) => Ok(()),
                    Err(m) => Err(m@),
                },
            ),
        }
    }
}

/// A sort run so far: still pending, or done with its outcome.
#[derive(Debug)]
pub enum SortStep {
    Pending(SortRun),
    Done(Result<SortResult, SortError>),
}

pub enum SortStepModel {
    Pending(SortRunModel),
    Done(Result<SortResultModel, SortErrorModel>),
}

impl SortStep {
    pub open spec fn model(&self) -> SortStepModel {
        match self {
            SortStep::Pending(run) => SortStepModel::Pending(run.model()),
            SortStep::Done(r) => SortStepModel::Done(sort_result_model(*r)),
        }
    }

    /// Every pending run a public function hands out is well formed.
    pub open spec fn wf(&self) -> bool {
        match self {
            SortStep::Pending(run) => run.wf(),
            SortStep::Done(_) => true,
        }
    }
}

/// The action a pending run asks for, as a function of its state.
pub open spec fn spec_action(run: SortRunModel) -> FsActionModel {
    match run.phase {
        PhaseModel::CheckDest => FsActionModel::CheckDestExists { dest: run.dest },
        PhaseModel::RemoveDest => FsActionModel::RemoveDest { dest: run.dest },
        PhaseModel::EnsureParent { overwrote: _ } => FsActionModel::CreateParentDir {
            dest: run.dest,
        },
        PhaseModel::Replicate { overwrote: _, idx } => FsActionModel::Replicate {
            kind: run.chain[idx],
            src: run.src,
            dest: run.dest,
        },
    }
}

/// Whether an outcome answers the action the run is waiting on.
pub open spec fn outcome_matches(run: SortRunModel, o: FsOutcomeModel) -> bool {
    match (run.phase, o) {
        (PhaseModel::CheckDest, FsOutcomeModel::Exists(_)) => true,
        (PhaseModel::RemoveDest, FsOutcomeModel::Removed(_)) => true,
        (PhaseModel::EnsureParent { .. }, FsOutcomeModel::DirCreated(_)) => true,
        (PhaseModel::Replicate { .. }, FsOutcomeModel::Replicated(_)) => true,
        _ => false,
    }
}

/// The transition relation of the engine, exactly as the pipeline
/// decides:
/// - an existing destination is skipped when overwriting is disabled,
///   and removed when it is enabled;
/// - a removal failure ends the run with an overwrite error naming the
///   destination;
/// - a failure to ensure the parent directory ends the run with a
///   replicate error;
/// - a strategy failure falls through to the next strategy, and past the
///   last one the run ends with the sentinel's fixed exhausted error;
/// - a strategy success ends the run as replicated, remembering whether
///   the destination was overwritten.
pub open spec fn spec_step(run: SortRunModel, o: FsOutcomeModel) -> SortStepModel {
    match (run.phase, o) {
        (PhaseModel::CheckDest, FsOutcomeModel::Exists(exists)) => {
            if !exists {
                SortStepModel::Pending(
                    SortRunModel { phase: PhaseModel::EnsureParent { overwrote: false }, ..run },
                )
            } else if run.overwrite {
                SortStepModel::Pending(SortRunModel { phase: PhaseModel::RemoveDest, ..run })
            } else {
                SortStepModel::Done(
                    Ok(
                        SortResultModel::Skipped {
                            replicate_path: run.dest,
                            reason: SkippedReason::Overwrite,
                        },
                    ),
                )
            }
        },
        (PhaseModel::RemoveDest, FsOutcomeModel::Removed(res)) => match res {
            Ok(_) => SortStepModel::Pending(
                SortRunModel { phase: PhaseModel::EnsureParent { overwrote: true }, ..run },
            ),
            Err(m) => SortStepModel::Done(Err(SortErrorModel::OverwriteError(m, run.dest))),
        },
        (PhaseModel::EnsureParent { overwrote }, FsOutcomeModel::DirCreated(res)) => match res {
            Ok(_) => {
                if run.chain.len() == 0 {
                    SortStepModel::Done(
                        Err(
                            SortErrorModel::ReplicateError(spec_none_replicate_error(), run.dest),
                        ),
                    )
                } else {
                    SortStepModel::Pending(
                        SortRunModel { phase: PhaseModel::Replicate { overwrote, idx: 0 }, ..run },
                    )
                }
            },
            Err(m) => SortStepModel::Done(Err(SortErrorModel::ReplicateError(m, run.dest))),
        },
        (PhaseModel::Replicate { overwrote, idx }, FsOutcomeModel::Replicated(res)) => match res {
            Ok(_) => SortStepModel::Done(
                Ok(
                    SortResultModel::Replicated {
                        replicate_path: run.dest,
                        overwrite: overwrote,
                    },
                ),
            ),
            Err(_) => {
                if idx + 1 < run.chain.len() {
                    SortStepModel::Pending(
                        SortRunModel {
                            phase: PhaseModel::Replicate { overwrote, idx: idx + 1 },
                            ..run
                        },
                    )
                } else {
                    SortStepModel::Done(
                        Err(
                            SortErrorModel::ReplicateError(spec_none_replicate_error(), run.dest),
                        ),
                    )
                }
            },
        },
        _ => SortStepModel::Pending(run),
    }
}

/// The context `sort_file` seeds from the source path alone: the path
/// itself, and the name, stem and extension when the path has them.
pub open spec fn spec_basic_ctx(src: Seq<char>) -> ContextModel {
    let name = spec_file_name(src);
    seq![("file.path"@, ProviderModel::Fixed(src))] + (if name.len() > 0 {
        seq![("file.name"@, ProviderModel::Fixed(name))]
    } else {
        Seq::<(Seq<char>, ProviderModel)>::empty()
    }) + (if name.len() > 0 {
        seq![("file.stem"@, ProviderModel::Fixed(spec_stem_of_name(name)))]
    } else {
        Seq::<(Seq<char>, ProviderModel)>::empty()
    }) + (match spec_ext_of_name(name) {
        Some(e) => seq![("file.extension"@, ProviderModel::Fixed(e))],
        None => Seq::<(Seq<char>, ProviderModel)>::empty(),
    })
}

/// What starting a run yields: a render failure is terminal; a
/// destination equal to the source is skipped as the same file, with no
/// filesystem action requested, whatever the overwrite flag; otherwise
/// the run waits on the destination check.
pub open spec fn spec_sort_start(
    tokens: Seq<TokenModel>,
    chain: Seq<ReplicatorKind>,
    overwrite: bool,
    src: Seq<char>,
    ctx: ContextModel,
) -> SortStepModel {
    match spec_render(tokens, ctx) {
        Err(e) => SortStepModel::Done(Err(SortErrorModel::TemplateError(e))),
        Ok(dest) => {
            if dest == src {
                SortStepModel::Done(
                    Ok(
                        SortResultModel::Skipped {
                            replicate_path: dest,
                            reason: SkippedReason::SameFile,
                        },
                    ),
                )
            } else {
                SortStepModel::Pending(
                    SortRunModel { src, dest, chain, overwrite, phase: PhaseModel::CheckDest },
                )
            }
        },
    }
}

/// Law: a template that renders back the source path is skipped as the
/// same file, whatever the overwrite flag, and the run is terminal: no
/// filesystem action is ever requested, so nothing is mutated.
pub proof fn lemma_same_file_skip(
    tokens: Seq<TokenModel>,
    chain: Seq<ReplicatorKind>,
    overwrite: bool,
    src: Seq<char>,
    ctx: ContextModel,
)
    requires
        spec_render(tokens, ctx) == Ok::<Seq<char>, RenderErrorModel>(src),
    ensures
        spec_sort_start(tokens, chain, overwrite, src, ctx) == SortStepModel::Done(
            Ok(SortResultModel::Skipped { replicate_path: src, reason: SkippedReason::SameFile }),
        ),
{
}

/// Law: with the destination existing, an overwrite-disabled run ends
/// skipped with no further action, and an overwrite-enabled run moves on
/// to removing the destination.
pub proof fn lemma_overwrite_policy(run: SortRunModel)
    requires
        run.phase == PhaseModel::CheckDest,
    ensures
        !run.overwrite ==> spec_step(run, FsOutcomeModel::Exists(true)) == SortStepModel::Done(
            Ok(
                SortResultModel::Skipped {
                    replicate_path: run.dest,
                    reason: SkippedReason::Overwrite,
                },
            ),
        ),
        run.overwrite ==> spec_step(run, FsOutcomeModel::Exists(true)) == SortStepModel::Pending(
            SortRunModel { phase: PhaseModel::RemoveDest, ..run },
        ),
{
}

/// Law: with overwriting enabled and an existing destination, the run
/// removes the destination first, and when removal, parent creation and
/// the first strategy succeed, it ends replicated with `overwrite` true.
pub proof fn lemma_overwrite_replicates(run: SortRunModel)
    requires
        run.phase == PhaseModel::CheckDest,
        run.overwrite,
        run.chain.len() > 0,
    ensures
        spec_step(run, FsOutcomeModel::Exists(true)) matches SortStepModel::Pending(r1)
            && spec_step(r1, FsOutcomeModel::Removed(Ok(()))) matches SortStepModel::Pending(r2)
            && spec_step(r2, FsOutcomeModel::DirCreated(Ok(()))) matches SortStepModel::Pending(r3)
            && spec_step(r3, FsOutcomeModel::Replicated(Ok(()))) == SortStepModel::Done(
            Ok(SortResultModel::Replicated { replicate_path: run.dest, overwrite: true }),
        ),
{
}

/// What a run in a replicate phase comes to when every remaining
/// strategy fails with the given error text.
pub open spec fn spec_fail_from(run: SortRunModel, msg: Seq<char>) -> SortStepModel
    decreases (match run.phase {
        PhaseModel::Replicate { overwrote: _, idx } => run.chain.len() - idx,
        _ => 0,
    }),
{
    match run.phase {
        PhaseModel::Replicate { .. } => match spec_step(
            run,
            FsOutcomeModel::Replicated(Err(msg)),
        ) {
            SortStepModel::Pending(r2) => spec_fail_from(r2, msg),
            SortStepModel::Done(d) => SortStepModel::Done(d),
        },
        _ => SortStepModel::Pending(run),
    }
}

/// Law: when every strategy left in the chain fails, the run ends with
/// the sentinel's fixed exhausted error naming the destination: a chain
/// never falls through without returning.
pub proof fn lemma_chain_exhausts(run: SortRunModel, msg: Seq<char>)
    requires
        run.phase matches PhaseModel::Replicate { overwrote: _, idx } && 0 <= idx
            < run.chain.len(),
    ensures
        spec_fail_from(run, msg) == SortStepModel::Done(
            Err::<SortResultModel, SortErrorModel>(
                SortErrorModel::ReplicateError(spec_none_replicate_error(), run.dest),
            ),
        ),
    decreases (match run.phase {
        PhaseModel::Replicate { overwrote: _, idx } => run.chain.len() - idx,
        _ => 0,
    }),
{
    match run.phase {
        PhaseModel::Replicate { overwrote, idx } => {
            if idx + 1 < run.chain.len() {
                let r2 = SortRunModel {
                    phase: PhaseModel::Replicate { overwrote, idx: idx + 1 },
                    ..run
                };
                lemma_chain_exhausts(r2, msg);
            }
        },
        _ => {},
    }
}

fn clone_kinds(v: &Vec<ReplicatorKind>) -> (r: Vec<ReplicatorKind>)
    ensures
        r@ == v@,
{
    let mut r: Vec<ReplicatorKind> = Vec::new();
    let n = v.len();
    let mut i: usize = 0;
    while i < n
        invariant
            i <= n,
            n == v@.len(),
            r@ =~= v@.take(i as int),
        decreases n - i,
    {
        r.push(v[i]);
        assert(r@ =~= v@.take(i + 1));
        i += 1;
    }
    assert(r@ =~= v@);
    r
}

/// The per-file sort engine.
#[derive(Debug)]
pub struct Sorter {
    cfg: Config,
}

impl Sorter {
    pub closed spec fn spec_template(&self) -> Seq<TokenModel> {
        self.cfg.spec_template()
    }

    pub closed spec fn spec_chain(&self) -> Seq<ReplicatorKind> {
        self.cfg.spec_chain()
    }

    pub closed spec fn spec_overwrite(&self) -> bool {
        self.cfg.spec_overwrite()
    }

    pub fn new(cfg: Config) -> (r: Self)
        ensures
            r.spec_template() == cfg.spec_template(),
            r.spec_chain() == cfg.spec_chain(),
            r.spec_overwrite() == cfg.spec_overwrite(),
    {
        Self { cfg }
    }

    /// Starts a run for one source file, in a caller-prepared context.
    pub fn sort_file_with_context(&self, src_path: &str, ctx: &Context) -> (r: SortStep)
        requires
            ctx.wf(),
        ensures
            r.model() == spec_sort_start(
                self.spec_template(),
                self.spec_chain(),
                self.spec_overwrite(),
                src_path@,
                ctx.model(),
            ),
            r.wf(),
    {
        match self.cfg.template.render(ctx) {
            Err(e) => SortStep::Done(Err(SortError::TemplateError(e))),
            Ok(dest) => {
                if str_eq(dest.as_str(), src_path) {
                    SortStep::Done(
                        Ok(
                            SortResult::Skipped {
                                replicate_path: dest,
                                reason: SkippedReason::SameFile,
                            },
                        ),
                    )
                } else {
                    SortStep::Pending(
                        SortRun {
                            src: src_path.to_owned(),
                            dest,
                            chain: clone_kinds(self.cfg.replicator.kinds()),
                            overwrite: self.cfg.overwrite,
                            phase: Phase::CheckDest,
                        },
                    )
                }
            },
        }
    }

    /// Starts a run for one source file: seeds a context with the file's
    /// identity variables, renders the destination, and decides the first
    /// step.
    pub fn sort_file(&self, src_path: &str) -> (r: SortStep)
        ensures
            r.model() == spec_sort_start(
                self.spec_template(),
                self.spec_chain(),
                self.spec_overwrite(),
                src_path@,
                spec_basic_ctx(src_path@),
            ),
            r.wf(),
    {
        let mut ctx = Context::new();
        let ghost m0 = ctx.model();
        ctx.insert(&["file.path"], Provider::Fixed(src_path.to_owned()));
        assert(ctx.model() =~= seq![("file.path"@, ProviderModel::Fixed(src_path@))]);
        let ghost m1 = ctx.model();
        match file_name_of(src_path) {
            Some(name) => {
                ctx.insert(&["file.name"], Provider::Fixed(name));
                assert(ctx.model() =~= m1 + seq![
                    ("file.name"@, ProviderModel::Fixed(spec_file_name(src_path@))),
                ]);
            },
            None => {},
        }
        let ghost m2 = ctx.model();
        match file_stem_of(src_path) {
            Some(stem) => {
                ctx.insert(&["file.stem"], Provider::Fixed(stem));
                assert(ctx.model() =~= m2 + seq![
                    (
                        "file.stem"@,
                        ProviderModel::Fixed(spec_stem_of_name(spec_file_name(src_path@))),
                    ),
                ]);
            },
            None => {},
        }
        let ghost m3 = ctx.model();
        match extension_of(src_path) {
            Some(ext) => {
                ctx.insert(&["file.extension"], Provider::Fixed(ext));
                assert(ctx.model() =~= m3 + seq![
                    (
                        "file.extension"@,
                        ProviderModel::Fixed(spec_ext_of_name(spec_file_name(src_path@))->Some_0),
                    ),
                ]);
            },
            None => {},
        }
        assert(ctx.model() =~= spec_basic_ctx(src_path@));
        self.sort_file_with_context(src_path, &ctx)
    }
}

impl SortRun {
    /// The one filesystem action this run is waiting on.
    pub fn action(&self) -> (a: FsAction)
        requires
            self.wf(),
        ensures
            a.model() == spec_action(self.model()),
    {
        match self.phase {
            Phase::CheckDest => FsAction::CheckDestExists { dest: self.dest.clone() },
            Phase::RemoveDest => FsAction::RemoveDest { dest: self.dest.clone() },
            Phase::EnsureParent { .. } => FsAction::CreateParentDir { dest: self.dest.clone() },
            Phase::Replicate { overwrote: _, idx } => FsAction::Replicate {
                kind: self.chain[idx],
                src: self.src.clone(),
                dest: self.dest.clone(),
            },
        }
    }

    /// Feeds the outcome of the pending action to the machine.
    pub fn step(self, outcome: FsOutcome) -> (r: SortStep)
        requires
            self.wf(),
            outcome_matches(self.model(), outcome.model()),
        ensures
            r.model() == spec_step(self.model(), outcome.model()),
            r.wf(),
    {
        match (self.phase, outcome) {
            (Phase::CheckDest, FsOutcome::Exists(exists)) => {
                if !exists {
                    SortStep::Pending(
                        SortRun { phase: Phase::EnsureParent { overwrote: false }, ..self },
                    )
                } else if self.overwrite {
                    SortStep::Pending(SortRun { phase: Phase::RemoveDest, ..self })
                } else {
                    SortStep::Done(
                        Ok(
                            SortResult::Skipped {
                                replicate_path: self.dest,
                                reason: SkippedReason::Overwrite,
                            },
                        ),
                    )
                }
            },
            (Phase::RemoveDest, FsOutcome::Removed(res)) => match res {
                Ok(_) => SortStep::Pending(
                    SortRun { phase: Phase::EnsureParent { overwrote: true }, ..self },
                ),
                Err(m) => SortStep::Done(Err(SortError::OverwriteError(m, self.dest))),
            },
            (Phase::EnsureParent { overwrote }, FsOutcome::DirCreated(res)) => match res {
                Ok(_) => {
                    if self.chain.len() == 0 {
                        SortStep::Done(
                            Err(
                                SortError::ReplicateError(
                                    NoneReplicator::replicate_error(),
                                    self.dest,
                                ),
                            ),
                        )
                    } else {
                        SortStep::Pending(
                            SortRun { phase: Phase::Replicate { overwrote, idx: 0 }, ..self },
                        )
                    }
                },
                Err(m) => SortStep::Done(Err(SortError::ReplicateError(m, self.dest))),
            },
            (Phase::Replicate { overwrote, idx }, FsOutcome::Replicated(res)) => match res {
                Ok(_) => SortStep::Done(
                    Ok(
                        SortResult::Replicated {
                            replicate_path: self.dest,
                            overwrite: overwrote,
                        },
                    ),
                ),
                Err(_) => {
                    let n = self.chain.len();
                    assert(idx < n);
                    if idx + 1 < n {
                        SortStep::Pending(
                            SortRun { phase: Phase::Replicate { overwrote, idx: idx + 1 }, ..self },
                        )
                    } else {
                        SortStep::Done(
                            Err(
                                SortError::ReplicateError(
                                    NoneReplicator::replicate_error(),
                                    self.dest,
                                ),
                            ),
                        )
                    }
                },
            },
            _ => {
                proof {
                    assert(false);
                }
                SortStep::Pending(self)
            },
        }
    }
}

} // verus!
