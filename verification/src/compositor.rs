//! The sequence compositor: a linear processor pipeline.
//!
//! A phase runs the participating processors in registration order. Each
//! processor's outcome is fed to a [`PhaseRun`], which decides whether to
//! call the next processor or to stop: `Respond` ends the phase (and the
//! pipeline), an error ends it under `FailClosed` and is skipped under
//! `FailOpen`, and mutations accumulate in order.
use vstd::prelude::*;

use crate::phase::{HeaderMutations, ImmediateResponse, PhaseResult, ProcessingMode};
use crate::processor::{Processor, ProcessorError};

verus! {

/// How the pipeline handles processor errors.
#[derive(Debug, Clone, Copy, PartialEq, Eq, Structural)]
pub enum FailureMode {
    /// On error, stop with the error (deny by default).
    FailClosed,
    /// On error, skip the processor and continue (allow by default).
    FailOpen,
}

impl Default for FailureMode {
    /// Fail closed.
    fn default() -> (r: Self)
        ensures
            r == FailureMode::FailClosed,
    {
        FailureMode::FailClosed
    }
}

/// Outcome of running a phase through the pipeline.
#[derive(Debug)]
pub enum SequenceOutcome {
    /// Every participating processor continued; the accumulated mutations.
    Continue(Vec<HeaderMutations>),
    /// A processor responded immediately; the pipeline terminated.
    Respond(ImmediateResponse),
    /// A processor failed under `FailClosed`.
    Error(ProcessorError),
}

impl SequenceOutcome {
    /// Returns `true` if the pipeline should stop all subsequent phases.
    pub fn is_terminal(&self) -> (r: bool)
        ensures
            r == (self is Respond || self is Error),
    {
        match self {
            SequenceOutcome::Continue(_) => false,
            _ => true,
        }
    }
}

/// The abstract content of a [`SequenceOutcome`].
pub enum OutcomeView {
    Continue(Seq<HeaderMutations>),
    Respond(ImmediateResponse),
    Error(ProcessorError),
}

impl View for SequenceOutcome {
    type V = OutcomeView;

    open spec fn view(&self) -> OutcomeView {
        match self {
            SequenceOutcome::Continue(v) => OutcomeView::Continue(v@),
            SequenceOutcome::Respond(r) => OutcomeView::Respond(*r),
            SequenceOutcome::Error(e) => OutcomeView::Error(*e),
        }
    }
}

/// The outcome of a phase whose remaining participants answer `results`, in
/// order, with `muts` accumulated so far: the first `Respond` ends it with
/// that response; an error ends it under `FailClosed` and is skipped under
/// `FailOpen`; mutations accumulate; when every result is in, it continues
/// with the mutations.
pub open spec fn run_outcome(
    fm: FailureMode,
    muts: Seq<HeaderMutations>,
    results: Seq<Result<PhaseResult, ProcessorError>>,
) -> OutcomeView
    decreases results.len(),
{
    if results.len() == 0 {
        OutcomeView::Continue(muts)
    } else {
        match results[0] {
            Ok(PhaseResult::Respond(resp)) => OutcomeView::Respond(resp),
            Ok(PhaseResult::Mutate(m)) => run_outcome(fm, muts.push(m), results.drop_first()),
            Ok(PhaseResult::Continue) => run_outcome(fm, muts, results.drop_first()),
            Err(e) => match fm {
                FailureMode::FailClosed => OutcomeView::Error(e),
                FailureMode::FailOpen => run_outcome(fm, muts, results.drop_first()),
            },
        }
    }
}

/// A result with an error taken as `Continue`.
pub open spec fn error_as_continue(r: Result<PhaseResult, ProcessorError>) -> Result<PhaseResult, ProcessorError> {
    match r {
        Ok(p) => Ok(p),
        Err(_) => Ok(PhaseResult::Continue),
    }
}

/// Fail-open: a phase never ends in an error, and it ends exactly as it
/// would had every failing processor answered `Continue` (the processors
/// after it still run).
pub proof fn law_fail_open_skips_errors(muts: Seq<HeaderMutations>, results: Seq<Result<PhaseResult, ProcessorError>>)
    ensures
        !(run_outcome(FailureMode::FailOpen, muts, results) is Error),
        run_outcome(FailureMode::FailOpen, muts, results) == run_outcome(
            FailureMode::FailOpen,
            muts,
            results.map_values(|r: Result<PhaseResult, ProcessorError>| error_as_continue(r)),
        ),
    decreases results.len(),
{
    let mapped = results.map_values(|r: Result<PhaseResult, ProcessorError>| error_as_continue(r));
    if results.len() > 0 {
        let rest_mapped = results.drop_first().map_values(|r: Result<PhaseResult, ProcessorError>| error_as_continue(r));
        assert(mapped.drop_first() =~= rest_mapped);
        assert(mapped[0] == error_as_continue(results[0]));
        law_fail_open_skips_errors(muts, results.drop_first());
        match results[0] {
            Ok(PhaseResult::Mutate(m)) => {
                law_fail_open_skips_errors(muts.push(m), results.drop_first());
            },
            _ => {},
        }
    }
}

/// The four phases of the HTTP lifecycle.
#[derive(Debug, Clone, Copy, PartialEq, Eq, Structural)]
pub enum Phase {
    RequestHeaders,
    RequestBody,
    ResponseHeaders,
    ResponseBody,
}

/// Whether a processor with `mode` takes part in `phase`: every processor
/// takes part in header phases, body phases only when opted into.
pub open spec fn participates(phase: Phase, mode: ProcessingMode) -> bool {
    match phase {
        Phase::RequestHeaders => true,
        Phase::ResponseHeaders => true,
        Phase::RequestBody => mode.request_body,
        Phase::ResponseBody => mode.response_body,
    }
}

/// The union of a list of modes, starting from headers-only.
pub open spec fn union_all(modes: Seq<ProcessingMode>) -> ProcessingMode
    decreases modes.len(),
{
    if modes.len() == 0 {
        ProcessingMode::spec_HEADERS_ONLY()
    } else {
        let acc = union_all(modes.drop_last());
        ProcessingMode {
            request_body: acc.request_body || modes.last().request_body,
            response_body: acc.response_body || modes.last().response_body,
        }
    }
}

/// The indices of the processors (by their modes) taking part in a phase,
/// in registration order.
pub open spec fn participant_indices(modes: Seq<ProcessingMode>, phase: Phase) -> Seq<usize>
    decreases modes.len(),
{
    if modes.len() == 0 {
        Seq::empty()
    } else {
        let rest = participant_indices(modes.drop_last(), phase);
        if participates(phase, modes.last()) {
            rest.push((modes.len() - 1) as usize)
        } else {
            rest
        }
    }
}

/// A phase no processor takes part in has no participants: it starts and
/// ends at once, continuing with no mutations.
pub proof fn law_no_opt_in_no_participants(modes: Seq<ProcessingMode>, phase: Phase)
    requires
        forall|i: int| 0 <= i < modes.len() ==> !participates(phase, #[trigger] modes[i]),
    ensures
        participant_indices(modes, phase).len() == 0,
    decreases modes.len(),
{
    if modes.len() > 0 {
        assert(!participates(phase, modes[modes.len() - 1]));
        assert forall|i: int| 0 <= i < modes.drop_last().len() implies !participates(phase, #[trigger] modes.drop_last()[i]) by {
            assert(modes.drop_last()[i] == modes[i]);
        }
        law_no_opt_in_no_participants(modes.drop_last(), phase);
    }
}

/// The aggregate mode opts into a body phase exactly when some processor does.
pub proof fn law_aggregate_mode_is_union(modes: Seq<ProcessingMode>, phase: Phase)
    ensures
        participates(phase, union_all(modes)) == (phase is RequestHeaders || phase is ResponseHeaders || exists|i: int|
            0 <= i < modes.len() && participates(phase, #[trigger] modes[i])),
    decreases modes.len(),
{
    if modes.len() > 0 {
        law_aggregate_mode_is_union(modes.drop_last(), phase);
        if exists|i: int| 0 <= i < modes.drop_last().len() && participates(phase, #[trigger] modes.drop_last()[i]) {
            let i = choose|i: int| 0 <= i < modes.drop_last().len() && participates(phase, #[trigger] modes.drop_last()[i]);
            assert(modes[i] == modes.drop_last()[i]);
        }
        if exists|i: int| 0 <= i < modes.len() && participates(phase, #[trigger] modes[i]) {
            let i = choose|i: int| 0 <= i < modes.len() && participates(phase, #[trigger] modes[i]);
            if i < modes.len() - 1 {
                assert(modes[i] == modes.drop_last()[i]);
            }
        }
    }
}

/// The participants of a phase are exactly the processors that take part in
/// it, each once, in registration order.
pub proof fn law_participants_in_order(modes: Seq<ProcessingMode>, phase: Phase)
    requires
        modes.len() <= usize::MAX,
    ensures
        forall|k: int| 0 <= k < participant_indices(modes, phase).len() ==> (#[trigger] participant_indices(modes, phase)[k]) < modes.len()
            && participates(phase, modes[participant_indices(modes, phase)[k] as int]),
        forall|k1: int, k2: int| 0 <= k1 < k2 < participant_indices(modes, phase).len() ==>
            #[trigger] participant_indices(modes, phase)[k1] < #[trigger] participant_indices(modes, phase)[k2],
        forall|i: int| 0 <= i < modes.len() && participates(phase, #[trigger] modes[i]) ==> participant_indices(modes, phase).contains(i as usize),
    decreases modes.len(),
{
    if modes.len() > 0 {
        let d = modes.drop_last();
        law_participants_in_order(d, phase);
        let rest = participant_indices(d, phase);
        let all = participant_indices(modes, phase);
        let last = (modes.len() - 1) as usize;
        assert forall|k: int| 0 <= k < rest.len() implies (#[trigger] rest[k]) < last by {
            assert(rest[k] < d.len());
        }
        assert forall|k: int| 0 <= k < all.len() implies (#[trigger] all[k]) < modes.len() && participates(phase, modes[all[k] as int]) by {
            if k < rest.len() {
                assert(all[k] == rest[k]);
                assert(modes[rest[k] as int] == d[rest[k] as int]);
            } else {
                assert(all[k] == last);
            }
        }
        assert forall|k1: int, k2: int| 0 <= k1 < k2 < all.len() implies #[trigger] all[k1] < #[trigger] all[k2] by {
            assert(all[k1] == rest[k1]);
            if k2 < rest.len() {
                assert(all[k2] == rest[k2]);
            } else {
                assert(all[k2] == last);
            }
        }
        assert forall|i: int| 0 <= i < modes.len() && participates(phase, #[trigger] modes[i]) implies all.contains(i as usize) by {
            if i < modes.len() - 1 {
                assert(modes[i] == d[i]);
                assert(rest.contains(i as usize));
                let k = choose|k: int| 0 <= k < rest.len() && rest[k] == i as usize;
                assert(all[k] == rest[k]);
            } else {
                assert(all[all.len() - 1] == last);
            }
        }
    }
}

/// Linear processor pipeline.
pub struct Sequence<P> {
    processors: Vec<P>,
    modes: Vec<ProcessingMode>,
    aggregate_mode: ProcessingMode,
    failure_mode: FailureMode,
}

impl<P> Sequence<P> {
    #[verifier::type_invariant]
    closed spec fn wf(self) -> bool {
        &&& self.processors@.len() == self.modes@.len()
        &&& self.aggregate_mode == union_all(self.modes@)
    }

    /// The processors, in registration order.
    pub closed spec fn processors(self) -> Seq<P> {
        self.processors@
    }

    /// The processing modes of the processors, in registration order.
    pub closed spec fn modes(self) -> Seq<ProcessingMode> {
        self.modes@
    }

    /// The pipeline's failure mode.
    pub closed spec fn spec_failure_mode(self) -> FailureMode {
        self.failure_mode
    }

    /// The processors taking part in a phase: none for a body phase the
    /// aggregate mode skips, else those whose mode takes part, in order.
    pub open spec fn participants(self, phase: Phase) -> Seq<usize> {
        if participates(phase, union_all(self.modes())) {
            participant_indices(self.modes(), phase)
        } else {
            Seq::empty()
        }
    }

    /// Create a new builder.
    pub fn builder() -> (r: SequenceBuilder<P>)
        ensures
            r.processors().len() == 0,
            r.modes().len() == 0,
            r.spec_failure_mode() == FailureMode::FailClosed,
    {
        SequenceBuilder::new()
    }

    /// The aggregate processing mode (union of all processor modes).
    pub fn mode(&self) -> (r: ProcessingMode)
        ensures
            r == union_all(self.modes()),
    {
        proof {
            use_type_invariant(self);
        }
        self.aggregate_mode
    }

    /// The pipeline's failure mode.
    pub fn failure_mode(&self) -> (r: FailureMode)
        ensures
            r == self.spec_failure_mode(),
    {
        self.failure_mode
    }

    /// Number of processors in the pipeline.
    pub fn len(&self) -> (r: usize)
        ensures
            r == self.processors().len(),
            r == self.modes().len(),
    {
        proof {
            use_type_invariant(self);
        }
        self.processors.len()
    }

    /// Returns `true` if the pipeline has no processors.
    pub fn is_empty(&self) -> (r: bool)
        ensures
            r == (self.processors().len() == 0),
    {
        self.processors.len() == 0
    }

    /// The processor at position `i`.
    pub fn processor(&self, i: usize) -> (r: &P)
        requires
            i < self.processors().len(),
        ensures
            *r == self.processors()[i as int],
    {
        &self.processors[i]
    }

    /// Begin a phase: stops at once with no mutations when no processor takes
    /// part, and otherwise asks for the first participant's result.
    pub fn start(&self, phase: Phase) -> (r: PhaseStep)
        ensures
            self.participants(phase).len() == 0 ==> (r matches PhaseStep::Done(SequenceOutcome::Continue(v)) && v@.len() == 0),
            self.participants(phase).len() > 0 ==> (r matches PhaseStep::Next(run) && run.participants() == self.participants(phase)
                && run.pos() == 0 && run.mutations().len() == 0 && run.spec_failure_mode() == self.spec_failure_mode()),
    {
        proof {
            use_type_invariant(self);
        }
        let active = match phase {
            Phase::RequestHeaders => true,
            Phase::ResponseHeaders => true,
            Phase::RequestBody => self.aggregate_mode.request_body,
            Phase::ResponseBody => self.aggregate_mode.response_body,
        };
        if !active {
            return PhaseStep::Done(SequenceOutcome::Continue(Vec::new()));
        }
        let mut participants: Vec<usize> = Vec::new();
        let mut i: usize = 0;
        while i < self.modes.len()
            invariant
                0 <= i <= self.modes@.len(),
                participants@ == participant_indices(self.modes@.take(i as int), phase),
            decreases self.modes@.len() - i,
        {
            let m = self.modes[i];
            let takes_part = match phase {
                Phase::RequestHeaders => true,
                Phase::ResponseHeaders => true,
                Phase::RequestBody => m.request_body,
                Phase::ResponseBody => m.response_body,
            };
            assert(self.modes@.take(i + 1).drop_last() =~= self.modes@.take(i as int));
            if takes_part {
                participants.push(i);
            }
            i = i + 1;
        }
        assert(self.modes@.take(self.modes@.len() as int) =~= self.modes@);
        if participants.len() == 0 {
            return PhaseStep::Done(SequenceOutcome::Continue(Vec::new()));
        }
        PhaseStep::Next(PhaseRun { participants, pos: 0, mutations: Vec::new(), failure_mode: self.failure_mode })
    }
}

/// Builder for [`Sequence`] pipelines.
pub struct SequenceBuilder<P> {
    processors: Vec<P>,
    modes: Vec<ProcessingMode>,
    failure_mode: FailureMode,
}

impl<P> SequenceBuilder<P> {
    #[verifier::type_invariant]
    closed spec fn wf(self) -> bool {
        self.processors@.len() == self.modes@.len()
    }

    /// The processors added so far.
    pub closed spec fn processors(self) -> Seq<P> {
        self.processors@
    }

    /// The modes the processors declared when added.
    pub closed spec fn modes(self) -> Seq<ProcessingMode> {
        self.modes@
    }

    /// The failure mode the pipeline will have.
    pub closed spec fn spec_failure_mode(self) -> FailureMode {
        self.failure_mode
    }

    /// An empty builder, failing closed.
    pub fn new() -> (r: Self)
        ensures
            r.processors().len() == 0,
            r.modes().len() == 0,
            r.spec_failure_mode() == FailureMode::FailClosed,
    {
        SequenceBuilder { processors: Vec::new(), modes: Vec::new(), failure_mode: FailureMode::FailClosed }
    }

    /// Add a processor; processors run in the order they are added. Its
    /// declared mode is read once, here, and recorded.
    pub fn processor(self, proc: P) -> (r: Self)
        where P: Processor
        ensures
            r.processors() == self.processors().push(proc),
            r.modes() == self.modes().push(proc.spec_mode()),
            r.spec_failure_mode() == self.spec_failure_mode(),
    {
        proof {
            use_type_invariant(&self);
        }
        let m = proc.mode();
        let SequenceBuilder { mut processors, mut modes, failure_mode } = self;
        processors.push(proc);
        modes.push(m);
        SequenceBuilder { processors, modes, failure_mode }
    }

    /// Set the failure mode for the pipeline.
    pub fn failure_mode(self, mode: FailureMode) -> (r: Self)
        ensures
            r.processors() == self.processors(),
            r.modes() == self.modes(),
            r.spec_failure_mode() == mode,
    {
        proof {
            use_type_invariant(&self);
        }
        let SequenceBuilder { processors, modes, failure_mode: _ } = self;
        SequenceBuilder { processors, modes, failure_mode: mode }
    }

    /// Build the pipeline; its aggregate mode is the union of the processor
    /// modes.
    pub fn build(self) -> (r: Sequence<P>)
        ensures
            r.processors() == self.processors(),
            r.modes() == self.modes(),
            r.spec_failure_mode() == self.spec_failure_mode(),
    {
        proof {
            use_type_invariant(&self);
        }
        let mut acc = ProcessingMode::default();
        let mut i: usize = 0;
        while i < self.modes.len()
            invariant
                0 <= i <= self.modes@.len(),
                acc == union_all(self.modes@.take(i as int)),
            decreases self.modes@.len() - i,
        {
            assert(self.modes@.take(i + 1).drop_last() =~= self.modes@.take(i as int));
            acc = acc.union(self.modes[i]);
            i = i + 1;
        }
        assert(self.modes@.take(self.modes@.len() as int) =~= self.modes@);
        let SequenceBuilder { processors, modes, failure_mode } = self;
        Sequence { processors, modes, aggregate_mode: acc, failure_mode }
    }
}

impl<P> Default for SequenceBuilder<P> {
    /// An empty builder, failing closed.
    fn default() -> (r: Self)
        ensures
            r.processors().len() == 0,
            r.modes().len() == 0,
            r.spec_failure_mode() == FailureMode::FailClosed,
    {
        SequenceBuilder::new()
    }
}

/// Where a phase stands after a processor's result.
pub enum PhaseStep {
    /// Call the processor `run.current()` next and feed its result.
    Next(PhaseRun),
    /// The phase is over.
    Done(SequenceOutcome),
}

/// A phase in progress: the participants, which one is due, and the
/// mutations accumulated so far.
pub struct PhaseRun {
    participants: Vec<usize>,
    pos: usize,
    mutations: Vec<HeaderMutations>,
    failure_mode: FailureMode,
}

impl PhaseRun {
    #[verifier::type_invariant]
    closed spec fn wf(self) -> bool {
        self.pos < self.participants@.len()
    }

    /// The processors taking part, in order.
    pub closed spec fn participants(self) -> Seq<usize> {
        self.participants@
    }

    /// How many participants have been handled.
    pub closed spec fn pos(self) -> nat {
        self.pos as nat
    }

    /// The mutations accumulated so far, in order.
    pub closed spec fn mutations(self) -> Seq<HeaderMutations> {
        self.mutations@
    }

    /// The failure mode of the run.
    pub closed spec fn spec_failure_mode(self) -> FailureMode {
        self.failure_mode
    }

    /// The processor whose result is due.
    pub fn current(&self) -> (r: usize)
        ensures
            self.pos() < self.participants().len(),
            r == self.participants()[self.pos() as int],
    {
        proof {
            use_type_invariant(self);
        }
        self.participants[self.pos]
    }

    /// Feed the current processor's result.
    ///
    /// `Respond` ends the phase with that response. An error ends it with the
    /// error under `FailClosed` and is skipped under `FailOpen`. `Mutate`
    /// appends its mutations. After the last participant the phase ends with
    /// `Continue` and the accumulated mutations.
    pub fn step(self, result: Result<PhaseResult, ProcessorError>) -> (r: PhaseStep)
        ensures
            self.pos() < self.participants().len(),
            result matches Ok(PhaseResult::Respond(resp)) ==> r == PhaseStep::Done(SequenceOutcome::Respond(resp)),
            (result is Err && self.spec_failure_mode() == FailureMode::FailClosed) ==> r == PhaseStep::Done(
                SequenceOutcome::Error(result->Err_0),
            ),
            (result is Ok && !(result->Ok_0 is Respond)) || (result is Err && self.spec_failure_mode()
                == FailureMode::FailOpen) ==> {
                let muts = match result {
                    Ok(PhaseResult::Mutate(m)) => self.mutations().push(m),
                    _ => self.mutations(),
                };
                if self.pos() + 1 < self.participants().len() {
                    (r matches PhaseStep::Next(run) && run.participants() == self.participants() && run.pos() == self.pos()
                        + 1 && run.mutations() == muts && run.spec_failure_mode() == self.spec_failure_mode())
                } else {
                    (r matches PhaseStep::Done(SequenceOutcome::Continue(v)) && v@ == muts)
                }
            },
            forall|rest: Seq<Result<PhaseResult, ProcessorError>>|
                self.pos() + 1 + rest.len() == self.participants().len() ==> #[trigger] run_outcome(
                    self.spec_failure_mode(),
                    self.mutations(),
                    seq![result].add(rest),
                ) == match r {
                    PhaseStep::Done(o) => o@,
                    PhaseStep::Next(n) => run_outcome(n.spec_failure_mode(), n.mutations(), rest),
                },
    {
        proof {
            use_type_invariant(&self);
            assert forall|rest: Seq<Result<PhaseResult, ProcessorError>>| #[trigger] seq![result].add(rest).drop_first()
                == rest && seq![result].add(rest)[0] == result by {
                assert(seq![result].add(rest).drop_first() =~= rest);
            }
        }
        let ghost m0 = self.mutations@;
        let ghost res = result;
        let PhaseRun { participants, pos, mut mutations, failure_mode } = self;
        match result {
            Ok(PhaseResult::Continue) => {},
            Ok(PhaseResult::Mutate(m)) => {
                mutations.push(m);
            },
            Ok(PhaseResult::Respond(resp)) => {
                return PhaseStep::Done(SequenceOutcome::Respond(resp));
            },
            Err(e) => match failure_mode {
                FailureMode::FailClosed => {
                    return PhaseStep::Done(SequenceOutcome::Error(e));
                },
                FailureMode::FailOpen => {},
            },
        }
        let n = participants.len();
        assert(pos < n);
        proof {
            assert forall|rest: Seq<Result<PhaseResult, ProcessorError>>|
                #![trigger seq![res].add(rest)]
                true implies run_outcome(failure_mode, m0, seq![res].add(rest)) == run_outcome(
                failure_mode,
                mutations@,
                rest,
            ) by {
                let s1 = seq![res].add(rest);
                assert(s1[0] == res);
                assert(s1.drop_first() =~= rest);
            }
            assert(run_outcome(failure_mode, mutations@, Seq::empty()) == OutcomeView::Continue(mutations@));
        }
        if pos + 1 < n {
            PhaseStep::Next(PhaseRun { participants, pos: pos + 1, mutations, failure_mode })
        } else {
            PhaseStep::Done(SequenceOutcome::Continue(mutations))
        }
    }
}

/// Which phases a processor takes part in: both header phases always, the
/// request body phase exactly when its mode opts into the request body, and
/// the response body phase exactly when it opts into the response body.
pub proof fn law_phase_participation(m: ProcessingMode)
    ensures
        participates(Phase::RequestHeaders, m),
        participates(Phase::ResponseHeaders, m),
        participates(Phase::RequestBody, m) == m.request_body,
        participates(Phase::ResponseBody, m) == m.response_body,
{
}

/// A body phase of a pipeline involves processor `i` exactly when the mode
/// recorded for it opts into that body; a header phase involves every
/// processor.
pub proof fn law_phase_runs_opted_in<P>(seq: Sequence<P>, i: int)
    requires
        0 <= i < seq.modes().len(),
        seq.modes().len() <= usize::MAX,
    ensures
        seq.participants(Phase::RequestBody).contains(i as usize) == seq.modes()[i].request_body,
        seq.participants(Phase::ResponseBody).contains(i as usize) == seq.modes()[i].response_body,
        seq.participants(Phase::RequestHeaders).contains(i as usize),
        seq.participants(Phase::ResponseHeaders).contains(i as usize),
{
    let modes = seq.modes();
    lemma_index_taken_part(modes, Phase::RequestBody, i);
    lemma_index_taken_part(modes, Phase::ResponseBody, i);
    lemma_index_taken_part(modes, Phase::RequestHeaders, i);
    lemma_index_taken_part(modes, Phase::ResponseHeaders, i);
}

/// Index `i` is among a phase's participants exactly when its mode takes
/// part in the phase.
proof fn lemma_index_taken_part(modes: Seq<ProcessingMode>, phase: Phase, i: int)
    requires
        0 <= i < modes.len(),
        modes.len() <= usize::MAX,
    ensures
        (if participates(phase, union_all(modes)) {
            participant_indices(modes, phase)
        } else {
            Seq::<usize>::empty()
        }).contains(i as usize) == participates(phase, modes[i]),
{
    law_participants_in_order(modes, phase);
    law_aggregate_mode_is_union(modes, phase);
    let ps = participant_indices(modes, phase);
    if participates(phase, modes[i]) {
        assert(participates(phase, union_all(modes)));
        assert(ps.contains(i as usize));
    }
    if participates(phase, union_all(modes)) && ps.contains(i as usize) {
        let k = choose|k: int| 0 <= k < ps.len() && ps[k] == i as usize;
        assert(participates(phase, modes[ps[k] as int]));
    }
}

/// A phase in which every remaining processor asks for mutations continues
/// with those mutations appended, in processor order.
pub proof fn law_mutations_accumulate_in_order(fm: FailureMode, muts: Seq<HeaderMutations>, ms: Seq<HeaderMutations>)
    ensures
        run_outcome(fm, muts, ms.map_values(|m: HeaderMutations| Ok::<PhaseResult, ProcessorError>(PhaseResult::Mutate(m))))
            == OutcomeView::Continue(muts + ms),
    decreases ms.len(),
{
    let rs = ms.map_values(|m: HeaderMutations| Ok::<PhaseResult, ProcessorError>(PhaseResult::Mutate(m)));
    if ms.len() == 0 {
        assert(muts + ms =~= muts);
    } else {
        assert(rs.drop_first() =~= ms.drop_first().map_values(
            |m: HeaderMutations| Ok::<PhaseResult, ProcessorError>(PhaseResult::Mutate(m)),
        ));
        law_mutations_accumulate_in_order(fm, muts.push(ms[0]), ms.drop_first());
        assert(muts.push(ms[0]) + ms.drop_first() =~= muts + ms);
    }
}

/// The first immediate response ends a phase with that response: the
/// processors after it are not asked, whatever they would answer.
pub proof fn law_first_response_ends_phase(
    fm: FailureMode,
    muts: Seq<HeaderMutations>,
    before: Seq<HeaderMutations>,
    resp: ImmediateResponse,
    after: Seq<Result<PhaseResult, ProcessorError>>,
)
    ensures
        run_outcome(
            fm,
            muts,
            before.map_values(|m: HeaderMutations| Ok::<PhaseResult, ProcessorError>(PhaseResult::Mutate(m))).push(
                Ok(PhaseResult::Respond(resp)),
            ) + after,
        ) == OutcomeView::Respond(resp),
    decreases before.len(),
{
    let rs = before.map_values(|m: HeaderMutations| Ok::<PhaseResult, ProcessorError>(PhaseResult::Mutate(m))).push(
        Ok(PhaseResult::Respond(resp)),
    ) + after;
    if before.len() == 0 {
        assert(rs[0] == Ok::<PhaseResult, ProcessorError>(PhaseResult::Respond(resp)));
    } else {
        let rest = before.drop_first().map_values(|m: HeaderMutations| Ok::<PhaseResult, ProcessorError>(PhaseResult::Mutate(m))).push(
            Ok(PhaseResult::Respond(resp)),
        ) + after;
        assert(rs.drop_first() =~= rest);
        assert(rs[0] == Ok::<PhaseResult, ProcessorError>(PhaseResult::Mutate(before[0])));
        law_first_response_ends_phase(fm, muts.push(before[0]), before.drop_first(), resp, after);
    }
}

/// Fail-closed: the first failing processor ends the phase with its error.
pub proof fn law_fail_closed_stops_at_error(
    muts: Seq<HeaderMutations>,
    before: Seq<HeaderMutations>,
    e: ProcessorError,
    after: Seq<Result<PhaseResult, ProcessorError>>,
)
    ensures
        run_outcome(
            FailureMode::FailClosed,
            muts,
            before.map_values(|m: HeaderMutations| Ok::<PhaseResult, ProcessorError>(PhaseResult::Mutate(m))).push(Err(e))
                + after,
        ) == OutcomeView::Error(e),
    decreases before.len(),
{
    let rs = before.map_values(|m: HeaderMutations| Ok::<PhaseResult, ProcessorError>(PhaseResult::Mutate(m))).push(
        Err(e),
    ) + after;
    if before.len() == 0 {
        assert(rs[0] == Err::<PhaseResult, ProcessorError>(e));
    } else {
        let rest = before.drop_first().map_values(|m: HeaderMutations| Ok::<PhaseResult, ProcessorError>(PhaseResult::Mutate(m))).push(
            Err(e),
        ) + after;
        assert(rs.drop_first() =~= rest);
        assert(rs[0] == Ok::<PhaseResult, ProcessorError>(PhaseResult::Mutate(before[0])));
        law_fail_closed_stops_at_error(muts.push(before[0]), before.drop_first(), e, after);
    }
}

} // verus!
