//! Carrying a kernel error through the bytecode engine's failure channel.
//!
//! The engine's channel carries opaque failures and knows nothing of kernel
//! errors. Before a kernel error crosses it, the error is put into an
//! `ErrorEnvelope`, an extract-once slot, which travels as the failure's
//! cause. The invoker that catches the failure walks its chain of causes,
//! takes the error out of the first envelope it meets, and falls back to an
//! unclassified fault that keeps the failure's description when there is no
//! envelope or the envelope is already empty.
//!
//! An envelope is its own cause: wherever the engine re-exports or wraps the
//! failure, the envelope still shows up in the chain. `EngineFailure` models
//! that chain with the envelope standing once, at the place where it was put.

use vstd::prelude::*;
use crate::error::ExecutionError;

verus! {

/// An extract-once slot holding the kernel error that crosses the engine
/// boundary. At most one extraction receives the error; every later one finds
/// the slot empty.
#[derive(Debug)]
pub struct ErrorEnvelope {
    inner: Option<ExecutionError>,
}

impl View for ErrorEnvelope {
    type V = Option<ExecutionError>;

    closed spec fn view(&self) -> Option<ExecutionError> {
        self.inner
    }
}

impl ErrorEnvelope {
    pub fn wrap(e: ExecutionError) -> (r: ErrorEnvelope)
        ensures
            r@ == Some(e),
    {
        ErrorEnvelope { inner: Some(e) }
    }

    /// Takes the error out, leaving the slot empty.
    pub fn take(&mut self) -> (r: Option<ExecutionError>)
        ensures
            r == old(self)@,
            final(self)@ is None,
    {
        let r = self.inner.take();
        r
    }

    pub fn is_empty(&self) -> (r: bool)
        ensures
            r == (self@ is None),
    {
        self.inner.is_none()
    }
}

/// What the invoker makes of an extraction: the error it took out, or an
/// unclassified fault that keeps the failure's description.
pub open spec fn recovered(extracted: Option<ExecutionError>, description: String) -> ExecutionError {
    match extracted {
        Some(e) => e,
        None => ExecutionError::SystemError(description),
    }
}

/// The invoker's decision once it has tried to take an error out of a failure:
/// the error if it got one, else an unclassified fault from the failure's own
/// description. Recovery never fails.
pub fn recover(extracted: Option<ExecutionError>, description: String) -> (r: ExecutionError)
    ensures
        r == recovered(extracted, description),
{
    match extracted {
        Some(e) => e,
        None => ExecutionError::SystemError(description),
    }
}

/// One link of a failure's chain of causes.
#[derive(Debug)]
pub enum Cause {
    /// A cause from outside the kernel, known only by its description.
    Foreign(String),
    /// An envelope that carries (or carried) a kernel error.
    Carrier(ErrorEnvelope),
}

pub enum CauseView {
    Foreign(String),
    Carrier(Option<ExecutionError>),
}

impl Cause {
    pub fn is_carrier(&self) -> (r: bool)
        ensures
            r == (self@ is Carrier),
    {
        matches!(self, Cause::Carrier(_))
    }
}

impl View for Cause {
    type V = CauseView;

    open spec fn view(&self) -> CauseView {
        match self {
            Cause::Foreign(s) => CauseView::Foreign(*s),
            Cause::Carrier(env) => CauseView::Carrier(env@),
        }
    }
}

pub struct EngineFailureView {
    pub description: String,
    pub causes: Seq<CauseView>,
}

/// A failure as the engine delivers it to the invoker: its description and
/// its chain of causes, outermost first.
#[derive(Debug)]
pub struct EngineFailure {
    description: String,
    causes: Vec<Cause>,
}

impl View for EngineFailure {
    type V = EngineFailureView;

    closed spec fn view(&self) -> EngineFailureView {
        EngineFailureView {
            description: self.description,
            causes: self.causes@.map_values(|c: Cause| c@),
        }
    }
}

impl EngineFailure {
    /// A failure that the engine raised itself, with no cause.
    pub fn foreign(description: String) -> (r: EngineFailure)
        ensures
            r@.description == description,
            r@.causes == Seq::<CauseView>::empty(),
    {
        EngineFailure { description, causes: Vec::new() }
    }

    /// The failure that the engine raises for a kernel error handed to it: the
    /// error goes into a new envelope, which is the failure's one cause.
    pub fn from_error(e: ExecutionError) -> (r: EngineFailure)
        ensures
            wraps(r@, e),
            r@.description@ == "wrapping error"@,
    {
        let mut causes: Vec<Cause> = Vec::new();
        causes.push(Cause::Carrier(ErrorEnvelope::wrap(e)));
        let r = EngineFailure { description: String::from_str("wrapping error"), causes };
        assert(r@.causes =~= seq![CauseView::Carrier(Some(e))]);
        r
    }

    /// The failure re-raised under a new description, as the engine does when
    /// it passes a failure on: the old failure becomes the first cause, and
    /// its own causes follow.
    pub fn with_context(self, description: String) -> (r: EngineFailure)
        ensures
            r@.description == description,
            r@.causes == seq![CauseView::Foreign(self@.description)] + self@.causes,
    {
        let EngineFailure { description: old_description, causes } = self;
        let mut chain: Vec<Cause> = Vec::new();
        chain.push(Cause::Foreign(old_description));
        let mut causes = causes;
        chain.append(&mut causes);
        let r = EngineFailure { description, causes: chain };
        assert(r@.causes =~= seq![CauseView::Foreign(self@.description)] + self@.causes);
        r
    }

    pub fn description(&self) -> (r: &str)
        ensures
            r@ == self@.description@,
    {
        self.description.as_str()
    }

    /// The number of links in the chain of causes.
    pub fn cause_count(&self) -> (r: usize)
        ensures
            r == self@.causes.len(),
    {
        self.causes.len()
    }
}

impl ExecutionError {
    /// Recovers the kernel error that a failure carries: the contents of the
    /// first envelope in its chain of causes, which is left empty. Where the
    /// chain holds no envelope, or the first one is already empty, the result
    /// is an unclassified fault with the failure's description.
    pub fn from_failure(f: &mut EngineFailure) -> (r: ExecutionError)
        ensures
            (r, final(f)@) == extraction(old(f)@),
    {
        let ghost causes = old(f)@.causes;
        let mut i: usize = 0;
        while i < f.causes.len() && !f.causes[i].is_carrier()
            invariant
                f@ == old(f)@,
                causes == f@.causes,
                causes.len() == f.causes@.len(),
                0 <= i <= causes.len(),
                forall|j: int| 0 <= j < i ==> causes[j] is Foreign,
            decreases f.causes.len() - i,
        {
            i = i + 1;
        }
        if i == f.causes.len() {
            assert forall|k: int| !is_first_carrier(causes, k) by {
                if 0 <= k < causes.len() {
                    assert(causes[k] is Foreign);
                }
            }
            return ExecutionError::SystemError(f.description.clone());
        }
        let removed = f.causes.remove(i);
        match removed {
            Cause::Carrier(mut env) => {
                proof {
                    assert(causes[i as int] is Carrier);
                    lemma_first_carrier_unique(causes, i as int);
                }
                let extracted = env.take();
                f.causes.insert(i, Cause::Carrier(env));
                assert(f@.causes =~= causes.update(i as int, CauseView::Carrier(None)));
                recover(extracted, f.description.clone())
            },
            Cause::Foreign(s) => {
                // Not reached: the loop stops only at an envelope or at the end.
                proof {
                    assert(causes[i as int] is Carrier);
                }
                f.causes.insert(i, Cause::Foreign(s));
                ExecutionError::SystemError(f.description.clone())
            },
        }
    }
}

impl From<ExecutionError> for EngineFailure {
    fn from(e: ExecutionError) -> (r: EngineFailure)
        ensures
            wraps(r@, e),
            r@.description@ == "wrapping error"@,
    {
        EngineFailure::from_error(e)
    }
}

impl vstd::std_specs::convert::FromSpecImpl<ExecutionError> for EngineFailure {
    open spec fn obeys_from_spec() -> bool {
        false
    }

    open spec fn from_spec(e: ExecutionError) -> EngineFailure {
        arbitrary()
    }
}

impl From<EngineFailure> for ExecutionError {
    /// Recovers the kernel error from a failure that the invoker caught and
    /// owns: one extraction, as `from_failure` makes it.
    fn from(f: EngineFailure) -> (r: ExecutionError)
        ensures
            r == extraction(f@).0,
    {
        let mut f = f;
        ExecutionError::from_failure(&mut f)
    }
}

impl vstd::std_specs::convert::FromSpecImpl<EngineFailure> for ExecutionError {
    open spec fn obeys_from_spec() -> bool {
        true
    }

    open spec fn from_spec(f: EngineFailure) -> ExecutionError {
        extraction(f@).0
    }
}

/// `i` is the place of the first envelope in the chain.
pub open spec fn is_first_carrier(causes: Seq<CauseView>, i: int) -> bool {
    &&& 0 <= i < causes.len()
    &&& causes[i] is Carrier
    &&& forall|j: int| 0 <= j < i ==> causes[j] is Foreign
}

/// The place of the first envelope in the chain, if there is one.
pub open spec fn first_carrier(causes: Seq<CauseView>) -> Option<int> {
    if exists|i: int| is_first_carrier(causes, i) {
        Some(choose|i: int| is_first_carrier(causes, i))
    } else {
        None
    }
}

/// One extraction from a failure: what the invoker recovers, and the failure
/// as it is left, with its first envelope emptied.
pub open spec fn extraction(f: EngineFailureView) -> (ExecutionError, EngineFailureView) {
    match first_carrier(f.causes) {
        Some(i) => (
            recovered(f.causes[i]->Carrier_0, f.description),
            EngineFailureView {
                description: f.description,
                causes: f.causes.update(i, CauseView::Carrier(None)),
            },
        ),
        None => (ExecutionError::SystemError(f.description), f),
    }
}

/// `f` is the failure that the engine raises for the wrapped kernel error
/// `e`: its one cause is an envelope that holds `e`.
pub open spec fn wraps(f: EngineFailureView, e: ExecutionError) -> bool {
    f.causes == seq![CauseView::Carrier(Some(e))]
}

pub proof fn lemma_first_carrier_unique(causes: Seq<CauseView>, i: int)
    requires
        is_first_carrier(causes, i),
    ensures
        first_carrier(causes) == Some(i),
{
    let k = choose|k: int| is_first_carrier(causes, k);
    assert(is_first_carrier(causes, k));
    if k < i {
        assert(causes[k] is Foreign);
    } else if i < k {
        assert(causes[i] is Foreign);
    }
}

/// A kernel error handed to the engine comes back unchanged: extracting from
/// the failure raised for it gives the same error, with the same variant,
/// code and message.
pub proof fn lemma_round_trip(f: EngineFailureView, e: ExecutionError)
    requires
        wraps(f, e),
    ensures
        extraction(f).0 == e,
{
    lemma_first_carrier_unique(f.causes, 0);
}

/// The round trip holds also when the engine passes the failure on under a
/// description of its own.
pub proof fn lemma_round_trip_with_context(f: EngineFailureView, e: ExecutionError, d: String)
    requires
        wraps(f, e),
    ensures
        extraction(
            EngineFailureView {
                description: d,
                causes: seq![CauseView::Foreign(f.description)] + f.causes,
            },
        ).0 == e,
{
    let g = EngineFailureView {
        description: d,
        causes: seq![CauseView::Foreign(f.description)] + f.causes,
    };
    assert(g.causes[1] == CauseView::Carrier(Some(e)));
    lemma_first_carrier_unique(g.causes, 1);
}

/// A carried error is extracted at most once: a second extraction from the
/// same failure gives an unclassified fault with the failure's description.
pub proof fn lemma_extract_once(f: EngineFailureView)
    ensures
        extraction(extraction(f).1).0 == ExecutionError::SystemError(f.description),
{
    match first_carrier(f.causes) {
        Some(i) => {
            assert(is_first_carrier(f.causes, i));
            let g = extraction(f).1;
            assert(is_first_carrier(g.causes, i));
            lemma_first_carrier_unique(g.causes, i);
        },
        None => {},
    }
}

/// A failure with no envelope in its chain, one that the engine raised by
/// itself, becomes an unclassified fault with its description, and is left
/// as it was.
pub proof fn lemma_foreign_failure(f: EngineFailureView)
    requires
        forall|i: int| 0 <= i < f.causes.len() ==> f.causes[i] is Foreign,
    ensures
        extraction(f) == (ExecutionError::SystemError(f.description), f),
{
    assert forall|k: int| !is_first_carrier(f.causes, k) by {
        if 0 <= k < f.causes.len() {
            assert(f.causes[k] is Foreign);
        }
    }
}

} // verus!
