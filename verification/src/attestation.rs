//! The creation of an attestation report, tried again until it succeeds or the tries run out.
use crate::error::{app_error, from_display, CesealServiceError, ServiceErrorView};
use crate::state::{Ceseal, InitArgs};
use crate::types::{Attestation, AttestationProvider, AttestationView, H256};
use vstd::arithmetic::power2::{lemma2_to64, lemma_pow2_strictly_increases, pow2};
use vstd::prelude::*;

verus! {

/// The version that attestations are sent with.
pub const ATTESTATION_VERSION: i32 = 1;

/// The longest pause between two tries, in seconds.
pub const MAX_BACKOFF_SECS: u64 = 8;

/// A report that is to be created: by whom, what it has to vouch for, how long one try may take,
/// and how often it is tried again.
#[derive(Clone, Copy, Debug)]
#[non_exhaustive]
pub struct ReportOrder {
    pub provider: Option<AttestationProvider>,
    pub hash: H256,
    pub timeout_ms: u64,
    pub max_retries: u32,
}

/// The report is to be created by `provider`, on `hash`, as the node was started to create reports.
pub open spec fn report_ordered(
    args: InitArgs,
    provider: Option<AttestationProvider>,
    hash: Seq<u8>,
    order: ReportOrder,
) -> bool {
    &&& order.provider == provider
    &&& order.hash@ == hash
    &&& order.timeout_ms == args.ra_timeout_ms
    &&& order.max_retries == args.ra_max_retries
}

/// What follows a try to create a report.
#[derive(Debug)]
pub enum ReportStep {
    /// The report was created.
    Created(Attestation),
    /// The creation is to be tried once more after a pause; `tried` tries have failed by now.
    Retry { tried: u32, after_secs: u64 },
    /// The creation has failed for good.
    Failed(CesealServiceError),
}

/// The pause after `tried` further failed tries: it doubles from one second up to the longest.
pub open spec fn backoff(tried: nat) -> nat {
    if pow2(tried) < MAX_BACKOFF_SECS {
        pow2(tried)
    } else {
        MAX_BACKOFF_SECS as nat
    }
}

/// What is said of a failed creation, after the debug form of the error.
pub open spec fn report_failure(debug_text: Seq<char>) -> ServiceErrorView {
    app_error("Failed to create attestation report: "@ + debug_text)
}

/// The attestation made of a created report.
pub open spec fn attestation_of(
    provider: Seq<char>,
    encoded_report: Seq<u8>,
    now: u64,
) -> AttestationView {
    AttestationView {
        version: ATTESTATION_VERSION,
        provider,
        payload: None,
        encoded_report,
        timestamp: now,
    }
}

/// What a [`ReportStep`] says.
pub enum StepView {
    Created(AttestationView),
    Retry { tried: nat, after_secs: nat },
    Failed(ServiceErrorView),
}

impl View for ReportStep {
    type V = StepView;

    open spec fn view(&self) -> StepView {
        match self {
            ReportStep::Created(a) => StepView::Created(a@),
            ReportStep::Retry { tried, after_secs } => StepView::Retry {
                tried: *tried as nat,
                after_secs: *after_secs as nat,
            },
            ReportStep::Failed(e) => StepView::Failed(e@),
        }
    }
}

/// The encoded report, or the debug form of the error.
pub open spec fn outcome_view(outcome: Result<Vec<u8>, String>) -> Result<Seq<u8>, Seq<char>> {
    match outcome {
        Ok(report) => Ok(report@),
        Err(text) => Err(text@),
    }
}

/// What follows the try with the number `tried`.
pub open spec fn report_step(
    tried: nat,
    max_retries: nat,
    provider: Seq<char>,
    outcome: Result<Seq<u8>, Seq<char>>,
    now: u64,
) -> StepView {
    match outcome {
        Ok(report) => StepView::Created(attestation_of(provider, report, now)),
        Err(text) => if tried < max_retries {
            StepView::Retry { tried: tried + 1, after_secs: backoff(tried) }
        } else {
            StepView::Failed(report_failure(text))
        },
    }
}

/// The pause in seconds after `tried` further failed tries.
pub fn backoff_secs(tried: u32) -> (r: u64)
    requires
        tried < 64,
    ensures
        r == backoff(tried as nat),
{
    proof {
        lemma2_to64();
        if tried > 3 {
            lemma_pow2_strictly_increases(3, tried as nat);
        }
    }
    if tried == 0 {
        1
    } else if tried == 1 {
        2
    } else if tried == 2 {
        4
    } else {
        MAX_BACKOFF_SECS
    }
}

/// Decides what follows one try to create a report. `outcome` is the encoded report or the debug
/// form of the error, `provider` the provider as JSON text, and `now` the time in seconds. The
/// first try has `tried` 0; a pause is asked for after fewer than 64 failed tries only.
pub fn create_attestation_report_on(
    tried: u32,
    max_retries: u32,
    provider: String,
    outcome: Result<Vec<u8>, String>,
    now: u64,
) -> (r: ReportStep)
    requires
        outcome is Err && tried < max_retries ==> tried < 64,
    ensures
        r@ == report_step(
            tried as nat,
            max_retries as nat,
            provider@,
            outcome_view(outcome),
            now,
        ),
{
    match outcome {
        Ok(encoded_report) => ReportStep::Created(
            Attestation {
                version: ATTESTATION_VERSION,
                provider,
                payload: None,
                encoded_report,
                timestamp: now,
            },
        ),
        Err(text) => {
            if tried >= max_retries {
                let message: String = "Failed to create attestation report: ".to_string().concat(
                    text.as_str(),
                );
                return ReportStep::Failed(from_display(message));
            }
            ReportStep::Retry { tried: tried + 1, after_secs: backoff_secs(tried) }
        },
    }
}

/// What follows one try of the node to create a report.
pub open spec fn report_tried<P>(
    c: Ceseal<P>,
    tried: u32,
    provider: String,
    outcome: Result<Vec<u8>, String>,
    now: u64,
    r: ReportStep,
) -> bool {
    r@ == report_step(
        tried as nat,
        c.args.ra_max_retries as nat,
        provider@,
        outcome_view(outcome),
        now,
    )
}

impl<Platform> Ceseal<Platform> {
    /// A report that this node is to create.
    pub(crate) fn order_report(&self, provider: Option<AttestationProvider>, hash: H256) -> (r:
        ReportOrder)
        ensures
            report_ordered(self.args, provider, hash@, r),
    {
        ReportOrder {
            provider,
            hash,
            timeout_ms: self.args.ra_timeout_ms,
            max_retries: self.args.ra_max_retries,
        }
    }

    /// Decides what follows one try of this node to create a report, as
    /// [`create_attestation_report_on`] does.
    pub fn try_report(
        &self,
        tried: u32,
        provider: String,
        outcome: Result<Vec<u8>, String>,
        now: u64,
    ) -> (r: ReportStep)
        requires
            outcome is Err && tried < self.args.ra_max_retries ==> tried < 64,
        ensures
            report_tried(*self, tried, provider, outcome, now, r),
    {
        create_attestation_report_on(tried, self.args.ra_max_retries, provider, outcome, now)
    }
}

/// The outcome of each try, and the time it ended at.
pub type Tries = spec_fn(nat) -> (Result<Seq<u8>, Seq<char>>, u64);

/// What follows the try with the number `tried` when the tries go as given.
pub open spec fn step_of_tries(
    tries: Tries,
    provider: Seq<char>,
    tried: nat,
    max_retries: nat,
) -> StepView {
    let (outcome, now) = tries(tried);
    report_step(tried, max_retries, provider, outcome, now)
}

/// What comes of the tries, from the one with the number `tried` on.
pub open spec fn report_after(
    tries: Tries,
    provider: Seq<char>,
    tried: nat,
    max_retries: nat,
) -> Result<AttestationView, ServiceErrorView>
    decreases max_retries - tried,
{
    match step_of_tries(tries, provider, tried, max_retries) {
        StepView::Created(a) => Ok(a),
        StepView::Failed(e) => Err(e),
        StepView::Retry { tried: next, .. } => if tried < next <= max_retries {
            report_after(tries, provider, next, max_retries)
        } else {
            arbitrary()
        },
    }
}

/// How many seconds are spent on pauses, from the try with the number `tried` on.
pub open spec fn waited_after(
    tries: Tries,
    provider: Seq<char>,
    tried: nat,
    max_retries: nat,
) -> nat
    decreases max_retries - tried,
{
    match step_of_tries(tries, provider, tried, max_retries) {
        StepView::Retry { tried: next, after_secs } => if tried < next <= max_retries {
            after_secs + waited_after(tries, provider, next, max_retries)
        } else {
            arbitrary()
        },
        _ => 0,
    }
}

/// The first try that succeeds decides the outcome, if it is among the first one and the
/// `max_retries` that may follow.
pub proof fn law_first_success_counts(
    tries: Tries,
    provider: Seq<char>,
    from: nat,
    success: nat,
    max_retries: nat,
)
    requires
        from <= success <= max_retries,
        tries(success).0 is Ok,
        forall|i: nat| from <= i < success ==> (#[trigger] tries(i)).0 is Err,
    ensures
        report_after(tries, provider, from, max_retries) == Ok::<AttestationView, ServiceErrorView>(
            attestation_of(provider, tries(success).0->Ok_0, tries(success).1),
        ),
    decreases success - from,
{
    if from < success {
        assert(tries(from).0 is Err);
        law_first_success_counts(tries, provider, from + 1, success, max_retries);
    }
}

/// If the first try and all `max_retries` that follow fail, the creation fails with the error of
/// the last of them.
pub proof fn law_gives_up_after_all_tries(
    tries: Tries,
    provider: Seq<char>,
    from: nat,
    max_retries: nat,
)
    requires
        from <= max_retries,
        forall|i: nat| from <= i <= max_retries ==> (#[trigger] tries(i)).0 is Err,
    ensures
        report_after(tries, provider, from, max_retries) == Err::<
            AttestationView,
            ServiceErrorView,
        >(report_failure(tries(max_retries).0->Err_0)),
    decreases max_retries - from,
{
    assert(tries(from).0 is Err);
    if from < max_retries {
        law_gives_up_after_all_tries(tries, provider, from + 1, max_retries);
    }
}

/// The pauses never exceed the longest pause for each try that may follow.
pub proof fn law_waiting_is_bounded(
    tries: Tries,
    provider: Seq<char>,
    from: nat,
    max_retries: nat,
)
    requires
        from <= max_retries,
    ensures
        waited_after(tries, provider, from, max_retries) <= MAX_BACKOFF_SECS * (max_retries - from),
    decreases max_retries - from,
{
    if tries(from).0 is Err && from < max_retries {
        law_waiting_is_bounded(tries, provider, from + 1, max_retries);
        assert(MAX_BACKOFF_SECS * (max_retries - from) == MAX_BACKOFF_SECS + MAX_BACKOFF_SECS * (
        max_retries - (from + 1))) by (nonlinear_arith)
            requires
                from < max_retries,
        ;
    }
}

} // verus!
