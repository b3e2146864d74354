//! The health aggregator: classification of one probe, and the ordered
//! check of a whole registry against one probe outcome per entry.
//!
//! The aggregator itself does no I/O: the caller performs one HTTP GET per
//! service and hands the outcome over as a [`ProbeOutcome`]. Every service
//! that passes the filter yields a result; a failed probe never aborts the
//! checks of the others.

use vstd::prelude::*;
use crate::registry::{ServiceDescriptor, ServiceView, passes_filter, filter_view};
use crate::text::{dec_spec, u64_to_dec, str_contains_ci};

verus! {

/// What a single HTTP probe of one endpoint came back with: a status code
/// when a response arrived, or a transport failure (DNS failure, connection
/// refused, timeout) when none did.
#[derive(Clone, Copy, PartialEq, Eq, Structural, Debug)]
pub enum ProbeOutcome {
    Status(u16),
    TransportFailure,
}

/// The classification of one checked service.
pub enum Outcome {
    Online { detail: String },
    Offline { reason: String },
}

/// Mathematical image of an [`Outcome`].
pub ghost enum OutcomeView {
    Online { detail: Seq<char> },
    Offline { reason: Seq<char> },
}

impl View for Outcome {
    type V = OutcomeView;

    open spec fn view(&self) -> OutcomeView {
        match self {
            Outcome::Online { detail } => OutcomeView::Online { detail: detail@ },
            Outcome::Offline { reason } => OutcomeView::Offline { reason: reason@ },
        }
    }
}

impl Outcome {
    /// Whether this outcome counts as online.
    pub fn is_online(&self) -> (r: bool)
        ensures
            r == (self@ is Online),
    {
        match self {
            Outcome::Online { .. } => true,
            Outcome::Offline { .. } => false,
        }
    }
}

/// One checked service together with its classification.
pub struct HealthResult {
    pub service: ServiceDescriptor,
    pub outcome: Outcome,
}

/// Mathematical image of a [`HealthResult`].
pub ghost struct HealthResultView {
    pub service: ServiceView,
    pub outcome: OutcomeView,
}

impl View for HealthResult {
    type V = HealthResultView;

    open spec fn view(&self) -> HealthResultView {
        HealthResultView { service: self.service@, outcome: self.outcome@ }
    }
}

/// How one probe outcome is classified: a 2xx status is online with detail
/// `healthy`; any other status is offline with reason `unhealthy: <code>`;
/// a transport failure is offline with reason `connection refused`.
pub open spec fn classify_spec(p: ProbeOutcome) -> OutcomeView {
    match p {
        ProbeOutcome::Status(s) => if 200 <= s && s <= 299 {
            OutcomeView::Online { detail: "healthy"@ }
        } else {
            OutcomeView::Offline { reason: "unhealthy: "@ + dec_spec(s as nat) }
        },
        ProbeOutcome::TransportFailure => OutcomeView::Offline {
            reason: "connection refused"@,
        },
    }
}

/// Classifies one probe outcome, exactly as [`classify_spec`] says.
pub fn classify(p: ProbeOutcome) -> (r: Outcome)
    ensures
        r@ == classify_spec(p),
{
    match p {
        ProbeOutcome::Status(s) => {
            if 200 <= s && s <= 299 {
                Outcome::Online { detail: "healthy".to_owned() }
            } else {
                let mut reason = "unhealthy: ".to_owned();
                let code = u64_to_dec(s as u64);
                reason.append(code.as_str());
                Outcome::Offline { reason }
            }
        },
        ProbeOutcome::TransportFailure => Outcome::Offline {
            reason: "connection refused".to_owned(),
        },
    }
}

/// How long one probe may run: the whole request, and the connection
/// attempt within it. Both must be positive for the configuration to be
/// well formed.
pub struct ProbeConfig {
    pub total_timeout_secs: u64,
    pub connect_timeout_secs: u64,
}

impl ProbeConfig {
    /// A probe configuration is well formed when both timeouts are positive.
    pub open spec fn wf(&self) -> bool {
        self.total_timeout_secs > 0 && self.connect_timeout_secs > 0
    }
}

/// The default probe configuration: a five-second request timeout around a
/// three-second connection timeout.
pub fn default_probe_config() -> (c: ProbeConfig)
    ensures
        c.wf(),
        c.total_timeout_secs == 5,
        c.connect_timeout_secs == 3,
{
    ProbeConfig { total_timeout_secs: 5, connect_timeout_secs: 3 }
}

/// Law: a probe that answered is classified online exactly when its status
/// lies in the success range.
pub proof fn lemma_success_iff_online(s: u16)
    ensures
        classify_spec(ProbeOutcome::Status(s)) is Online <==> 200 <= s <= 299,
{
}

/// Law: a probe that never answered is classified offline, with the generic
/// transport-failure reason.
pub proof fn lemma_transport_failure_offline()
    ensures
        classify_spec(ProbeOutcome::TransportFailure) == (OutcomeView::Offline {
            reason: "connection refused"@,
        }),
{
}

/// The results of checking `reg` under `filter` when entry `i` probes as
/// `probes[i]`: one result per passing entry, in registry order.
pub open spec fn check_all_spec(
    reg: Seq<ServiceView>,
    filter: Option<Seq<char>>,
    probes: Seq<ProbeOutcome>,
) -> Seq<HealthResultView>
    decreases reg.len(),
{
    if reg.len() == 0 {
        Seq::empty()
    } else {
        let rest = check_all_spec(reg.drop_last(), filter, probes.drop_last());
        if passes_filter(reg.last().name, filter) {
            rest.push(
                HealthResultView { service: reg.last(), outcome: classify_spec(probes.last()) },
            )
        } else {
            rest
        }
    }
}

/// Checks every registry entry that passes the filter, classifying entry `i`
/// from `probes[i]`, and returns the results in registry order.
pub fn check_all(
    registry: &Vec<ServiceDescriptor>,
    filter: &Option<String>,
    probes: &Vec<ProbeOutcome>,
) -> (results: Vec<HealthResult>)
    requires
        probes@.len() == registry@.len(),
    ensures
        results@.map_values(|r: HealthResult| r@) == check_all_spec(
            registry@.map_values(|s: ServiceDescriptor| s@),
            filter_view(*filter),
            probes@,
        ),
{
    let ghost regv = registry@.map_values(|s: ServiceDescriptor| s@);
    let ghost fv = filter_view(*filter);
    let mut results: Vec<HealthResult> = Vec::new();
    let mut i: usize = 0;
    while i < registry.len()
        invariant
            probes@.len() == registry@.len(),
            i <= registry@.len(),
            regv == registry@.map_values(|s: ServiceDescriptor| s@),
            fv == filter_view(*filter),
            results@.map_values(|r: HealthResult| r@) == check_all_spec(
                regv.take(i as int),
                fv,
                probes@.take(i as int),
            ),
        decreases registry@.len() - i,
    {
        let svc = &registry[i];
        let keep = match filter {
            Option::None => true,
            Option::Some(f) => str_contains_ci(svc.name.as_str(), f.as_str()),
        };
        proof {
            assert(regv[i as int] == registry@[i as int]@);
            assert(keep == passes_filter(regv[i as int].name, fv));
            assert(regv.take(i + 1).drop_last() =~= regv.take(i as int));
            assert(probes@.take(i + 1).drop_last() =~= probes@.take(i as int));
            assert(regv.take(i + 1).last() == regv[i as int]);
            assert(probes@.take(i + 1).last() == probes@[i as int]);
        }
        if keep {
            let outcome = classify(probes[i]);
            results.push(HealthResult { service: svc.clone(), outcome });
        }
        proof {
            assert(results@.map_values(|r: HealthResult| r@) =~= check_all_spec(
                regv.take(i + 1),
                fv,
                probes@.take(i + 1),
            ));
        }
        i = i + 1;
    }
    proof {
        assert(regv.take(registry@.len() as int) =~= regv);
        assert(probes@.take(registry@.len() as int) =~= probes@);
    }
    results
}

/// How many of the results are online.
pub open spec fn count_online(results: Seq<HealthResultView>) -> nat
    decreases results.len(),
{
    if results.len() == 0 {
        0
    } else {
        count_online(results.drop_last()) + if results.last().outcome is Online {
            1nat
        } else {
            0nat
        }
    }
}

/// Counts the online results.
pub fn summarize(results: &Vec<HealthResult>) -> (online: usize)
    ensures
        online == count_online(results@.map_values(|r: HealthResult| r@)),
        online <= results@.len(),
{
    let ghost resv = results@.map_values(|r: HealthResult| r@);
    let mut online: usize = 0;
    let mut i: usize = 0;
    while i < results.len()
        invariant
            resv == results@.map_values(|r: HealthResult| r@),
            i <= results@.len(),
            online <= i,
            online == count_online(resv.take(i as int)),
        decreases results@.len() - i,
    {
        proof {
            assert(resv.take(i + 1).drop_last() =~= resv.take(i as int));
            assert(resv.take(i + 1).last() == results@[i as int]@);
        }
        if results[i].outcome.is_online() {
            online = online + 1;
        }
        i = i + 1;
    }
    proof {
        assert(resv.take(results@.len() as int) =~= resv);
    }
    online
}

/// Law: for every filter, the check returns results exactly for the registry
/// entries whose name contains the filter case-insensitively, in registry
/// order — the services of the results are the filtered registry.
pub proof fn lemma_results_exactly_filtered(
    reg: Seq<ServiceView>,
    filter: Option<Seq<char>>,
    probes: Seq<ProbeOutcome>,
)
    requires
        probes.len() == reg.len(),
    ensures
        check_all_spec(reg, filter, probes).map_values(|r: HealthResultView| r.service)
            == reg.filter(|s: ServiceView| passes_filter(s.name, filter)),
    decreases reg.len(),
{
    reveal(Seq::filter);
    if reg.len() == 0 {
        assert(check_all_spec(reg, filter, probes).map_values(|r: HealthResultView| r.service)
            =~= reg.filter(|s: ServiceView| passes_filter(s.name, filter)));
    } else {
        lemma_results_exactly_filtered(reg.drop_last(), filter, probes.drop_last());
        assert(check_all_spec(reg, filter, probes).map_values(|r: HealthResultView| r.service)
            =~= reg.filter(|s: ServiceView| passes_filter(s.name, filter)));
    }
}

/// Law: with no filter, there is exactly one result per registry entry, in
/// order, and result `i` carries service `i` with the classification of
/// probe `i`. In particular a probe with status 200 yields `Online` and a
/// transport failure yields `Offline` with reason `connection refused`.
pub proof fn lemma_unfiltered_pointwise(reg: Seq<ServiceView>, probes: Seq<ProbeOutcome>)
    requires
        probes.len() == reg.len(),
    ensures
        check_all_spec(reg, Option::None, probes).len() == reg.len(),
        forall|i: int|
            0 <= i < reg.len() ==> (#[trigger] check_all_spec(reg, Option::None, probes)[i]).service
                == reg[i] && check_all_spec(reg, Option::None, probes)[i].outcome == classify_spec(
                probes[i],
            ),
    decreases reg.len(),
{
    if reg.len() > 0 {
        lemma_unfiltered_pointwise(reg.drop_last(), probes.drop_last());
    }
}

/// Law: a probe that answered with a status outside the success range is
/// classified offline, and its reason carries exactly the decimal status
/// code after the fixed `unhealthy: ` prefix.
pub proof fn lemma_http_failure_reason_names_code(s: u16)
    requires
        !(200 <= s && s <= 299),
    ensures
        classify_spec(ProbeOutcome::Status(s)) is Offline,
        ({
            let reason = classify_spec(ProbeOutcome::Status(s))->Offline_reason;
            &&& reason.len() > 11
            &&& reason.subrange(0, 11) == "unhealthy: "@
            &&& reason.subrange(11, reason.len() as int) == dec_spec(s as nat)
        }),
{
    reveal_strlit("unhealthy: ");
    let reason = classify_spec(ProbeOutcome::Status(s))->Offline_reason;
    lemma_dec_spec_len(s as nat);
    assert(reason.subrange(0, 11) =~= "unhealthy: "@);
    assert(reason.subrange(11, reason.len() as int) =~= dec_spec(s as nat));
}

/// The decimal rendering of a number is never empty.
proof fn lemma_dec_spec_len(n: nat)
    ensures
        dec_spec(n).len() >= 1,
    decreases n,
{
    reveal_strlit("0");
    reveal_strlit("1");
    reveal_strlit("2");
    reveal_strlit("3");
    reveal_strlit("4");
    reveal_strlit("5");
    reveal_strlit("6");
    reveal_strlit("7");
    reveal_strlit("8");
    reveal_strlit("9");
    if n >= 10 {
        lemma_dec_spec_len(n / 10);
    }
}

/// Law: checking the same registry twice, with the same filter and the same
/// probe outcomes, yields identical result sequences — the aggregate is a
/// function of its inputs alone.
pub proof fn lemma_check_all_idempotent(
    reg: Seq<ServiceView>,
    filter: Option<Seq<char>>,
    probes: Seq<ProbeOutcome>,
    first: Seq<HealthResultView>,
    second: Seq<HealthResultView>,
)
    requires
        first == check_all_spec(reg, filter, probes),
        second == check_all_spec(reg, filter, probes),
    ensures
        first == second,
{
}

} // verus!
