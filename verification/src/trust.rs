//! The trust verifier: which verification strategy answers for which kind of
//! credential.

use vstd::prelude::*;

verus! {

/// A way of verifying the credential behind an identity assertion.
#[derive(Clone, Copy, Debug, PartialEq, Eq, Structural)]
pub enum Strategy {
    /// Verifies a certificate chain up to a trusted root.
    CertificateChain,
    /// Verifies a credential co-signed by an identity aggregator.
    AggregatedClaims,
}

impl Strategy {
    /// The credential kind that this strategy answers for, as an identity
    /// assertion declares it.
    pub open spec fn spec_credential_kind(self) -> Seq<char> {
        match self {
            Strategy::CertificateChain => "cawg.x509.cose"@,
            Strategy::AggregatedClaims => "cawg.identity_claims_aggregation"@,
        }
    }

    /// The credential kind that this strategy answers for.
    pub fn credential_kind(self) -> (kind: &'static str)
        ensures
            kind@ == self.spec_credential_kind(),
    {
        match self {
            Strategy::CertificateChain => "cawg.x509.cose",
            Strategy::AggregatedClaims => "cawg.identity_claims_aggregation",
        }
    }
}

/// The time that a strategy is given to answer for one assertion, in
/// milliseconds. A strategy that has not answered by then is taken to have
/// timed out.
pub const STRATEGY_TIME_LIMIT_MS: u32 = 10_000;

/// Whether two strings hold the same text.
pub(crate) fn same_text(a: &str, b: &str) -> (same: bool)
    ensures
        same == (a@ == b@),
{
    a.to_owned() == b.to_owned()
}

/// The strategies that are registered, keyed by the credential kind they
/// answer for.
#[derive(Clone, Copy, Debug, PartialEq, Eq, Structural)]
pub struct TrustVerifier {
    pub certificate_chain: bool,
    pub aggregated_claims: bool,
}

impl TrustVerifier {
    /// Whether `strategy` is registered.
    pub open spec fn spec_registered(self, strategy: Strategy) -> bool {
        match strategy {
            Strategy::CertificateChain => self.certificate_chain,
            Strategy::AggregatedClaims => self.aggregated_claims,
        }
    }

    /// The strategy that answers for `kind`: the registered one whose
    /// credential kind is `kind`, if there is one.
    pub open spec fn spec_select(self, kind: Seq<char>) -> Option<Strategy> {
        if kind == Strategy::CertificateChain.spec_credential_kind() && self.certificate_chain {
            Some(Strategy::CertificateChain)
        } else if kind == Strategy::AggregatedClaims.spec_credential_kind()
            && self.aggregated_claims {
            Some(Strategy::AggregatedClaims)
        } else {
            None
        }
    }

    /// The verifier with both built-in strategies registered.
    pub fn built_in() -> (v: TrustVerifier)
        ensures
            v.certificate_chain,
            v.aggregated_claims,
    {
        TrustVerifier { certificate_chain: true, aggregated_claims: true }
    }

    /// Selects the strategy for a credential kind. `None` is the answer for
    /// a kind that no registered strategy answers for.
    pub fn select(&self, kind: &str) -> (s: Option<Strategy>)
        ensures
            s == self.spec_select(kind@),
    {
        if self.certificate_chain && same_text(kind, Strategy::CertificateChain.credential_kind()) {
            Some(Strategy::CertificateChain)
        } else if self.aggregated_claims && same_text(
            kind,
            Strategy::AggregatedClaims.credential_kind(),
        ) {
            Some(Strategy::AggregatedClaims)
        } else {
            None
        }
    }
}

/// The two built-in strategies answer for different credential kinds.
pub proof fn lemma_credential_kinds_differ()
    ensures
        Strategy::CertificateChain.spec_credential_kind()
            != Strategy::AggregatedClaims.spec_credential_kind(),
{
    reveal_strlit("cawg.x509.cose");
    reveal_strlit("cawg.identity_claims_aggregation");
    assert(Strategy::CertificateChain.spec_credential_kind().len() == 14);
    assert(Strategy::AggregatedClaims.spec_credential_kind().len() == 32);
}

/// A credential kind selects a strategy exactly if that strategy is
/// registered and answers for the kind. So a kind selects at most one
/// strategy, and a kind that no registered strategy answers for selects
/// none.
pub proof fn lemma_select_is_by_kind(verifier: TrustVerifier, kind: Seq<char>, strategy: Strategy)
    ensures
        verifier.spec_select(kind) == Some(strategy) <==> verifier.spec_registered(strategy)
            && kind == strategy.spec_credential_kind(),
{
    lemma_credential_kinds_differ();
}

} // verus!
