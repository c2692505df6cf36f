//! Subscription cancellation: the two query parameters every
//! cancellation call carries.

use vstd::prelude::*;
use crate::models::common::Uuid;
use crate::http::{spec_pairs_match, lemma_pairs_match_push};

verus! {

/// Who cancels what: the parent contract and the subscriber's email.
#[derive(Debug, Clone, PartialEq, Eq)]
pub struct CancelSubscriptionParams {
    /// The parent contract received at the first purchase.
    pub contract_id: Uuid,
    /// The email owning the subscription.
    pub email: String,
}

impl CancelSubscriptionParams {
    /// The two query entries every cancellation sends.
    pub open spec fn spec_query_entries(self) -> Seq<(Seq<char>, Seq<char>)> {
        seq![("contractId"@, self.contract_id.text@), ("email"@, self.email@)]
    }

    /// Serializes the parameters into query pairs; both are always
    /// present.
    pub fn to_query_pairs(&self) -> (r: Vec<(String, String)>)
        ensures
            spec_pairs_match(r@, self.spec_query_entries()),
    {
        let mut ps: Vec<(String, String)> = Vec::new();
        let ghost mut es: Seq<(Seq<char>, Seq<char>)> = Seq::empty();
        assert(spec_pairs_match(ps@, es));
        let p = ("contractId".to_owned(), self.contract_id.text.clone());
        proof {
            lemma_pairs_match_push(ps@, es, p, ("contractId"@, self.contract_id.text@));
            es = es.push(("contractId"@, self.contract_id.text@));
        }
        ps.push(p);
        let p = ("email".to_owned(), self.email.clone());
        proof {
            lemma_pairs_match_push(ps@, es, p, ("email"@, self.email@));
            es = es.push(("email"@, self.email@));
        }
        ps.push(p);
        proof {
            assert(es =~= self.spec_query_entries());
        }
        ps
    }
}

} // verus!
