use vstd::prelude::*;

verus! {

/// The upstream retail-prices endpoint that every query is sent to.
pub const BASE_URL: &'static str = "https://prices.azure.com/api/retail/prices";

/// The sentinel price, in micro-units, carried by every synthesized fallback
/// record and returned as the best-price floor: 0.05 currency units.
pub const FALLBACK_PRICE_MICROS: u64 = 50000;

/// The marker written into the id fields of a synthesized fallback record, so
/// that callers can tell synthetic data from live upstream data.
pub const FALLBACK_ID: &'static str = "fallback";

/// The region identifiers served when region discovery cannot reach the
/// upstream endpoint, in the order they are returned.
pub open spec fn spec_fallback_regions() -> Seq<Seq<char>> {
    seq![
        "eastus"@,
        "westus"@,
        "westus2"@,
        "eastus2"@,
        "centralus"@,
        "northeurope"@,
        "westeurope"@,
        "eastasia"@,
        "southeastasia"@,
    ]
}

/// Builds the fixed region list used when region discovery fails upstream.
pub fn fallback_regions() -> (r: Vec<String>)
    ensures
        r@.map_values(|s: String| s@) =~= spec_fallback_regions(),
{
    let mut r: Vec<String> = Vec::new();
    r.push(String::from_str("eastus"));
    r.push(String::from_str("westus"));
    r.push(String::from_str("westus2"));
    r.push(String::from_str("eastus2"));
    r.push(String::from_str("centralus"));
    r.push(String::from_str("northeurope"));
    r.push(String::from_str("westeurope"));
    r.push(String::from_str("eastasia"));
    r.push(String::from_str("southeastasia"));
    r
}

/// The nine fallback region identifiers are pairwise distinct: the fixed
/// discovery fallback list holds no duplicate entry.
pub proof fn lemma_fallback_regions_distinct()
    ensures
        forall|i: int, j: int|
            0 <= i < j < spec_fallback_regions().len() ==> spec_fallback_regions()[i]
                != spec_fallback_regions()[j],
{
    reveal_strlit("eastus");
    reveal_strlit("westus");
    reveal_strlit("westus2");
    reveal_strlit("eastus2");
    reveal_strlit("centralus");
    reveal_strlit("northeurope");
    reveal_strlit("westeurope");
    reveal_strlit("eastasia");
    reveal_strlit("southeastasia");
    let s = spec_fallback_regions();
    assert forall|i: int, j: int| 0 <= i < j < spec_fallback_regions().len() implies
        spec_fallback_regions()[i] != spec_fallback_regions()[j] by {
        assert(s[0].len() == 6 && s[1].len() == 6 && s[2].len() == 7 && s[3].len() == 7 && s[4].len()
            == 9 && s[5].len() == 11 && s[6].len() == 10 && s[7].len() == 8 && s[8].len() == 13);
        if i == 0 && j == 1 {
            assert(s[0][0] != s[1][0]);
        }
        if i == 2 && j == 3 {
            assert(s[2][0] != s[3][0]);
        }
    }
}

} // verus!
