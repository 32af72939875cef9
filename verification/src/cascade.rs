use vstd::prelude::*;

use crate::FetchError;
use crate::config::FALLBACK_ID;
use crate::config::FALLBACK_PRICE_MICROS;
use crate::config::fallback_regions;
use crate::config::spec_fallback_regions;
use crate::filters::spec_normalize_region;
use crate::filters::normalize_region;
use crate::item::{PriceItem, PriceItemModel, items_model};
use crate::select::{aggregate_regions, catalog_view, spec_region_in, spec_sorted_distinct};

verus! {

/// The record synthesized when backup-storage pricing cannot be fetched: the
/// sentinel price, the marker id fields, the normalized region as the region
/// value, and the raw region as the location label.
pub open spec fn spec_fallback_item(
    norm_region: Seq<char>,
    raw_region: Seq<char>,
    timestamp: Seq<char>,
) -> PriceItemModel {
    PriceItemModel {
        currency_code: "USD"@,
        tier_minimum_units: 0,
        retail_price: FALLBACK_PRICE_MICROS,
        unit_price: FALLBACK_PRICE_MICROS,
        arm_region_name: norm_region,
        location: raw_region,
        effective_start_date: timestamp,
        meter_id: FALLBACK_ID@,
        meter_name: "Backup Storage LRS"@,
        product_id: FALLBACK_ID@,
        sku_id: FALLBACK_ID@,
        product_name: "SQL Database"@,
        sku_name: "General Purpose"@,
        service_name: "SQL Database"@,
        service_id: FALLBACK_ID@,
        service_family: "Databases"@,
        unit_of_measure: "GB/Month"@,
        price_type: "Consumption"@,
    }
}

/// Synthesizes the fallback backup-storage record for a region, stamped with
/// the given effective-start timestamp.
pub fn create_fallback_pricing(normalized_region: &str, region: &str, timestamp: String) -> (r:
    PriceItem)
    ensures
        r@ == spec_fallback_item(normalized_region@, region@, timestamp@),
{
    let r = PriceItem {
        currency_code: String::from_str("USD"),
        tier_minimum_units: 0,
        retail_price: FALLBACK_PRICE_MICROS,
        unit_price: FALLBACK_PRICE_MICROS,
        arm_region_name: String::from_str(normalized_region),
        location: String::from_str(region),
        effective_start_date: timestamp,
        meter_id: String::from_str(FALLBACK_ID),
        meter_name: String::from_str("Backup Storage LRS"),
        product_id: String::from_str(FALLBACK_ID),
        sku_id: String::from_str(FALLBACK_ID),
        product_name: String::from_str("SQL Database"),
        sku_name: String::from_str("General Purpose"),
        service_name: String::from_str("SQL Database"),
        service_id: String::from_str(FALLBACK_ID),
        service_family: String::from_str("Databases"),
        unit_of_measure: String::from_str("GB/Month"),
        price_type: String::from_str("Consumption"),
    };
    proof {
        assert(r@ =~= spec_fallback_item(normalized_region@, region@, timestamp@));
    }
    r
}

/// Relies on `chrono::Utc::now` and `chrono::DateTime::to_rfc3339` for the
/// current timestamp. The value depends on the clock, so nothing is assumed
/// of it; every caller states what holds whatever string came back.
#[verifier::external_body]
fn utc_now_rfc3339() -> String {
    chrono::Utc::now().to_rfc3339()
}

/// The outcome of one upstream fetch, lifted to models.
pub open spec fn spec_outcome(o: Result<Vec<PriceItem>, FetchError>) -> Result<
    Seq<PriceItemModel>,
    FetchError,
> {
    match o {
        Result::Ok(items) => Result::Ok(items_model(items@)),
        Result::Err(e) => Result::Err(e),
    }
}

/// Backup-storage policy: a successful fetch is passed through unchanged,
/// even when empty; a failed fetch is replaced by the single synthesized
/// fallback record for the region.
pub open spec fn spec_resolve_backup(
    region: Seq<char>,
    timestamp: Seq<char>,
    outcome: Result<Seq<PriceItemModel>, FetchError>,
) -> Seq<PriceItemModel> {
    match outcome {
        Result::Ok(items) => items,
        Result::Err(_) => seq![
            spec_fallback_item(spec_normalize_region(region), region, timestamp),
        ],
    }
}

/// Resolves the backup-storage operation from a fetch outcome, stamping any
/// synthesized record with the given timestamp.
pub fn resolve_backup_storage_at(
    region: &str,
    timestamp: String,
    outcome: Result<Vec<PriceItem>, FetchError>,
) -> (r: Vec<PriceItem>)
    ensures
        items_model(r@) == spec_resolve_backup(region@, timestamp@, spec_outcome(outcome)),
{
    match outcome {
        Result::Ok(items) => items,
        Result::Err(_) => {
            let norm = normalize_region(region);
            let item = create_fallback_pricing(norm.as_str(), region, timestamp);
            let mut v: Vec<PriceItem> = Vec::new();
            v.push(item);
            proof {
                assert(items_model(v@) =~= seq![
                    spec_fallback_item(spec_normalize_region(region@), region@, timestamp@),
                ]);
            }
            v
        },
    }
}

/// Resolves the backup-storage operation, stamping any synthesized record
/// with the current clock time.
pub fn resolve_backup_storage(region: &str, outcome: Result<Vec<PriceItem>, FetchError>) -> (r:
    Vec<PriceItem>)
    ensures
        outcome is Ok ==> items_model(r@) == items_model(outcome->Ok_0@),
        outcome is Err ==> r@.len() == 1 && r@[0]@ == spec_fallback_item(
            spec_normalize_region(region@),
            region@,
            r@[0]@.effective_start_date,
        ),
{
    let ts = utc_now_rfc3339();
    let r = resolve_backup_storage_at(region, ts, outcome);
    proof {
        if outcome is Err {
            assert(items_model(r@).len() == 1);
            assert(r@[0]@ == items_model(r@)[0]);
        }
    }
    r
}

/// Long-term-retention policy, the two-level cascade: a successful,
/// non-empty LTR fetch wins; otherwise the backup-storage policy decides
/// from its own fetch outcome.
pub open spec fn spec_resolve_ltr(
    region: Seq<char>,
    timestamp: Seq<char>,
    ltr_outcome: Result<Seq<PriceItemModel>, FetchError>,
    backup_outcome: Result<Seq<PriceItemModel>, FetchError>,
) -> Seq<PriceItemModel> {
    if ltr_outcome is Ok && ltr_outcome->Ok_0.len() > 0 {
        ltr_outcome->Ok_0
    } else {
        spec_resolve_backup(region, timestamp, backup_outcome)
    }
}

/// Tells whether the LTR fetch outcome already settles the cascade, so that
/// no backup-storage fetch is needed.
pub fn ltr_fetch_suffices(outcome: &Result<Vec<PriceItem>, FetchError>) -> (r: bool)
    ensures
        r == (outcome is Ok && outcome->Ok_0@.len() > 0),
{
    match outcome {
        Result::Ok(items) => items.len() > 0,
        Result::Err(_) => false,
    }
}

/// Resolves the LTR operation from the two fetch outcomes, stamping any
/// synthesized record with the given timestamp. The backup outcome is read
/// only when the LTR outcome does not suffice.
pub fn resolve_ltr_at(
    region: &str,
    timestamp: String,
    ltr_outcome: Result<Vec<PriceItem>, FetchError>,
    backup_outcome: Result<Vec<PriceItem>, FetchError>,
) -> (r: Vec<PriceItem>)
    ensures
        items_model(r@) == spec_resolve_ltr(
            region@,
            timestamp@,
            spec_outcome(ltr_outcome),
            spec_outcome(backup_outcome),
        ),
{
    match ltr_outcome {
        Result::Ok(items) => {
            if items.len() > 0 {
                items
            } else {
                resolve_backup_storage_at(region, timestamp, backup_outcome)
            }
        },
        Result::Err(_) => resolve_backup_storage_at(region, timestamp, backup_outcome),
    }
}

/// Resolves the LTR operation, stamping any synthesized record with the
/// current clock time.
pub fn resolve_ltr(
    region: &str,
    ltr_outcome: Result<Vec<PriceItem>, FetchError>,
    backup_outcome: Result<Vec<PriceItem>, FetchError>,
) -> (r: Vec<PriceItem>)
    ensures
        ltr_outcome is Ok && ltr_outcome->Ok_0@.len() > 0 ==> items_model(r@) == items_model(
            ltr_outcome->Ok_0@,
        ),
        !(ltr_outcome is Ok && ltr_outcome->Ok_0@.len() > 0) && backup_outcome is Ok
            ==> items_model(r@) == items_model(backup_outcome->Ok_0@),
        !(ltr_outcome is Ok && ltr_outcome->Ok_0@.len() > 0) && backup_outcome is Err ==> r@.len()
            == 1 && r@[0]@ == spec_fallback_item(
            spec_normalize_region(region@),
            region@,
            r@[0]@.effective_start_date,
        ),
{
    let ts = utc_now_rfc3339();
    let r = resolve_ltr_at(region, ts, ltr_outcome, backup_outcome);
    proof {
        if !(ltr_outcome is Ok && ltr_outcome->Ok_0@.len() > 0) && backup_outcome is Err {
            assert(items_model(r@).len() == 1);
            assert(r@[0]@ == items_model(r@)[0]);
        }
    }
    r
}

/// The LTR cascade delegates: whenever the LTR-specific fetch fails or
/// returns an empty list, the final result equals what the backup-storage
/// operation returns for the same region, timestamp and fetch outcome.
pub proof fn lemma_ltr_cascade_delegates(
    region: Seq<char>,
    timestamp: Seq<char>,
    ltr_outcome: Result<Seq<PriceItemModel>, FetchError>,
    backup_outcome: Result<Seq<PriceItemModel>, FetchError>,
)
    requires
        ltr_outcome is Ok ==> ltr_outcome->Ok_0.len() == 0,
    ensures
        spec_resolve_ltr(region, timestamp, ltr_outcome, backup_outcome) == spec_resolve_backup(
            region,
            timestamp,
            backup_outcome,
        ),
{
}

/// Region-discovery policy: a successful fetch is reduced to the sorted,
/// deduplicated, blank-free region catalog; a failed fetch is replaced by
/// the fixed nine-entry region list, exactly as listed.
pub fn resolve_regions(outcome: Result<Vec<PriceItem>, FetchError>) -> (r: Vec<String>)
    ensures
        outcome is Ok ==> spec_sorted_distinct(catalog_view(r@)) && (forall|s: Seq<char>|
            #[trigger] catalog_view(r@).contains(s) <==> spec_region_in(
                items_model(outcome->Ok_0@),
                s,
            )),
        outcome is Err ==> catalog_view(r@) == spec_fallback_regions(),
{
    match outcome {
        Result::Ok(items) => aggregate_regions(&items),
        Result::Err(_) => fallback_regions(),
    }
}

} // verus!
