use vstd::prelude::*;

use crate::text::{lower_of, lowercase, spec_contains, spec_strip_spaces, strip_spaces};

verus! {

/// The normalized form of a region: lowercased, with every ASCII space
/// removed. Region identifiers are exact-match tokens upstream, so this
/// normalization is applied once, here, on every query path.
pub open spec fn spec_normalize_region(s: Seq<char>) -> Seq<char> {
    spec_strip_spaces(lower_of(s))
}

/// Normalizes a region string: lowercase, then strip spaces.
pub fn normalize_region(region: &str) -> (r: String)
    ensures
        r@ == spec_normalize_region(region@),
{
    let low = lowercase(region);
    strip_spaces(low.as_str())
}

/// The filter selecting standard backup-storage meters of SQL Database in
/// the given region.
pub open spec fn spec_backup_storage_filter(region: Seq<char>) -> Seq<char> {
    "serviceName eq 'SQL Database' and armRegionName eq '"@ + spec_normalize_region(region)
        + "' and contains(meterName, 'Backup Storage')"@
}

/// Builds the backup-storage filter for a region.
pub fn build_backup_storage_filter(region: &str) -> (r: String)
    ensures
        r@ == spec_backup_storage_filter(region@),
{
    let norm = normalize_region(region);
    let mut f = String::from_str("serviceName eq 'SQL Database' and armRegionName eq '");
    f.append(norm.as_str());
    f.append("' and contains(meterName, 'Backup Storage')");
    f
}

/// The filter selecting long-term-retention meters of SQL Database in the
/// given region: the AND of the service clause, the region clause, and an
/// OR-grouped pair of meter-name substring tests. The OR group is
/// parenthesized, since the query grammar binds `and` tighter than `or` and
/// the group must stay inside the conjunction.
pub open spec fn spec_ltr_filter(region: Seq<char>) -> Seq<char> {
    "serviceName eq 'SQL Database' and armRegionName eq '"@ + spec_normalize_region(region)
        + "' and (contains(meterName, 'LTR') or contains(meterName, 'Long Term Retention'))"@
}

/// Builds the long-term-retention filter for a region.
pub fn build_ltr_filter(region: &str) -> (r: String)
    ensures
        r@ == spec_ltr_filter(region@),
{
    let norm = normalize_region(region);
    let mut f = String::from_str("serviceName eq 'SQL Database' and armRegionName eq '");
    f.append(norm.as_str());
    f.append("' and (contains(meterName, 'LTR') or contains(meterName, 'Long Term Retention'))");
    f
}

/// The generic backup filter: service equality, meter-name suffix match,
/// fixed product, type and sku clauses, and an optional region clause
/// appended only when a region is supplied.
pub open spec fn spec_generic_backup_filter(
    service: Seq<char>,
    meter_suffix: Seq<char>,
    region: Option<Seq<char>>,
) -> Seq<char> {
    let base = "serviceName eq '"@ + service + "' and endswith(meterName,'"@ + meter_suffix
        + "') and productName eq 'Backup' and type eq 'Consumption' and skuName eq 'Standard'"@;
    match region {
        Option::None => base,
        Option::Some(reg) => base + " and armRegionName eq '"@ + spec_normalize_region(reg) + "'"@,
    }
}

/// Builds the generic backup filter from a service name, a meter-name
/// suffix, and an optional region.
pub fn build_generic_backup_filter(service: &str, meter_suffix: &str, region: Option<&str>) -> (r:
    String)
    ensures
        ({
            match region {
                Option::None => r@ == spec_generic_backup_filter(
                    service@,
                    meter_suffix@,
                    Option::None,
                ),
                Option::Some(reg) => r@ == spec_generic_backup_filter(
                    service@,
                    meter_suffix@,
                    Option::Some(reg@),
                ),
            }
        }),
{
    let mut f = String::from_str("serviceName eq '");
    f.append(service);
    f.append("' and endswith(meterName,'");
    f.append(meter_suffix);
    f.append("') and productName eq 'Backup' and type eq 'Consumption' and skuName eq 'Standard'");
    match region {
        Option::None => {},
        Option::Some(reg) => {
            let norm = normalize_region(reg);
            f.append(" and armRegionName eq '");
            f.append(norm.as_str());
            f.append("'");
        },
    }
    f
}

/// The deliberately broad filter used to enumerate every region serving SQL
/// Database.
pub open spec fn spec_region_discovery_filter() -> Seq<char> {
    "serviceName eq 'SQL Database'"@
}

/// Builds the region-discovery filter.
pub fn build_region_discovery_filter() -> (r: String)
    ensures
        r@ == spec_region_discovery_filter(),
{
    String::from_str("serviceName eq 'SQL Database'")
}

/// For every region string, the backup-storage filter contains the
/// normalized form of that region as a contiguous run: the region value
/// placed in the filter is the normalized one, never the raw input.
pub proof fn lemma_backup_filter_contains_normalized_region(region: Seq<char>)
    ensures
        spec_contains(spec_backup_storage_filter(region), spec_normalize_region(region)),
{
    let pre = "serviceName eq 'SQL Database' and armRegionName eq '"@;
    let norm = spec_normalize_region(region);
    let f = spec_backup_storage_filter(region);
    assert(f.subrange(pre.len() as int, pre.len() as int + norm.len() as int) =~= norm);
}

} // verus!
