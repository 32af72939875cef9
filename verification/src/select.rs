use vstd::prelude::*;

use crate::FetchError;
use crate::config::FALLBACK_PRICE_MICROS;
use crate::item::{PriceItem, PriceItemModel, items_model};
use crate::text::{
    contains_sub, is_blank, is_blank_str, lemma_lex_lt_trans, lemma_lex_total, lex_lt, lower_of,
    lowercase, spec_contains, str_lt,
};

verus! {

/// A record offers locally redundant storage: its meter name or sku name
/// contains the substring "lrs", case-insensitively.
pub open spec fn spec_is_lrs(p: PriceItemModel) -> bool {
    spec_contains(lower_of(p.meter_name), "lrs"@) || spec_contains(lower_of(p.sku_name), "lrs"@)
}

/// The index of the first record at or after `i` that offers locally
/// redundant storage, if any.
pub open spec fn spec_first_lrs_from(items: Seq<PriceItemModel>, i: int) -> Option<int>
    decreases items.len() - i when 0 <= i <= items.len()
{
    if i >= items.len() {
        Option::None
    } else if spec_is_lrs(items[i]) {
        Option::Some(i)
    } else {
        spec_first_lrs_from(items, i + 1)
    }
}

/// The best-LTR selection: the retail price of the first LRS record if one
/// exists, otherwise the first record's retail price, and the sentinel floor
/// when the list is empty.
pub open spec fn spec_best_ltr(items: Seq<PriceItemModel>) -> u64 {
    if items.len() == 0 {
        FALLBACK_PRICE_MICROS
    } else {
        match spec_first_lrs_from(items, 0) {
            Option::Some(i) => items[i].retail_price,
            Option::None => items[0].retail_price,
        }
    }
}

/// Decides whether a record offers locally redundant storage.
fn is_lrs_item(p: &PriceItem) -> (r: bool)
    ensures
        r == spec_is_lrs(p@),
{
    let meter = lowercase(p.meter_name.as_str());
    if contains_sub(meter.as_str(), "lrs") {
        true
    } else {
        let sku = lowercase(p.sku_name.as_str());
        contains_sub(sku.as_str(), "lrs")
    }
}

/// Selects the single representative LTR price from the candidate list: the
/// first LRS-flavoured record wins, then the first record, then the sentinel
/// floor for an empty list.
pub fn best_ltr_price(items: &Vec<PriceItem>) -> (r: u64)
    ensures
        r == spec_best_ltr(items_model(items@)),
        items@.len() == 0 ==> r == FALLBACK_PRICE_MICROS,
{
    let ghost m = items_model(items@);
    if items.len() == 0 {
        return FALLBACK_PRICE_MICROS;
    }
    let n = items.len();
    let mut i: usize = 0;
    while i < n
        invariant
            n == items@.len(),
            m == items_model(items@),
            m.len() == n,
            i <= n,
            spec_first_lrs_from(m, 0) == spec_first_lrs_from(m, i as int),
        decreases n - i,
    {
        proof {
            assert(m[i as int] == items@[i as int]@);
        }
        if is_lrs_item(&items[i]) {
            proof {
                assert(spec_first_lrs_from(m, i as int) == Option::Some(i as int));
            }
            return items[i].retail_price;
        }
        proof {
            assert(spec_first_lrs_from(m, i as int) == spec_first_lrs_from(m, i + 1));
        }
        i += 1;
    }
    proof {
        assert(spec_first_lrs_from(m, 0) is None);
        assert(m[0] == items@[0]@);
    }
    items[0].retail_price
}

/// Best-LTR floor: for any region whose full cascade yields an empty
/// candidate list, the best-LTR selection returns exactly the sentinel
/// price.
pub proof fn lemma_best_ltr_floor(
    region: Seq<char>,
    timestamp: Seq<char>,
    ltr_outcome: Result<Seq<PriceItemModel>, FetchError>,
    backup_outcome: Result<Seq<PriceItemModel>, FetchError>,
)
    requires
        crate::cascade::spec_resolve_ltr(region, timestamp, ltr_outcome, backup_outcome).len()
            == 0,
    ensures
        spec_best_ltr(
            crate::cascade::spec_resolve_ltr(region, timestamp, ltr_outcome, backup_outcome),
        ) == FALLBACK_PRICE_MICROS,
{
}

/// The character sequences of a list of strings, in order.
pub open spec fn catalog_view(out: Seq<String>) -> Seq<Seq<char>> {
    out.map_values(|s: String| s@)
}

/// The list is strictly increasing in the lexicographic order, hence sorted
/// and free of duplicates.
pub open spec fn spec_sorted_distinct(out: Seq<Seq<char>>) -> bool {
    forall|a: int, b: int| 0 <= a < b < out.len() ==> lex_lt(#[trigger] out[a], #[trigger] out[b])
}

/// `s` is the region name of some record in `items` and is not blank.
pub open spec fn spec_region_in(items: Seq<PriceItemModel>, s: Seq<char>) -> bool {
    !is_blank(s) && exists|k: int|
        0 <= k < items.len() && (#[trigger] items[k]).arm_region_name == s
}

/// Finds the first position whose entry is not lexicographically below `x`.
fn find_insert_pos(out: &Vec<String>, x: &str) -> (pos: usize)
    ensures
        pos <= out@.len(),
        forall|k: int| 0 <= k < pos ==> lex_lt(#[trigger] catalog_view(out@)[k], x@),
        pos < out@.len() ==> !lex_lt(catalog_view(out@)[pos as int], x@),
{
    let n = out.len();
    let mut pos: usize = 0;
    while pos < n
        invariant
            n == out@.len(),
            pos <= n,
            forall|k: int| 0 <= k < pos ==> lex_lt(#[trigger] catalog_view(out@)[k], x@),
        decreases n - pos,
    {
        if !str_lt(out[pos].as_str(), x) {
            return pos;
        }
        proof {
            assert(catalog_view(out@)[pos as int] == out@[pos as int]@);
        }
        pos += 1;
    }
    pos
}

/// Inserts `x` into a sorted, duplicate-free list, keeping it sorted and
/// duplicate-free; a value already present is not inserted again.
fn insert_region(out: &mut Vec<String>, x: String)
    requires
        spec_sorted_distinct(catalog_view(old(out)@)),
    ensures
        spec_sorted_distinct(catalog_view(final(out)@)),
        forall|s: Seq<char>|
            #[trigger] catalog_view(final(out)@).contains(s) <==> (catalog_view(
                old(out)@,
            ).contains(s) || s == x@),
{
    let ghost ov = catalog_view(old(out)@);
    let pos = find_insert_pos(out, x.as_str());
    let n = out.len();
    if pos < n && out[pos] == x {
        proof {
            assert(ov[pos as int] == out@[pos as int]@);
            assert(ov.contains(x@));
        }
        return ;
    }
    proof {
        if pos < n {
            assert(ov[pos as int] == out@[pos as int]@);
            assert(ov[pos as int] != x@);
            lemma_lex_total(ov[pos as int], x@);
            assert(lex_lt(x@, ov[pos as int]));
        }
    }
    out.insert(pos, x);
    proof {
        let nv = catalog_view(out@);
        ov.insert_ensures(pos as int, x@);
        assert(out@ == old(out)@.insert(pos as int, x));
        assert forall|i: int| 0 <= i < nv.len() implies #[trigger] nv[i] == ov.insert(
            pos as int,
            x@,
        )[i] by {
            old(out)@.insert_ensures(pos as int, x);
            assert(nv[i] == out@[i]@);
            if i < pos {
                assert(out@[i] == old(out)@[i]);
            } else if i == pos {
                assert(out@[i] == x);
            } else {
                assert(out@[i] == old(out)@[i - 1]);
            }
        }
        assert(nv =~= ov.insert(pos as int, x@));
        // sortedness of the extended list
        assert forall|a: int, b: int| 0 <= a < b < nv.len() implies lex_lt(
            #[trigger] nv[a],
            #[trigger] nv[b],
        ) by {
            if b < pos {
            } else if b == pos {
                assert(nv[a] == ov[a]);
            } else if a == pos {
                assert(nv[b] == ov[b - 1]);
                if b - 1 > pos {
                    assert(lex_lt(ov[pos as int], ov[b - 1]));
                    lemma_lex_lt_trans(x@, ov[pos as int], ov[b - 1]);
                }
            } else if a < pos {
                assert(nv[a] == ov[a]);
                assert(nv[b] == ov[b - 1]);
                if b - 1 == pos {
                    if pos < ov.len() {
                    }
                } else {
                    assert(lex_lt(ov[a], ov[b - 1]));
                }
            } else {
                assert(nv[a] == ov[a - 1]);
                assert(nv[b] == ov[b - 1]);
            }
        }
        // membership of the extended list
        assert forall|s: Seq<char>| #[trigger] nv.contains(s) implies (ov.contains(s) || s == x@)
            by {
            let i = choose|i: int| 0 <= i < nv.len() && nv[i] == s;
            if i < pos {
                assert(ov[i] == s);
            } else if i > pos {
                assert(ov[i - 1] == s);
            }
        }
        assert forall|s: Seq<char>| ov.contains(s) || s == x@ implies #[trigger] nv.contains(s)
            by {
            if s == x@ {
                assert(nv[pos as int] == s);
            } else {
                let k = choose|k: int| 0 <= k < ov.len() && ov[k] == s;
                if k < pos {
                    assert(nv[k] == s);
                } else {
                    assert(nv[k + 1] == s);
                }
            }
        }
    }
}

/// Reduces raw price records to the region catalog: each record's region
/// name, blanks discarded, deduplicated and sorted lexicographically
/// ascending.
pub fn aggregate_regions(items: &Vec<PriceItem>) -> (r: Vec<String>)
    ensures
        spec_sorted_distinct(catalog_view(r@)),
        forall|s: Seq<char>|
            #[trigger] catalog_view(r@).contains(s) <==> spec_region_in(
                items_model(items@),
                s,
            ),
{
    let ghost m = items_model(items@);
    let mut out: Vec<String> = Vec::new();
    let n = items.len();
    let mut i: usize = 0;
    while i < n
        invariant
            n == items@.len(),
            m == items_model(items@),
            m.len() == n,
            i <= n,
            spec_sorted_distinct(catalog_view(out@)),
            forall|s: Seq<char>|
                #[trigger] catalog_view(out@).contains(s) <==> spec_region_in(
                    m.take(i as int),
                    s,
                ),
        decreases n - i,
    {
        let ghost before = catalog_view(out@);
        let region = items[i].arm_region_name.clone();
        let ghost rv = region@;
        proof {
            assert(m[i as int] == items@[i as int]@);
            assert(m[i as int].arm_region_name == rv);
        }
        let blank = is_blank_str(region.as_str());
        if !blank {
            insert_region(&mut out, region);
        }
        proof {
            assert(m.take(i + 1) =~= m.take(i as int).push(m[i as int]));
            assert forall|s: Seq<char>| #[trigger] catalog_view(out@).contains(s) <==>
                spec_region_in(m.take(i + 1), s) by {
                if catalog_view(out@).contains(s) {
                    if before.contains(s) {
                        assert(spec_region_in(m.take(i as int), s));
                        let k = choose|k: int|
                            0 <= k < m.take(i as int).len() && (#[trigger] m.take(
                                i as int,
                            )[k]).arm_region_name == s;
                        assert(m.take(i + 1)[k].arm_region_name == s);
                    } else {
                        assert(!blank && s == rv);
                        assert(m.take(i + 1)[i as int].arm_region_name == s);
                    }
                }
                if spec_region_in(m.take(i + 1), s) {
                    let k = choose|k: int|
                        0 <= k < m.take(i + 1).len() && (#[trigger] m.take(
                            i + 1,
                        )[k]).arm_region_name == s;
                    if k < i {
                        assert(m.take(i as int)[k].arm_region_name == s);
                        assert(spec_region_in(m.take(i as int), s));
                        assert(before.contains(s));
                    } else {
                        assert(s == rv);
                        assert(!is_blank(s));
                        assert(catalog_view(out@).contains(s));
                    }
                }
            }
        }
        i += 1;
    }
    proof {
        assert(m.take(n as int) =~= m);
    }
    out
}

} // verus!
