use vstd::prelude::*;

verus! {

/// One upstream price record.
///
/// Monetary and tier fields are held in fixed-point micro-units: one million
/// units stand for 1.0 of the upstream decimal value, so a retail price of
/// 0.05 currency units is stored as 50_000.
#[derive(Debug, Clone, PartialEq)]
pub struct PriceItem {
    pub currency_code: String,
    pub tier_minimum_units: u64,
    pub retail_price: u64,
    pub unit_price: u64,
    pub arm_region_name: String,
    pub location: String,
    pub effective_start_date: String,
    pub meter_id: String,
    pub meter_name: String,
    pub product_id: String,
    pub sku_id: String,
    pub product_name: String,
    pub sku_name: String,
    pub service_name: String,
    pub service_id: String,
    pub service_family: String,
    pub unit_of_measure: String,
    pub price_type: String,
}

/// The mathematical value of a `PriceItem`: every text field as its character
/// sequence, every numeric field as its micro-unit count.
#[verifier::ext_equal]
pub struct PriceItemModel {
    pub currency_code: Seq<char>,
    pub tier_minimum_units: u64,
    pub retail_price: u64,
    pub unit_price: u64,
    pub arm_region_name: Seq<char>,
    pub location: Seq<char>,
    pub effective_start_date: Seq<char>,
    pub meter_id: Seq<char>,
    pub meter_name: Seq<char>,
    pub product_id: Seq<char>,
    pub sku_id: Seq<char>,
    pub product_name: Seq<char>,
    pub sku_name: Seq<char>,
    pub service_name: Seq<char>,
    pub service_id: Seq<char>,
    pub service_family: Seq<char>,
    pub unit_of_measure: Seq<char>,
    pub price_type: Seq<char>,
}

impl View for PriceItem {
    type V = PriceItemModel;

    open spec fn view(&self) -> PriceItemModel {
        PriceItemModel {
            currency_code: self.currency_code@,
            tier_minimum_units: self.tier_minimum_units,
            retail_price: self.retail_price,
            unit_price: self.unit_price,
            arm_region_name: self.arm_region_name@,
            location: self.location@,
            effective_start_date: self.effective_start_date@,
            meter_id: self.meter_id@,
            meter_name: self.meter_name@,
            product_id: self.product_id@,
            sku_id: self.sku_id@,
            product_name: self.product_name@,
            sku_name: self.sku_name@,
            service_name: self.service_name@,
            service_id: self.service_id@,
            service_family: self.service_family@,
            unit_of_measure: self.unit_of_measure@,
            price_type: self.price_type@,
        }
    }
}

/// The models of a sequence of price records, in order.
pub open spec fn items_model(s: Seq<PriceItem>) -> Seq<PriceItemModel> {
    s.map_values(|p: PriceItem| p@)
}

} // verus!
