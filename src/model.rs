//! The records that travel between the shell and the external script.
use vstd::prelude::*;

verus! {

/// One table row: an identifier and ten text fields, carried unchanged.
#[derive(Debug, Clone)]
pub struct OrderItem {
    pub id: String,
    pub date: String,
    pub customer_name: String,
    pub order_no: String,
    pub part_no: String,
    pub part_description: String,
    pub quantity: String,
    pub price: String,
    pub amount: String,
    pub planned_delivery_date: String,
    pub order_due_date: String,
}

/// Header data of one document.
#[derive(Debug, Clone)]
pub struct PdfInfo {
    pub order_no: String,
    pub supplier_no: String,
    pub supplier_name: String,
    pub customer_name: String,
    pub currency: String,
}

/// What a successful `parse` hands back to the shell.
#[derive(Debug)]
pub struct ParseResult {
    pub items: Vec<OrderItem>,
    pub info: PdfInfo,
}

/// The currency code that a document without header data is given.
pub open spec fn default_currency() -> Seq<char> {
    seq!['C', 'N', 'Y']
}

impl PdfInfo {
    /// The header used when the response carries none, or none that decodes:
    /// every field empty but the currency, which is `CNY`.
    pub open spec fn is_default(&self) -> bool {
        &&& self.order_no@ == Seq::<char>::empty()
        &&& self.supplier_no@ == Seq::<char>::empty()
        &&& self.supplier_name@ == Seq::<char>::empty()
        &&& self.customer_name@ == Seq::<char>::empty()
        &&& self.currency@ == default_currency()
    }

    pub fn default_info() -> (r: PdfInfo)
        ensures
            r.is_default(),
    {
        let currency = String::from_str("CNY");
        proof {
            reveal_strlit("CNY");
            assert(currency@ =~= default_currency());
        }
        PdfInfo {
            order_no: String::new(),
            supplier_no: String::new(),
            supplier_name: String::new(),
            customer_name: String::new(),
            currency,
        }
    }
}

/// A request to the external script, tagged by its `command`.
#[derive(Debug, Clone)]
pub enum BridgeRequest {
    Parse { path: String },
    Export { path: String, data: Vec<OrderItem>, info: PdfInfo },
}

} // verus!
