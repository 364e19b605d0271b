use vstd::prelude::*;

use crate::migrate::Migration;
use crate::schema::{CreateOrderDTO, DeliveryDTO, OrderItemDTO, PaymentDTO};

verus! {

/// Settings of one run of the service.
pub struct Args {
    /// Number of sample orders to send.
    pub count: u64,
    /// Delay between two sample orders, in milliseconds.
    pub delay: u64,
    /// Number of worker threads.
    pub threads: u8,
    /// Port the service listens on.
    pub port: u16,
    /// Schema script to run at start-up.
    pub migration: Option<Migration>,
    /// Whether to send sample orders once started.
    pub test_run: bool,
}

/// The sample order sent when the service is exercised, for the customer
/// `customer_id`.
pub fn sample_order(customer_id: String) -> (r: CreateOrderDTO)
    ensures
        r.track_number@ == "TN123456789"@,
        r.entry@ == "warehouse"@,
        r.locale@ == "en_US"@,
        r.internal_signature@ == "sig12345"@,
        r.delivery_service@ == "DHL"@,
        r.shardkey@ == "sk123"@,
        r.oof_shard@ == "shard1"@,
        r.customer_id@ == customer_id@,
        r.sm_id == 1,
        r.delivery.name@ == "John Doe"@,
        r.delivery.phone@ == "555-1234"@,
        r.delivery.zip@ == "12345"@,
        r.delivery.city@ == "Sample City"@,
        r.delivery.address@ == "1234 Sample Street"@,
        r.delivery.region@ == "Sample Region"@,
        r.delivery.email@ == "john.doe@example.com"@,
        r.payment.transaction@ == "tx12345"@,
        r.payment.request_id@ == "rq12345"@,
        r.payment.currency@ == "USD"@,
        r.payment.provider@ == "Visa"@,
        r.payment.bank@ == "Sample Bank"@,
        r.payment.amount == 100,
        r.payment.payment_dt == 1637924400,
        r.payment.delivery_cost == 5,
        r.payment.goods_total == 95,
        r.payment.custom_fee == 0,
        r.items.len() == 1,
        r.items[0].track_number@ == "TN123456789"@,
        r.items[0].rid@ == "RID12345"@,
        r.items[0].name@ == "Sample Item"@,
        r.items[0].size@ == "M"@,
        r.items[0].brand@ == "Sample Brand"@,
        r.items[0].chrt_id == 123456789,
        r.items[0].price == 100,
        r.items[0].sale == 10,
        r.items[0].total_price == 90,
        r.items[0].nm_id == 987654321,
        r.items[0].status == 1,
{
    let item = OrderItemDTO {
        chrt_id: 123456789,
        track_number: "TN123456789".to_owned(),
        price: 100,
        rid: "RID12345".to_owned(),
        name: "Sample Item".to_owned(),
        sale: 10,
        size: "M".to_owned(),
        total_price: 90,
        nm_id: 987654321,
        brand: "Sample Brand".to_owned(),
        status: 1,
    };
    let mut items: Vec<OrderItemDTO> = Vec::new();
    items.push(item);
    CreateOrderDTO {
        track_number: "TN123456789".to_owned(),
        entry: "warehouse".to_owned(),
        locale: "en_US".to_owned(),
        internal_signature: "sig12345".to_owned(),
        customer_id,
        delivery_service: "DHL".to_owned(),
        shardkey: "sk123".to_owned(),
        sm_id: 1,
        oof_shard: "shard1".to_owned(),
        delivery: DeliveryDTO {
            name: "John Doe".to_owned(),
            phone: "555-1234".to_owned(),
            zip: "12345".to_owned(),
            city: "Sample City".to_owned(),
            address: "1234 Sample Street".to_owned(),
            region: "Sample Region".to_owned(),
            email: "john.doe@example.com".to_owned(),
        },
        payment: PaymentDTO {
            transaction: "tx12345".to_owned(),
            request_id: "rq12345".to_owned(),
            currency: "USD".to_owned(),
            provider: "Visa".to_owned(),
            amount: 100,
            payment_dt: 1637924400,
            bank: "Sample Bank".to_owned(),
            delivery_cost: 5,
            goods_total: 95,
            custom_fee: 0,
        },
        items,
    }
}

} // verus!
