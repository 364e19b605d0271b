use vstd::prelude::*;

verus! {

/// Text form of an order identifier: the hyphenated lower-case form of the
/// UUID whose integer value is `id`.
pub uninterp spec fn uuid_text(id: u128) -> Seq<char>;

/// RFC 3339 text of the UTC instant `secs` seconds and `nanos` nanoseconds
/// after the Unix epoch, or nothing where that instant has no calendar form.
pub uninterp spec fn rfc3339_text(secs: i64, nanos: u32) -> Option<Seq<char>>;

/// Relies on `uuid::Uuid::from_u128` and the `Display` impl of `uuid::Uuid`:
/// the text depends on the integer alone.
#[verifier::external_body]
fn order_uid_text(id: u128) -> (r: String)
    ensures
        r@ == uuid_text(id),
{
    uuid::Uuid::from_u128(id).to_string()
}

/// Relies on `chrono::DateTime::from_timestamp` and `DateTime::to_rfc3339`:
/// `None` where the instant is out of chrono's range, else its RFC 3339 text.
#[verifier::external_body]
fn timestamp_text(secs: i64, nanos: u32) -> (r: Option<String>)
    ensures
        match r {
            Some(s) => rfc3339_text(secs, nanos) == Some(s@),
            None => rfc3339_text(secs, nanos) is None,
        },
{
    chrono::DateTime::from_timestamp(secs, nanos).map(|d| d.to_rfc3339())
}

/// An instant stored by the database, as seconds and nanoseconds since the
/// Unix epoch (UTC).
#[derive(Clone, Copy, PartialEq, Eq, Structural, Debug)]
pub struct Timestamp {
    pub secs: i64,
    pub nanos: u32,
}

/// Delivery details of an order.
#[derive(Clone, Debug)]
pub struct DeliveryDTO {
    pub name: String,
    pub phone: String,
    pub zip: String,
    pub city: String,
    pub address: String,
    pub region: String,
    pub email: String,
}

/// Payment details of an order.
#[derive(Clone, Debug)]
pub struct PaymentDTO {
    pub transaction: String,
    pub request_id: String,
    pub currency: String,
    pub provider: String,
    pub amount: i32,
    pub payment_dt: i64,
    pub bank: String,
    pub delivery_cost: i32,
    pub goods_total: i32,
    pub custom_fee: i32,
}

/// One line item of an order.
#[derive(Clone, Debug)]
pub struct OrderItemDTO {
    pub chrt_id: i64,
    pub track_number: String,
    pub price: i32,
    pub rid: String,
    pub name: String,
    pub sale: i32,
    pub size: String,
    pub total_price: i32,
    pub nm_id: i64,
    pub brand: String,
    pub status: i32,
}

/// Identifier of one line item.
#[derive(Clone, Debug)]
pub struct OrderItemId {
    pub item_id: String,
}

/// Payload of a request that creates an order.
#[derive(Clone, Debug)]
pub struct CreateOrderDTO {
    pub track_number: String,
    pub entry: String,
    pub delivery: DeliveryDTO,
    pub payment: PaymentDTO,
    pub items: Vec<OrderItemDTO>,
    pub locale: String,
    pub internal_signature: String,
    pub customer_id: String,
    pub delivery_service: String,
    pub sm_id: i32,
    pub shardkey: String,
    pub oof_shard: String,
}

/// The header row of an order as the store holds it: the identifier and
/// creation time are assigned by the store.
#[derive(Clone, Debug)]
pub struct OrderHeader {
    pub order_uid: u128,
    pub track_number: String,
    pub entry: String,
    pub locale: String,
    pub internal_signature: String,
    pub customer_id: String,
    pub delivery_service: String,
    pub shardkey: String,
    pub sm_id: i32,
    pub date_created: Timestamp,
    pub oof_shard: String,
}

/// A whole order as it is read back and handed to clients.
#[derive(Clone, Debug)]
pub struct GetOrderDTO {
    pub order_uid: String,
    pub track_number: String,
    pub entry: String,
    pub delivery: DeliveryDTO,
    pub payment: PaymentDTO,
    pub items: Vec<OrderItemDTO>,
    pub locale: String,
    pub internal_signature: String,
    pub customer_id: String,
    pub delivery_service: String,
    pub sm_id: i32,
    pub date_created: String,
    pub shardkey: String,
    pub oof_shard: String,
}

/// The order assembled from a header row and its three sibling parts.
pub open spec fn assembled(
    row: OrderHeader,
    payment: PaymentDTO,
    delivery: DeliveryDTO,
    items: Vec<OrderItemDTO>,
    date: Seq<char>,
    o: GetOrderDTO,
) -> bool {
    &&& o.order_uid@ == uuid_text(row.order_uid)
    &&& o.track_number == row.track_number
    &&& o.entry == row.entry
    &&& o.delivery == delivery
    &&& o.payment == payment
    &&& o.items == items
    &&& o.locale == row.locale
    &&& o.internal_signature == row.internal_signature
    &&& o.customer_id == row.customer_id
    &&& o.delivery_service == row.delivery_service
    &&& o.sm_id == row.sm_id
    &&& o.date_created@ == date
    &&& o.shardkey == row.shardkey
    &&& o.oof_shard == row.oof_shard
}

impl GetOrderDTO {
    /// Assembles an order from its header row and its parts. `None` where the
    /// creation time has no calendar form.
    pub fn from_row(
        row: OrderHeader,
        payment: PaymentDTO,
        delivery: DeliveryDTO,
        order_items: Vec<OrderItemDTO>,
    ) -> (r: Option<GetOrderDTO>)
        ensures
            r is Some <==> rfc3339_text(row.date_created.secs, row.date_created.nanos) is Some,
            r matches Some(o) ==> assembled(
                row,
                payment,
                delivery,
                order_items,
                rfc3339_text(row.date_created.secs, row.date_created.nanos).unwrap(),
                o,
            ),
    {
        let formatted_date = match timestamp_text(row.date_created.secs, row.date_created.nanos) {
            Some(text) => text,
            None => {
                return None;
            },
        };
        Some(
            GetOrderDTO {
                order_uid: order_uid_text(row.order_uid),
                track_number: row.track_number,
                entry: row.entry,
                delivery,
                payment,
                items: order_items,
                locale: row.locale,
                internal_signature: row.internal_signature,
                customer_id: row.customer_id,
                delivery_service: row.delivery_service,
                sm_id: row.sm_id,
                date_created: formatted_date,
                shardkey: row.shardkey,
                oof_shard: row.oof_shard,
            },
        )
    }
}

impl CreateOrderDTO {
    /// The order that the store holds once this request has been written
    /// under `order_uid` at time `date_created`: every field of the request,
    /// with the identifier and the creation time that the store assigned.
    pub fn into_created(self, order_uid: u128, date_created: Timestamp) -> (r: Option<GetOrderDTO>)
        ensures
            r is Some <==> rfc3339_text(date_created.secs, date_created.nanos) is Some,
            r matches Some(o) ==> {
                &&& o.order_uid@ == uuid_text(order_uid)
                &&& o.track_number == self.track_number
                &&& o.entry == self.entry
                &&& o.delivery == self.delivery
                &&& o.payment == self.payment
                &&& o.items == self.items
                &&& o.locale == self.locale
                &&& o.internal_signature == self.internal_signature
                &&& o.customer_id == self.customer_id
                &&& o.delivery_service == self.delivery_service
                &&& o.sm_id == self.sm_id
                &&& Some(o.date_created@) == rfc3339_text(date_created.secs, date_created.nanos)
                &&& o.shardkey == self.shardkey
                &&& o.oof_shard == self.oof_shard
            },
    {
        let header = OrderHeader {
            order_uid,
            track_number: self.track_number,
            entry: self.entry,
            locale: self.locale,
            internal_signature: self.internal_signature,
            customer_id: self.customer_id,
            delivery_service: self.delivery_service,
            shardkey: self.shardkey,
            sm_id: self.sm_id,
            date_created,
            oof_shard: self.oof_shard,
        };
        GetOrderDTO::from_row(header, self.payment, self.delivery, self.items)
    }
}

} // verus!
