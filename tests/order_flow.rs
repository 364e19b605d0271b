use order_cache::cache::{Cache, DEFAULT_TTL_MS};
use order_cache::errors::{parse_order_id, AppError};
use order_cache::migrate::{split_statements, Migration};
use order_cache::sample::sample_order;
use order_cache::schema::{
    CreateOrderDTO, DeliveryDTO, GetOrderDTO, OrderHeader, OrderItemDTO, PaymentDTO, Timestamp,
};
use order_cache::service::{
    assemble_order, cached_order, create_error, header_found, next_create, publish_order,
    start_create, CreateAction, CreateState, CreateStep,
};
use order_cache::sql::{append_decimal, items_insert_query};

fn literal_request() -> CreateOrderDTO {
    CreateOrderDTO {
        track_number: "TN1".to_string(),
        entry: "e".to_string(),
        delivery: DeliveryDTO {
            name: "John Doe".to_string(),
            phone: "555-1234".to_string(),
            zip: "1".to_string(),
            city: "c".to_string(),
            address: "a".to_string(),
            region: "r".to_string(),
            email: "m@x".to_string(),
        },
        payment: PaymentDTO {
            transaction: "tx1".to_string(),
            request_id: "".to_string(),
            currency: "USD".to_string(),
            provider: "p".to_string(),
            amount: 100,
            payment_dt: 1,
            bank: "b".to_string(),
            delivery_cost: 2,
            goods_total: 98,
            custom_fee: 0,
        },
        items: vec![OrderItemDTO {
            chrt_id: 1,
            track_number: "TN1".to_string(),
            price: 100,
            rid: "r1".to_string(),
            name: "n".to_string(),
            sale: 0,
            size: "0".to_string(),
            total_price: 100,
            nm_id: 2,
            brand: "br".to_string(),
            status: 202,
        }],
        locale: "en".to_string(),
        internal_signature: "".to_string(),
        customer_id: "cust".to_string(),
        delivery_service: "ds".to_string(),
        sm_id: 9,
        shardkey: "9".to_string(),
        oof_shard: "1".to_string(),
    }
}

fn run(outcomes: &[bool]) -> Vec<CreateAction> {
    let (mut state, first) = start_create();
    let mut acts = vec![first];
    for ok in outcomes {
        if state == CreateState::Finished {
            break;
        }
        let (next, act) = next_create(state, *ok);
        state = next;
        acts.push(act);
    }
    acts
}

#[test]
fn all_steps_succeed_publishes() {
    let acts = run(&[true, true, true, true, true, true]);
    assert_eq!(
        acts,
        vec![
            CreateAction::Run(CreateStep::Begin),
            CreateAction::Run(CreateStep::Header),
            CreateAction::Run(CreateStep::Delivery),
            CreateAction::Run(CreateStep::Payment),
            CreateAction::Run(CreateStep::Items),
            CreateAction::Run(CreateStep::Commit),
            CreateAction::Publish,
        ]
    );
}

#[test]
fn failed_insert_rolls_back_and_never_commits() {
    for failing in 1..5usize {
        let mut outcomes = vec![true; failing];
        outcomes.push(false);
        outcomes.push(false);
        outcomes.push(true);
        let acts = run(&outcomes);
        assert!(!acts.contains(&CreateAction::Run(CreateStep::Commit)));
        assert!(!acts.contains(&CreateAction::Publish));
        assert_eq!(acts[acts.len() - 2], CreateAction::Rollback);
        assert!(matches!(acts[acts.len() - 1], CreateAction::Fail(s) if s != CreateStep::Begin && s != CreateStep::Commit));
    }
}

#[test]
fn failed_payment_reports_payment() {
    let acts = run(&[true, true, true, false, true]);
    assert_eq!(acts[acts.len() - 1], CreateAction::Fail(CreateStep::Payment));
    assert_eq!(CreateStep::Payment.message(), "Create payment error");
}

#[test]
fn failed_begin_has_nothing_to_roll_back() {
    let acts = run(&[false]);
    assert_eq!(acts, vec![CreateAction::Run(CreateStep::Begin), CreateAction::Fail(CreateStep::Begin)]);
}

#[test]
fn failed_commit_is_a_commit_error() {
    let acts = run(&[true, true, true, true, true, false]);
    assert_eq!(acts[acts.len() - 1], CreateAction::Fail(CreateStep::Commit));
    assert_eq!(create_error(CreateStep::Commit, "x".to_string()), AppError::CommitError("x".to_string()));
    assert_eq!(create_error(CreateStep::Items, "y".to_string()), AppError::PostgresError("y".to_string()));
}

#[test]
fn round_trip_reproduces_every_field() {
    let req = literal_request();
    let o = req.clone().into_created(42, Timestamp { secs: 0, nanos: 0 }).unwrap();
    assert_eq!(o.order_uid, "00000000-0000-0000-0000-00000000002a");
    assert_eq!(o.date_created, "1970-01-01T00:00:00+00:00");
    assert_eq!(o.track_number, "TN1");
    assert_eq!(o.entry, "e");
    assert_eq!(o.locale, "en");
    assert_eq!(o.delivery.name, "John Doe");
    assert_eq!(o.delivery.phone, "555-1234");
    assert_eq!(o.payment.transaction, "tx1");
    assert_eq!(o.payment.amount, 100);
    assert_eq!(o.items.len(), 1);
    assert_eq!(o.items[0].chrt_id, 1);
    assert_eq!(o.items[0].price, 100);
    assert_eq!(o.sm_id, 9);
    assert_eq!(o.customer_id, "cust");
    assert_eq!(o.oof_shard, "1");
}

#[test]
fn out_of_range_date_is_rejected() {
    assert!(literal_request().into_created(1, Timestamp { secs: i64::MAX, nanos: 0 }).is_none());
}

fn header(id: u128) -> OrderHeader {
    OrderHeader {
        order_uid: id,
        track_number: "TN1".to_string(),
        entry: "e".to_string(),
        locale: "en".to_string(),
        internal_signature: "".to_string(),
        customer_id: "c".to_string(),
        delivery_service: "d".to_string(),
        shardkey: "s".to_string(),
        sm_id: 1,
        date_created: Timestamp { secs: 86_400, nanos: 0 },
        oof_shard: "o".to_string(),
    }
}

#[test]
fn assemble_formats_id_and_date() {
    let req = literal_request();
    let o = assemble_order(header(255), req.payment, req.delivery, req.items).unwrap();
    assert_eq!(o.order_uid, "00000000-0000-0000-0000-0000000000ff");
    assert_eq!(o.date_created, "1970-01-02T00:00:00+00:00");
    let bad = OrderHeader { date_created: Timestamp { secs: 0, nanos: 2_000_000_000 }, ..header(1) };
    let req = literal_request();
    assert!(matches!(assemble_order(bad, req.payment, req.delivery, req.items), Err(AppError::PostgresError(_))));
}

#[test]
fn create_then_get_hits_cache() {
    let mut cache: Cache<GetOrderDTO> = Cache::new();
    let o = literal_request().into_created(7, Timestamp { secs: 0, nanos: 0 }).unwrap();
    publish_order(&mut cache, 7, o, 1_000);
    let got = cached_order(&mut cache, 7, 1_001).unwrap();
    assert_eq!(got.order_uid, "00000000-0000-0000-0000-000000000007");
    assert_eq!(got.track_number, "TN1");
    assert_eq!(got.payment.amount, 100);
}

#[test]
fn unknown_id_is_not_found() {
    let mut cache: Cache<GetOrderDTO> = Cache::new();
    assert!(cached_order(&mut cache, 99, 0).is_none());
    assert_eq!(header_found(None).unwrap_err(), AppError::NotFound);
    assert_eq!(AppError::NotFound.status_code(), 404);
    // an expired copy also falls through to the store
    let o = literal_request().into_created(5, Timestamp { secs: 0, nanos: 0 }).unwrap();
    publish_order(&mut cache, 5, o, 0);
    assert!(cached_order(&mut cache, 5, DEFAULT_TTL_MS).is_none());
    assert!(header_found(Some(header(5))).is_ok());
}

#[test]
fn parse_order_id_accepts_uuid_and_rejects_junk() {
    assert_eq!(parse_order_id("00000000-0000-0000-0000-00000000002a").unwrap(), 42);
    assert_eq!(
        parse_order_id("not-a-uuid").unwrap_err(),
        AppError::UIDError("not-a-uuid".to_string())
    );
    assert_eq!(AppError::UIDError(String::new()).status_code(), 400);
    assert_eq!(AppError::IOError(String::new()).status_code(), 500);
}

#[test]
fn migration_names_ignore_case() {
    assert_eq!(Migration::from_name("UP"), Some(Migration::Up));
    assert_eq!(Migration::from_name("Down"), Some(Migration::Down));
    assert_eq!(Migration::from_name("none"), Some(Migration::Skip));
    assert_eq!(Migration::from_name("sideways"), None);
    assert_eq!(Migration::Up.as_str(), "up");
    assert_eq!(Migration::Skip.as_str(), "none");
    assert_eq!(Migration::Up.script_name(), Some("init_migration.sql"));
    assert_eq!(Migration::Down.script_name(), Some("down_migration.sql"));
    assert_eq!(Migration::Skip.script_name(), None);
}

#[test]
fn sample_order_fields() {
    let o = sample_order("c1".to_string());
    assert_eq!(o.customer_id, "c1");
    assert_eq!(o.track_number, "TN123456789");
    assert_eq!(o.payment.payment_dt, 1637924400);
    assert_eq!(o.items[0].nm_id, 987654321);
    assert_eq!(o.delivery.email, "john.doe@example.com");
}

#[test]
fn decimal_text() {
    let mut s = String::from("x");
    append_decimal(&mut s, 0);
    append_decimal(&mut s, 1203);
    assert_eq!(s, "x01203");
}

#[test]
fn items_query_numbers_parameters_row_after_row() {
    assert!(items_insert_query(0).is_none());
    let q = items_insert_query(2).unwrap();
    assert_eq!(
        q,
        "INSERT INTO items (order_uid, chrt_id, track_number, price, rid, name, sale, size, total_price, nm_id, brand, status) VALUES \
($1, $2, $3, $4, $5, $6, $7, $8, $9, $10, $11, $12),\
($13, $14, $15, $16, $17, $18, $19, $20, $21, $22, $23, $24) \
RETURNING chrt_id, track_number, price, rid, name, sale, size, total_price, nm_id, brand, status"
    );
}

#[test]
fn script_split_at_each_statement_end() {
    assert_eq!(
        split_statements("CREATE TABLE a (x int);\nDROP TABLE b;"),
        vec!["CREATE TABLE a (x int)".to_string(), "\nDROP TABLE b".to_string(), String::new()]
    );
    assert_eq!(split_statements(""), vec![String::new()]);
    assert_eq!(split_statements("\u{e9};\u{fc}"), vec!["\u{e9}".to_string(), "\u{fc}".to_string()]);
}
