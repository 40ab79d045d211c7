use dataflow_expression::adapter::{MongoDbQueryHandler, QueryDestination, QueryResult};
use dataflow_expression::oplog::{OplogPosition, OplogTimestamp};

#[test]
fn oplog_offset_round_trip() {
    let p = OplogPosition { timestamp: OplogTimestamp { time: 1700000000, increment: 42 } };
    let packed = p.to_u128();
    assert_eq!(packed, (1700000000u128 << 32) | 42u128);
    let back = OplogPosition::from_u128(packed);
    assert_eq!(back, p.timestamp);
}

#[test]
fn oplog_replication_offset_round_trip() {
    let p = OplogPosition { timestamp: OplogTimestamp { time: 7, increment: 9 } };
    let offset = p.as_replication_offset();
    assert_eq!(offset.offset, (7u128 << 32) | 9u128);
    assert_eq!(offset.replication_log_name, "");
    let back = OplogPosition::from_replication_offset(&offset);
    assert_eq!(back.timestamp, p.timestamp);
}

#[test]
fn upstream_results_go_upstream() {
    let r = QueryResult::Command { status_flags: 0 };
    assert_eq!(r.destination(), QueryDestination::Upstream);
    let w = QueryResult::WriteResult { num_rows_affected: 1, last_inserted_id: 2, status_flags: 0 };
    assert_eq!(w.destination(), QueryDestination::Upstream);
}

#[test]
fn every_query_requires_fallback() {
    assert!(MongoDbQueryHandler::requires_fallback());
}
