use dataflow_engine::datavalues::Column;
use dataflow_engine::datavalues::DataBlock;
use dataflow_engine::datavalues::DataType;
use dataflow_engine::datavalues::Scalar;
use dataflow_engine::error::ErrorKind;
use dataflow_engine::exchange::ExchangeFragment;
use dataflow_engine::plan::FragmentKind;

fn column(values: &[u8]) -> Column {
    let mut column = Column::new(DataType::UInt8);
    for v in values {
        column.append_value(Scalar::UInt8(*v)).unwrap();
    }
    column
}

#[test]
fn merge_has_one_consumer() {
    let exchange = ExchangeFragment::new(FragmentKind::Merge, vec![]);
    for hash in [0u64, 1, 17, u64::MAX] {
        assert_eq!(exchange.destinations(hash, 1), vec![0]);
        assert_eq!(exchange.destinations(hash, 8), vec![0]);
    }
}

#[test]
fn shuffle_routes_by_the_hash() {
    let exchange = ExchangeFragment::new(FragmentKind::Shuffle, vec![0, 2]);
    assert_eq!(exchange.kind, FragmentKind::Shuffle);
    assert_eq!(exchange.keys, vec![0, 2]);
    assert_eq!(exchange.destinations(0, 4), vec![0]);
    assert_eq!(exchange.destinations(5, 4), vec![1]);
    assert_eq!(exchange.destinations(7, 4), vec![3]);
    assert_eq!(exchange.destinations(8, 4), vec![0]);
    assert_eq!(exchange.destinations(u64::MAX, 10), vec![5]);
    assert_eq!(exchange.destinations(12345, 1), vec![0]);
    // The same hash goes the same way every time.
    assert_eq!(exchange.destinations(99, 7), exchange.destinations(99, 7));
}

#[test]
fn broadcast_reaches_every_partition_once() {
    let exchange = ExchangeFragment::new(FragmentKind::Broadcast, vec![]);
    assert_eq!(exchange.destinations(3, 1), vec![0]);
    assert_eq!(exchange.destinations(3, 5), vec![0, 1, 2, 3, 4]);
}

#[test]
fn without_partitions_rows_go_nowhere() {
    for kind in [FragmentKind::Merge, FragmentKind::Shuffle, FragmentKind::Broadcast] {
        let exchange = ExchangeFragment::new(kind, vec![]);
        assert!(exchange.destinations(42, 0).is_empty());
    }
}

#[test]
fn block_of_columns_of_equal_length() {
    let block = DataBlock::create(vec![column(&[1, 2, 3]), column(&[4, 5, 6])]).unwrap();
    assert_eq!(block.num_rows(), 3);
    assert_eq!(block.num_columns(), 2);
    assert!(matches!(block.column(1).unwrap().get(2), Some(Scalar::UInt8(6))));
    assert!(block.column(2).is_none());
}

#[test]
fn block_without_columns_has_no_rows() {
    let block = DataBlock::create(vec![]).unwrap();
    assert_eq!(block.num_rows(), 0);
    assert_eq!(block.num_columns(), 0);
    let empty = DataBlock::empty();
    assert_eq!(empty.num_rows(), 0);
    assert_eq!(empty.num_columns(), 0);
}

#[test]
fn columns_of_different_lengths_make_no_block() {
    let err = DataBlock::create(vec![column(&[1, 2]), column(&[3]), column(&[4, 5])]).unwrap_err();
    assert_eq!(err.kind(), ErrorKind::SchemaError);
    assert_eq!(err.message(), "the columns of a block must have the same number of rows");
    let err = DataBlock::create(vec![column(&[]), column(&[3])]).unwrap_err();
    assert_eq!(err.kind(), ErrorKind::SchemaError);
}
