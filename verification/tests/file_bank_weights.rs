use ceseal::weights::{Config, RocksDb, RuntimeDbWeight, SubstrateWeight, Weight, WeightInfo};

struct Costly;

impl Config for Costly {
    fn db_weight() -> RuntimeDbWeight {
        Self::get_db_weight()
    }

    fn get_db_weight() -> RuntimeDbWeight {
        RuntimeDbWeight { read: 7, write: Weight::MAX / 2 }
    }
}

#[test]
fn upload_weight_is_exact() {
    assert_eq!(<() as WeightInfo>::upload(), 526_999_000);
    assert_eq!(<SubstrateWeight<RocksDb> as WeightInfo>::upload(), 526_999_000);
}

#[test]
fn upload_filler_weight_is_exact() {
    for v in [0u32, 1, 2, 1000, u32::MAX] {
        let expected: u64 = 93_198_000 + 102_568_000 * v as u64;
        assert_eq!(<() as WeightInfo>::upload_filler(v), expected);
        assert_eq!(<SubstrateWeight<RocksDb> as WeightInfo>::upload_filler(v), expected);
    }
}

#[test]
fn weights_are_held_at_the_greatest() {
    assert_eq!(<SubstrateWeight<Costly> as WeightInfo>::upload(), Weight::MAX);
    assert_eq!(<SubstrateWeight<Costly> as WeightInfo>::upload_filler(0), 43_198_014);
    assert_eq!(
        <SubstrateWeight<Costly> as WeightInfo>::upload_filler(1),
        43_198_014 + 2_568_000 + Weight::MAX / 2
    );
    assert_eq!(<SubstrateWeight<Costly> as WeightInfo>::upload_filler(3), Weight::MAX);
}

#[test]
fn more_fillers_cost_no_less() {
    let mut last = 0;
    for v in 0..20 {
        let w = <SubstrateWeight<Costly> as WeightInfo>::upload_filler(v);
        assert!(w >= last);
        last = w;
    }
}
