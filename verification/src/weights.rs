//! The weights of the calls of the file bank: what they cost a block, in picoseconds of the
//! reference hardware.
use std::marker::PhantomData;
use vstd::prelude::*;

verus! {

/// What a call costs a block.
pub type Weight = u64;

/// What one access to the database costs.
#[derive(Clone, Copy, Debug, PartialEq, Eq, Structural)]
pub struct RuntimeDbWeight {
    pub read: Weight,
    pub write: Weight,
}

/// The number, or the greatest weight where it is beyond it.
pub open spec fn saturated(n: int) -> Weight {
    if n <= Weight::MAX {
        n as u64
    } else {
        Weight::MAX
    }
}

/// What `n` reads cost.
pub open spec fn reads_weight(db: RuntimeDbWeight, n: int) -> Weight {
    saturated(db.read * n)
}

/// What `n` writes cost.
pub open spec fn writes_weight(db: RuntimeDbWeight, n: int) -> Weight {
    saturated(db.write * n)
}

/// `frame_support::weights::RuntimeDbWeight::reads`, of whose weight the time is taken: the cost
/// of one read times the number of reads, held at the greatest weight.
#[verifier::external_body]
fn reads(db: RuntimeDbWeight, n: u64) -> (r: Weight)
    ensures
        r == reads_weight(db, n as int),
{
    frame_support::weights::RuntimeDbWeight { read: db.read, write: db.write }.reads(n).ref_time()
}

/// `frame_support::weights::RuntimeDbWeight::writes`, of whose weight the time is taken: the cost
/// of one write times the number of writes, held at the greatest weight.
#[verifier::external_body]
fn writes(db: RuntimeDbWeight, n: u64) -> (r: Weight)
    ensures
        r == writes_weight(db, n as int),
{
    frame_support::weights::RuntimeDbWeight { read: db.read, write: db.write }.writes(n).ref_time()
}

/// What an access to RocksDB costs.
pub open spec fn rocks_db() -> RuntimeDbWeight {
    RuntimeDbWeight { read: 25_000_000, write: 100_000_000 }
}

/// `frame_support::weights::constants::RocksDbWeight::get`: 25 microseconds for a read and 100
/// for a write.
#[verifier::external_body]
fn rocks_db_weight() -> (r: RuntimeDbWeight)
    ensures
        r == rocks_db(),
{
    let w = frame_support::weights::constants::RocksDbWeight::get();
    RuntimeDbWeight { read: w.read, write: w.write }
}

/// A chain, by what an access to its database costs.
pub trait Config {
    /// What an access to the database costs.
    spec fn db_weight() -> RuntimeDbWeight;

    /// What an access to the database costs.
    fn get_db_weight() -> (r: RuntimeDbWeight)
        ensures
            r == Self::db_weight(),
    ;
}

/// A chain on RocksDB.
pub struct RocksDb;

impl Config for RocksDb {
    open spec fn db_weight() -> RuntimeDbWeight {
        rocks_db()
    }

    fn get_db_weight() -> (r: RuntimeDbWeight) {
        rocks_db_weight()
    }
}

/// What an upload costs: a fixed time, three reads and four writes.
pub open spec fn upload_weight(db: RuntimeDbWeight) -> Weight {
    saturated(saturated(51_999_000 + reads_weight(db, 3)) + writes_weight(db, 4))
}

/// What the upload of `v` fillers costs: a fixed time and two reads, and for each filler some
/// time and a write.
pub open spec fn upload_filler_weight(db: RuntimeDbWeight, v: u32) -> Weight {
    saturated(
        saturated(saturated(43_198_000 + saturated(2_568_000 * v)) + reads_weight(db, 2))
            + writes_weight(db, v as int),
    )
}

/// The product, or the greatest weight where it is beyond it.
fn saturating_product(a: Weight, b: Weight) -> (r: Weight)
    ensures
        r == saturated(a * b),
{
    match a.checked_mul(b) {
        Some(r) => r,
        None => Weight::MAX,
    }
}

fn upload_on(db: RuntimeDbWeight) -> (r: Weight)
    ensures
        r == upload_weight(db),
{
    let base: Weight = 51_999_000;
    base.saturating_add(reads(db, 3)).saturating_add(writes(db, 4))
}

fn upload_filler_on(db: RuntimeDbWeight, v: u32) -> (r: Weight)
    ensures
        r == upload_filler_weight(db, v),
{
    let base: Weight = 43_198_000;
    let fillers: Weight = v as u64;
    base.saturating_add(saturating_product(2_568_000, fillers)).saturating_add(
        reads(db, 2),
    ).saturating_add(writes(db, saturating_product(1, fillers)))
}

/// The weights that the file bank asks for.
pub trait WeightInfo {
    fn upload() -> Weight;

    fn upload_filler(v: u32) -> Weight;
}

/// The weights on the recommended hardware, for a chain `T`.
pub struct SubstrateWeight<T>(PhantomData<T>);

impl<T: Config> WeightInfo for SubstrateWeight<T> {
    fn upload() -> (r: Weight)
        ensures
            r == upload_weight(T::db_weight()),
    {
        upload_on(T::get_db_weight())
    }

    fn upload_filler(v: u32) -> (r: Weight)
        ensures
            r == upload_filler_weight(T::db_weight(), v),
    {
        upload_filler_on(T::get_db_weight(), v)
    }
}

/// The weights where no chain is given: those of RocksDB.
impl WeightInfo for () {
    fn upload() -> (r: Weight)
        ensures
            r == upload_weight(rocks_db()),
    {
        upload_on(rocks_db_weight())
    }

    fn upload_filler(v: u32) -> (r: Weight)
        ensures
            r == upload_filler_weight(rocks_db(), v),
    {
        upload_filler_on(rocks_db_weight(), v)
    }
}

/// On RocksDB no weight is held at the greatest one, whatever the number of fillers.
pub proof fn law_rocks_db_weights_are_exact(v: u32)
    ensures
        upload_weight(rocks_db()) == 526_999_000,
        upload_filler_weight(rocks_db(), v) == 93_198_000 + 102_568_000 * v,
{
}

/// More fillers never cost less.
pub proof fn law_more_fillers_cost_no_less(db: RuntimeDbWeight, v: u32, w: u32)
    requires
        v <= w,
    ensures
        upload_filler_weight(db, v) <= upload_filler_weight(db, w),
{
    assert(db.write * v <= db.write * w) by (nonlinear_arith)
        requires
            v <= w,
    ;
}

/// An upload costs its fixed time, three reads and four writes, in all at most the greatest
/// weight.
pub proof fn law_upload_costs_its_accesses(db: RuntimeDbWeight)
    ensures
        ({
            let cost = 51_999_000 + 3 * db.read + 4 * db.write;
            &&& cost <= u64::MAX ==> upload_weight(db) == cost
            &&& cost > u64::MAX ==> upload_weight(db) == u64::MAX
        }),
{
}

/// The upload of fillers costs its fixed time and two reads, and for each filler its time and a
/// write, in all at most the greatest weight.
pub proof fn law_upload_filler_costs_its_accesses(db: RuntimeDbWeight, v: u32)
    ensures
        ({
            let cost = 43_198_000 + 2 * db.read + (2_568_000 + db.write) * v;
            &&& cost <= u64::MAX ==> upload_filler_weight(db, v) == cost
            &&& cost > u64::MAX ==> upload_filler_weight(db, v) == u64::MAX
        }),
{
    assert((2_568_000 + db.write) * v == 2_568_000 * v + db.write * v) by (nonlinear_arith);
    assert(db.write * v >= 0) by (nonlinear_arith);
}

} // verus!
