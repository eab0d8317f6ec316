//! The sled tree that holds the records, seen as a map from key bytes to value
//! bytes, and the batches that change several keys in one step.
use vstd::prelude::*;

verus! {

#[verifier::external_type_specification]
#[verifier::external_body]
pub struct ExDb(sled::Db);

#[verifier::external_type_specification]
#[verifier::external_body]
pub struct ExBatch(sled::Batch);

#[verifier::external_type_specification]
#[verifier::external_body]
pub struct ExSledError(sled::Error);

/// What the tree holds: each key with its value.
pub uninterp spec fn db_contents(db: sled::Db) -> Map<Seq<u8>, Seq<u8>>;

/// What a batch holds: for each key it touches, the new value, or `None` where the
/// key is to be removed. A later write to a key replaces an earlier one.
pub uninterp spec fn batch_writes(b: sled::Batch) -> Map<Seq<u8>, Option<Seq<u8>>>;

/// The writes of an empty batch.
pub open spec fn no_writes() -> Map<Seq<u8>, Option<Seq<u8>>> {
    Map::empty()
}

/// The contents `c` after the writes `w` have been applied.
pub open spec fn applied(c: Map<Seq<u8>, Seq<u8>>, w: Map<Seq<u8>, Option<Seq<u8>>>) -> Map<
    Seq<u8>,
    Seq<u8>,
> {
    Map::new(
        |k: Seq<u8>|
            if w.contains_key(k) {
                w[k] is Some
            } else {
                c.contains_key(k)
            },
        |k: Seq<u8>|
            if w.contains_key(k) {
                w[k]->0
            } else {
                c[k]
            },
    )
}

/// The contents `c` after one write.
pub open spec fn written(c: Map<Seq<u8>, Seq<u8>>, k: Seq<u8>, v: Option<Seq<u8>>) -> Map<
    Seq<u8>,
    Seq<u8>,
> {
    match v {
        Some(b) => c.insert(k, b),
        None => c.remove(k),
    }
}

pub proof fn lemma_applied_empty(c: Map<Seq<u8>, Seq<u8>>)
    ensures
        applied(c, no_writes()) == c,
{
    assert(applied(c, no_writes()) =~= c);
}

/// Adding a write to a batch applies it after the others.
pub proof fn lemma_applied_insert(
    c: Map<Seq<u8>, Seq<u8>>,
    w: Map<Seq<u8>, Option<Seq<u8>>>,
    k: Seq<u8>,
    v: Option<Seq<u8>>,
)
    ensures
        applied(c, w.insert(k, v)) == written(applied(c, w), k, v),
{
    assert(applied(c, w.insert(k, v)) =~= written(applied(c, w), k, v));
}

/// Relies on sled::open: opens, or creates, the database stored at `path`.
#[verifier::external_body]
pub(crate) fn open_db(path: &str) -> (r: Result<sled::Db, sled::Error>) {
    sled::open(path)
}

/// Relies on sled::Tree::get: the value stored under `key`, if there is one.
#[verifier::external_body]
pub(crate) fn db_get(db: &sled::Db, key: &Vec<u8>) -> (r: Result<Option<Vec<u8>>, sled::Error>)
    ensures
        r matches Ok(o) ==> (o is Some <==> db_contents(*db).contains_key(key@)),
        r matches Ok(Some(v)) ==> v@ == db_contents(*db)[key@],
{
    db.get(key.as_slice()).map(|o| o.map(|v| v.to_vec()))
}

/// Relies on sled::Tree::contains_key: whether a value is stored under `key`.
#[verifier::external_body]
pub(crate) fn db_contains_key(db: &sled::Db, key: &Vec<u8>) -> (r: Result<bool, sled::Error>)
    ensures
        r matches Ok(b) ==> b == db_contents(*db).contains_key(key@),
{
    db.contains_key(key.as_slice())
}

/// Relies on sled::Tree::apply_batch: on success every write of the batch has been
/// made, and nothing else has changed.
#[verifier::external_body]
pub(crate) fn db_apply_batch(db: &mut sled::Db, batch: sled::Batch) -> (r: Result<(), sled::Error>)
    ensures
        r is Ok ==> db_contents(*final(db)) == applied(db_contents(*old(db)), batch_writes(batch)),
{
    db.apply_batch(batch)
}

/// Relies on sled::Batch's `Default`: a batch with no writes.
#[verifier::external_body]
pub(crate) fn batch_new() -> (r: sled::Batch)
    ensures
        batch_writes(r) == no_writes(),
{
    sled::Batch::default()
}

/// Relies on sled::Batch::insert: records that `key` is to hold `value`.
#[verifier::external_body]
pub(crate) fn batch_insert(b: &mut sled::Batch, key: &Vec<u8>, value: &Vec<u8>)
    ensures
        batch_writes(*final(b)) == batch_writes(*old(b)).insert(key@, Some(value@)),
{
    b.insert(key.as_slice(), value.as_slice())
}

/// Relies on sled::Batch::remove: records that `key` is to be removed.
#[verifier::external_body]
pub(crate) fn batch_remove(b: &mut sled::Batch, key: &Vec<u8>)
    ensures
        batch_writes(*final(b)) == batch_writes(*old(b)).insert(key@, None),
{
    b.remove(key.as_slice())
}

} // verus!
