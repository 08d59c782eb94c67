//! A specification of the behavior of a block of the commitment tree: a sequence of
//! commitments, each either kept (witnessed) or forgotten down to its hash.

use vstd::prelude::*;

verus! {

/// The most commitments that one block holds: a tier of eight levels of fan-out four.
pub const TIER_CAPACITY: usize = 65536;

/// A note commitment.
#[derive(Clone, Copy, Debug, PartialEq, Eq)]
pub struct Commitment(pub [u8; 32]);

/// The position of an item within its block: how many items precede it.
#[derive(Clone, Copy, Debug, PartialEq, Eq, Structural)]
pub struct Position(pub u16);

/// The hash of a commitment. A forgotten commitment is represented by its hash alone; this
/// specification records which commitment the hash was taken of, and leaves computing the
/// hash itself to the tree.
#[derive(Clone, Copy, Debug, PartialEq, Eq)]
pub struct Hash {
    commitment: Commitment,
}

/// The hash of `commitment`.
pub closed spec fn hash_of(commitment: Commitment) -> Hash {
    Hash { commitment }
}

impl Hash {
    /// The hash of `commitment`.
    pub fn of(commitment: Commitment) -> (hash: Hash)
        ensures
            hash == hash_of(commitment),
    {
        Hash { commitment }
    }
}

/// Whether to keep a commitment so that it can later be witnessed, or to forget it.
#[derive(Clone, Copy, Debug, PartialEq, Eq, Structural)]
pub enum Witness {
    Keep,
    Forget,
}

/// An item of a block: either a kept item, or the hash of a forgotten one.
#[derive(Clone, Copy, Debug, PartialEq, Eq)]
pub enum Insert<T> {
    Keep(T),
    Hash(Hash),
}

/// Why an insertion failed.
#[derive(Clone, Copy, Debug, PartialEq, Eq, Structural)]
pub enum InsertError {
    /// The block already holds [`TIER_CAPACITY`] items.
    BlockFull,
}

/// A builder for a block: a sequence of [`Commitment`]s.
#[derive(Clone, Debug, PartialEq, Eq)]
pub struct Builder {
    /// The inner tiers of the builder.
    pub block: Vec<Insert<Commitment>>,
}

/// The item that inserting `commitment` with `witness` adds.
pub open spec fn inserted_item(witness: Witness, commitment: Commitment) -> Insert<Commitment> {
    match witness {
        Witness::Keep => Insert::Keep(commitment),
        Witness::Forget => Insert::Hash(hash_of(commitment)),
    }
}

/// The items of a block after inserting `commitment` with `witness`, or why that fails.
pub open spec fn block_after_insert(
    block: Seq<Insert<Commitment>>,
    witness: Witness,
    commitment: Commitment,
) -> Result<Seq<Insert<Commitment>>, InsertError> {
    if block.len() >= TIER_CAPACITY {
        Err(InsertError::BlockFull)
    } else {
        Ok(block.push(inserted_item(witness, commitment)))
    }
}

impl Builder {
    /// An empty block.
    pub fn new() -> (builder: Builder)
        ensures
            builder.block@.len() == 0,
    {
        Builder { block: Vec::new() }
    }

    /// Insert a new [`Commitment`] into the block, returning its [`Position`] if
    /// successful, or fail, changing nothing, if the block is full.
    pub fn insert(&mut self, witness: Witness, commitment: Commitment) -> (result: Result<
        Position,
        InsertError,
    >)
        ensures
            match block_after_insert(old(self).block@, witness, commitment) {
                Ok(block) => result == Ok::<Position, InsertError>(
                    Position(old(self).block@.len() as u16),
                ) && final(self).block@ == block,
                Err(e) => result == Err::<Position, InsertError>(e) && final(self).block@ == old(
                    self,
                ).block@,
            },
    {
        let insert = match witness {
            Witness::Keep => Insert::Keep(commitment),
            Witness::Forget => Insert::Hash(Hash::of(commitment)),
        };

        // Fail if block is full
        if self.block.len() >= TIER_CAPACITY {
            return Err(InsertError::BlockFull);
        }

        // The new item goes after every item already in the block
        let position = Position(self.block.len() as u16);

        // Insert the item into the block
        self.block.push(insert);

        Ok(position)
    }
}

impl Default for Builder {
    /// An empty block.
    fn default() -> (builder: Builder)
        ensures
            builder.block@.len() == 0,
    {
        Builder::new()
    }
}

/// No sequence of insertions takes a block past its capacity.
pub proof fn lemma_insert_keeps_capacity(
    block: Seq<Insert<Commitment>>,
    witness: Witness,
    commitment: Commitment,
)
    requires
        block.len() <= TIER_CAPACITY,
    ensures
        match block_after_insert(block, witness, commitment) {
            Ok(after) => after.len() <= TIER_CAPACITY,
            Err(_) => true,
        },
{
}

/// An insertion fails exactly when the block is full, and otherwise keeps every earlier
/// item in place and adds one item at the end.
pub proof fn lemma_insert_appends(
    block: Seq<Insert<Commitment>>,
    witness: Witness,
    commitment: Commitment,
)
    ensures
        (block_after_insert(block, witness, commitment) is Err) <==> block.len() >= TIER_CAPACITY,
        block_after_insert(block, witness, commitment) matches Ok(after) ==> {
            &&& after.len() == block.len() + 1
            &&& after.take(block.len() as int) == block
            &&& after.last() == inserted_item(witness, commitment)
        },
{
    if let Ok(after) = block_after_insert(block, witness, commitment) {
        assert(after.take(block.len() as int) =~= block);
    }
}

/// Inserting into a block with room puts exactly the given commitment at the end: kept as
/// itself, or forgotten down to its own hash (the value [`Hash::of`] gives for it).
pub proof fn lemma_insert_stores_commitment(
    block: Seq<Insert<Commitment>>,
    commitment: Commitment,
)
    requires
        block.len() < TIER_CAPACITY,
    ensures
        block_after_insert(block, Witness::Keep, commitment) == Ok::<
            Seq<Insert<Commitment>>,
            InsertError,
        >(block.push(Insert::Keep(commitment))),
        block_after_insert(block, Witness::Forget, commitment) == Ok::<
            Seq<Insert<Commitment>>,
            InsertError,
        >(block.push(Insert::Hash(hash_of(commitment)))),
{
}

/// Different commitments give different blocks: inserting two commitments with the same
/// witness into the same block gives equal blocks only if the commitments are equal, and
/// a kept item never equals a forgotten one.
pub proof fn lemma_insert_distinguishes_commitments(
    block: Seq<Insert<Commitment>>,
    witness: Witness,
    a: Commitment,
    b: Commitment,
)
    requires
        block.len() < TIER_CAPACITY,
        block_after_insert(block, witness, a) == block_after_insert(block, witness, b),
    ensures
        a == b,
        block_after_insert(block, Witness::Keep, a) != block_after_insert(block, Witness::Forget, b),
{
    let after_a = block.push(inserted_item(witness, a));
    let after_b = block.push(inserted_item(witness, b));
    assert(after_a.last() == inserted_item(witness, a));
    assert(after_b.last() == inserted_item(witness, b));
    let keep = block.push(Insert::Keep(a));
    let forget = block.push(Insert::Hash(hash_of(b)));
    assert(keep.last() != forget.last());
}

} // verus!
