//! The parts of a query plan that a streaming top-N node is built from.

use fixedbitset::FixedBitSet;
use vstd::prelude::*;
use crate::bitset::bitset_bits;

verus! {

/// Direction in which a column is ordered.
#[derive(Debug, Clone, Copy, PartialEq, Eq, Structural)]
pub enum Direction {
    Asc,
    Desc,
    Any,
}

/// One column of an ordering.
#[derive(Debug, Clone, Copy, PartialEq, Eq, Structural)]
pub struct FieldOrder {
    /// Index of the column in the schema of the input.
    pub index: usize,
    pub direct: Direction,
}

/// An ordering over the columns of a plan, most significant column first.
#[derive(Debug)]
pub struct Order {
    pub field_order: Vec<FieldOrder>,
}

impl Order {
    /// Returns a copy of the ordering.
    pub fn duplicate(&self) -> (copy: Order)
        ensures
            copy.field_order@ == self.field_order@,
    {
        Order { field_order: copy_of(&self.field_order) }
    }
}

/// Copies a list of plain values.
pub fn copy_of<T: Copy>(items: &Vec<T>) -> (copy: Vec<T>)
    ensures
        copy@ == items@,
{
    let mut copy: Vec<T> = Vec::new();
    let mut i: usize = 0;
    while i < items.len()
        invariant
            i <= items.len(),
            copy@ == items@.take(i as int),
        decreases items.len() - i,
    {
        copy.push(items[i]);
        proof {
            assert(items@.take(i + 1) == items@.take(i as int).push(items@[i as int]));
        }
        i += 1;
    }
    proof {
        assert(items@.take(i as int) == items@);
    }
    copy
}

/// How the rows of a plan are spread over the workers.
#[derive(Debug, Clone, Copy, PartialEq, Eq, Structural)]
pub enum Distribution {
    /// All rows on one worker.
    Single,
    /// Every row on every worker.
    Broadcast,
    /// Rows spread by a hash of some columns.
    HashShard,
    /// Rows spread in a way that is not known.
    SomeShard,
}

/// What a node reads of the plan below it.
#[derive(Debug)]
pub struct PlanInput {
    /// Number of columns of the schema.
    pub schema_len: usize,
    /// Columns that identify a row.
    pub logical_pk: Vec<usize>,
    pub distribution: Distribution,
    /// Whether the plan only ever inserts rows.
    pub append_only: bool,
}

impl PlanInput {
    /// Returns a copy of the input.
    pub fn duplicate(&self) -> (copy: PlanInput)
        ensures
            copy.schema_len == self.schema_len,
            copy.logical_pk@ == self.logical_pk@,
            copy.distribution == self.distribution,
            copy.append_only == self.append_only,
    {
        PlanInput {
            schema_len: self.schema_len,
            logical_pk: copy_of(&self.logical_pk),
            distribution: self.distribution,
            append_only: self.append_only,
        }
    }
}

/// The properties every stream node carries.
#[derive(Debug)]
pub struct PlanBase {
    /// Number of columns of the schema.
    pub schema_len: usize,
    /// Columns that identify a row.
    pub logical_pk: Vec<usize>,
    pub dist: Distribution,
    /// Whether the node only ever inserts rows.
    pub append_only: bool,
    /// One bit per column, set where the column carries a watermark.
    pub watermark_columns: FixedBitSet,
}

impl PlanBase {
    /// The watermark bits of the columns, one per column.
    pub open spec fn watermark_bits(&self) -> Seq<bool> {
        bitset_bits(self.watermark_columns)
    }

    /// Builds the base of a stream node.
    pub fn new_stream(
        schema_len: usize,
        logical_pk: Vec<usize>,
        dist: Distribution,
        append_only: bool,
        watermark_columns: FixedBitSet,
    ) -> (base: PlanBase)
        ensures
            base.schema_len == schema_len,
            base.logical_pk@ == logical_pk@,
            base.dist == dist,
            base.append_only == append_only,
            base.watermark_bits() == bitset_bits(watermark_columns),
    {
        PlanBase { schema_len, logical_pk, dist, append_only, watermark_columns }
    }

    /// Number of columns the watermark bits cover.
    pub fn watermark_column_count(&self) -> (count: usize)
        ensures
            count == self.watermark_bits().len(),
    {
        self.watermark_columns.len()
    }

    /// Whether a column carries a watermark. A column outside the schema
    /// never does, whatever the set holds past its length.
    pub fn is_watermark_column(&self, column: usize) -> (carries: bool)
        ensures
            carries == (column < self.watermark_bits().len() && self.watermark_bits()[column as int]),
    {
        column < self.watermark_columns.len() && self.watermark_columns.contains(column)
    }
}

/// A top-N over a plan: the rows from `offset` up to `offset + limit` in the
/// given order, per group where there is a group key.
#[derive(Debug)]
pub struct LogicalTopN {
    pub limit: u64,
    pub offset: u64,
    /// Whether rows that tie with the last row are kept too.
    pub with_ties: bool,
    pub order: Order,
    pub group_key: Vec<usize>,
    pub input: PlanInput,
}

impl LogicalTopN {
    /// The same top-N over another input.
    pub fn clone_with_input(&self, input: PlanInput) -> (copy: LogicalTopN)
        ensures
            copy.limit == self.limit,
            copy.offset == self.offset,
            copy.with_ties == self.with_ties,
            copy.order.field_order@ == self.order.field_order@,
            copy.group_key@ == self.group_key@,
            copy.input == input,
    {
        LogicalTopN {
            limit: self.limit,
            offset: self.offset,
            with_ties: self.with_ties,
            order: self.order.duplicate(),
            group_key: copy_of(&self.group_key),
            input,
        }
    }
}

} // verus!
