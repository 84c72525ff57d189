//! The streaming top-N node: finds the top N rows of its input with a heap.

use fixedbitset::FixedBitSet;
use vstd::prelude::*;
use crate::plan::{copy_of, Distribution, FieldOrder, LogicalTopN, Order, PlanBase, PlanInput};

verus! {

/// The body of a top-N node as it is sent to the workers.
#[derive(Debug)]
pub struct TopNNode {
    pub limit: u64,
    pub offset: u64,
    pub with_ties: bool,
    /// Identifier of the table that holds the state of the node.
    pub table_id: u32,
    pub order_by: Vec<FieldOrder>,
}

/// The two kinds of top-N node a worker runs.
#[derive(Debug)]
pub enum StreamNodeBody {
    /// For an input that only ever inserts rows.
    AppendOnlyTopN(TopNNode),
    /// For an input that may also delete rows.
    TopN(TopNNode),
}

impl StreamNodeBody {
    /// The top-N node inside, of whichever kind.
    pub open spec fn node(&self) -> TopNNode {
        match self {
            StreamNodeBody::AppendOnlyTopN(node) => *node,
            StreamNodeBody::TopN(node) => *node,
        }
    }
}

/// Hands out identifiers while a plan is turned into a graph of fragments.
#[derive(Debug)]
pub struct BuildFragmentGraphState {
    next_table_id: u32,
}

impl BuildFragmentGraphState {
    /// The identifier that is handed out next.
    pub closed spec fn spec_next_table_id(&self) -> u32 {
        self.next_table_id
    }

    /// A state that has handed out nothing yet.
    pub fn new() -> (state: BuildFragmentGraphState)
        ensures
            state.next_table_id() == 0,
    {
        BuildFragmentGraphState { next_table_id: 0 }
    }

    #[verifier::when_used_as_spec(spec_next_table_id)]
    pub fn next_table_id(&self) -> (id: u32)
        ensures
            id == self.spec_next_table_id(),
    {
        self.next_table_id
    }

    /// Hands out a fresh table identifier.
    pub fn gen_table_id(&mut self) -> (id: u32)
        requires
            old(self).next_table_id() < u32::MAX,
        ensures
            id == old(self).next_table_id(),
            final(self).next_table_id() == old(self).next_table_id() + 1,
    {
        let id: u32 = self.next_table_id;
        self.next_table_id = id + 1;
        id
    }
}

/// `StreamTopN` implements a [`LogicalTopN`] to find the top N elements with
/// a heap.
#[derive(Debug)]
pub struct StreamTopN {
    pub base: PlanBase,
    logical: LogicalTopN,
}

impl StreamTopN {
    /// The top-N this node implements.
    pub closed spec fn spec_logical(&self) -> LogicalTopN {
        self.logical
    }

    /// The properties of the node as a stream node.
    pub closed spec fn spec_base(&self) -> PlanBase {
        self.base
    }

    /// What `new` asks of a top-N: no group key, a limit above zero, and an
    /// input that lives on a single worker.
    pub open spec fn accepts(logical: &LogicalTopN) -> bool {
        &&& logical.group_key@.len() == 0
        &&& logical.limit > 0
        &&& logical.input.distribution == Distribution::Single
    }

    /// A node is well formed when its top-N is one that `new` accepts and its
    /// base is the one `new` derives from it.
    pub open spec fn wf(&self) -> bool {
        &&& StreamTopN::accepts(&self.spec_logical())
        &&& self.spec_base().schema_len == self.spec_logical().input.schema_len
        &&& self.spec_base().logical_pk@ == self.spec_logical().input.logical_pk@
        &&& self.spec_base().dist == Distribution::Single
        &&& !self.spec_base().append_only
        &&& self.spec_base().watermark_bits() == Seq::new(
            self.spec_logical().input.schema_len as nat,
            |i: int| false,
        )
    }

    /// Builds the stream node for an ungrouped top-N over a single-worker
    /// input. The node keeps the schema and the key of its input, is not
    /// append-only, and none of its columns carries a watermark.
    pub fn new(logical: LogicalTopN) -> (node: StreamTopN)
        requires
            StreamTopN::accepts(&logical),
        ensures
            node.spec_logical() == logical,
            node.wf(),
    {
        let dist: Distribution = logical.input.distribution;
        let watermark_columns: FixedBitSet = FixedBitSet::with_capacity(logical.input.schema_len);
        let base: PlanBase = PlanBase::new_stream(
            logical.input.schema_len,
            copy_of(&logical.input.logical_pk),
            dist,
            false,
            watermark_columns,
        );
        StreamTopN { base, logical }
    }

    /// The properties of the node as a stream node.
    pub fn plan_base(&self) -> (base: &PlanBase)
        ensures
            *base == self.spec_base(),
    {
        &self.base
    }

    pub fn limit(&self) -> (limit: u64)
        ensures
            limit == self.spec_logical().limit,
    {
        self.logical.limit
    }

    pub fn offset(&self) -> (offset: u64)
        ensures
            offset == self.spec_logical().offset,
    {
        self.logical.offset
    }

    pub fn with_ties(&self) -> (with_ties: bool)
        ensures
            with_ties == self.spec_logical().with_ties,
    {
        self.logical.with_ties
    }

    pub fn topn_order(&self) -> (order: &Order)
        ensures
            *order == self.spec_logical().order,
    {
        &self.logical.order
    }

    /// The plan below the node.
    pub fn input(&self) -> (input: PlanInput)
        ensures
            input.schema_len == self.spec_logical().input.schema_len,
            input.logical_pk@ == self.spec_logical().input.logical_pk@,
            input.distribution == self.spec_logical().input.distribution,
            input.append_only == self.spec_logical().input.append_only,
    {
        self.logical.input.duplicate()
    }

    /// The same node over another input.
    pub fn clone_with_input(&self, input: PlanInput) -> (node: StreamTopN)
        requires
            StreamTopN::accepts(&self.spec_logical()),
            input.distribution == Distribution::Single,
        ensures
            node.wf(),
            node.spec_logical().input == input,
            node.spec_logical().limit == self.spec_logical().limit,
            node.spec_logical().offset == self.spec_logical().offset,
            node.spec_logical().with_ties == self.spec_logical().with_ties,
            node.spec_logical().order.field_order@ == self.spec_logical().order.field_order@,
    {
        StreamTopN::new(self.logical.clone_with_input(input))
    }

    /// The name the node is shown under: one for an append-only input,
    /// another for the rest.
    pub fn display_name(&self) -> (name: &'static str)
        ensures
            name@ == if self.spec_logical().input.append_only {
                "StreamAppendOnlyTopN"@
            } else {
                "StreamTopN"@
            },
    {
        if self.logical.input.append_only {
            "StreamAppendOnlyTopN"
        } else {
            "StreamTopN"
        }
    }

    /// Turns the node into the body that is sent to the workers, with a
    /// fresh table for its state: the append-only kind for an append-only
    /// input, the general kind otherwise.
    pub fn to_stream_prost_body(&self, state: &mut BuildFragmentGraphState) -> (body: StreamNodeBody)
        requires
            old(state).next_table_id() < u32::MAX,
        ensures
            final(state).next_table_id() == old(state).next_table_id() + 1,
            body is AppendOnlyTopN <==> self.spec_logical().input.append_only,
            body.node().limit == self.spec_logical().limit,
            body.node().offset == self.spec_logical().offset,
            body.node().with_ties == self.spec_logical().with_ties,
            body.node().table_id == old(state).next_table_id(),
            body.node().order_by@ == self.spec_logical().order.field_order@,
    {
        let topn_node: TopNNode = TopNNode {
            limit: self.limit(),
            offset: self.offset(),
            with_ties: self.with_ties(),
            table_id: state.gen_table_id(),
            order_by: copy_of(&self.topn_order().field_order),
        };
        if self.logical.input.append_only {
            StreamNodeBody::AppendOnlyTopN(topn_node)
        } else {
            StreamNodeBody::TopN(topn_node)
        }
    }
}

} // verus!
