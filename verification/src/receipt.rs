//! What the block stream hands over for each receipt and each block.

use vstd::prelude::*;

verus! {

/// One operation of a receipt. Only calls of a contract's function matter here.
#[derive(Clone, Debug, PartialEq, Eq)]
pub enum Action {
    FunctionCall { method_name: String, args: Vec<u8> },
    /// Any other kind of action.
    Other,
}

/// The mathematical value of an [`Action`].
pub enum ActionView {
    FunctionCall { method_name: Seq<char>, args: Seq<u8> },
    Other,
}

impl View for Action {
    type V = ActionView;

    open spec fn view(&self) -> ActionView {
        match self {
            Action::FunctionCall { method_name, args } => ActionView::FunctionCall {
                method_name: method_name@,
                args: args@,
            },
            Action::Other => ActionView::Other,
        }
    }
}

/// How the execution of a receipt ended.
#[derive(Clone, Debug, PartialEq, Eq)]
pub enum ExecutionStatus {
    /// It succeeded and returned these bytes.
    SuccessValue(Vec<u8>),
    /// It succeeded and returned no value of its own.
    SuccessNoValue,
    /// It failed, or its end is not known.
    Failure,
}

/// The mathematical value of an [`ExecutionStatus`].
pub enum ExecutionStatusView {
    SuccessValue(Seq<u8>),
    SuccessNoValue,
    Failure,
}

impl View for ExecutionStatus {
    type V = ExecutionStatusView;

    open spec fn view(&self) -> ExecutionStatusView {
        match self {
            ExecutionStatus::SuccessValue(bytes) => ExecutionStatusView::SuccessValue(bytes@),
            ExecutionStatus::SuccessNoValue => ExecutionStatusView::SuccessNoValue,
            ExecutionStatus::Failure => ExecutionStatusView::Failure,
        }
    }
}

/// A receipt together with the outcome of its execution.
#[derive(Clone, Debug, PartialEq, Eq)]
pub struct Receipt {
    pub receipt_id: [u8; 32],
    pub receiver_id: String,
    pub predecessor_id: String,
    pub actions: Vec<Action>,
    pub status: ExecutionStatus,
}

/// The mathematical value of a [`Receipt`].
pub struct ReceiptView {
    pub receipt_id: Seq<u8>,
    pub receiver_id: Seq<char>,
    pub predecessor_id: Seq<char>,
    pub actions: Seq<ActionView>,
    pub status: ExecutionStatusView,
}

impl View for Receipt {
    type V = ReceiptView;

    open spec fn view(&self) -> ReceiptView {
        ReceiptView {
            receipt_id: self.receipt_id@,
            receiver_id: self.receiver_id@,
            predecessor_id: self.predecessor_id@,
            actions: self.actions@.map_values(|action: Action| action@),
            status: self.status@,
        }
    }
}

/// The part of a block's header that events carry.
#[derive(Clone, Copy, Debug, PartialEq, Eq)]
pub struct BlockHeader {
    pub height: u64,
    pub timestamp_nanosec: u64,
}

/// A receipt with the transaction that it came from.
#[derive(Clone, Debug, PartialEq, Eq)]
pub struct BlockReceipt {
    pub transaction_id: [u8; 32],
    pub receipt: Receipt,
}

/// The mathematical value of a [`BlockReceipt`].
pub struct BlockReceiptView {
    pub transaction_id: Seq<u8>,
    pub receipt: ReceiptView,
}

impl View for BlockReceipt {
    type V = BlockReceiptView;

    open spec fn view(&self) -> BlockReceiptView {
        BlockReceiptView { transaction_id: self.transaction_id@, receipt: self.receipt@ }
    }
}

/// A block: its header and the receipts executed in it, in their order.
#[derive(Clone, Debug, PartialEq, Eq)]
pub struct Block {
    pub header: BlockHeader,
    pub receipts: Vec<BlockReceipt>,
}

/// The mathematical value of a [`Block`].
pub struct BlockView {
    pub header: BlockHeader,
    pub receipts: Seq<BlockReceiptView>,
}

impl View for Block {
    type V = BlockView;

    open spec fn view(&self) -> BlockView {
        BlockView {
            header: self.header,
            receipts: self.receipts@.map_values(|receipt: BlockReceipt| receipt@),
        }
    }
}

/// The views of a list of blocks, in the list's order.
pub open spec fn block_views(blocks: Seq<Block>) -> Seq<BlockView> {
    blocks.map_values(|block: Block| block@)
}

} // verus!
