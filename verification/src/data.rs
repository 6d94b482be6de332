//! The recorded data: memory blocks, heap snapshots and benchmark records.

use vstd::prelude::*;

verus! {

/// One contiguous region of the simulated heap.
#[derive(Debug, Clone, PartialEq, Eq)]
pub struct BlockState {
    /// Identifier of the block, compared for equality only.
    pub addr: String,
    /// Size of the block in bytes.
    pub size: usize,
    /// Whether the block is free.
    pub is_free: bool,
}

/// Mathematical model of a [`BlockState`].
pub struct BlockView {
    pub addr: Seq<char>,
    pub size: nat,
    pub is_free: bool,
}

impl View for BlockState {
    type V = BlockView;

    open spec fn view(&self) -> BlockView {
        BlockView { addr: self.addr@, size: self.size as nat, is_free: self.is_free }
    }
}

/// One snapshot of the heap. The order of `blocks` is the order in which they
/// are laid out, left to right.
#[derive(Debug, Clone, PartialEq, Eq)]
pub struct HeapStep {
    /// Ordinal of the snapshot in the recording.
    pub step: usize,
    /// Name of the allocator strategy.
    pub algo: String,
    /// The operation that led to this snapshot.
    pub op: String,
    /// Address of the block that the snapshot draws attention to.
    pub highlight: String,
    /// The blocks of the heap, in layout order.
    pub blocks: Vec<BlockState>,
}

/// Mathematical model of a [`HeapStep`].
pub struct HeapStepView {
    pub step: nat,
    pub algo: Seq<char>,
    pub op: Seq<char>,
    pub highlight: Seq<char>,
    pub blocks: Seq<BlockView>,
}

impl View for HeapStep {
    type V = HeapStepView;

    open spec fn view(&self) -> HeapStepView {
        HeapStepView {
            step: self.step as nat,
            algo: self.algo@,
            op: self.op@,
            highlight: self.highlight@,
            blocks: views(self.blocks@),
        }
    }
}

/// One benchmark record. The elapsed time is held in whole milliseconds.
#[derive(Debug, Clone, PartialEq, Eq)]
pub struct BenchmarkResult {
    /// Name of the allocator strategy.
    pub name: String,
    /// Elapsed time in milliseconds.
    pub time_ms: u64,
    /// Number of blocks at the end of the run.
    pub total_blocks: u64,
}

/// Mathematical model of a [`BenchmarkResult`].
pub struct BenchmarkView {
    pub name: Seq<char>,
    pub time_ms: nat,
    pub total_blocks: nat,
}

impl View for BenchmarkResult {
    type V = BenchmarkView;

    open spec fn view(&self) -> BenchmarkView {
        BenchmarkView {
            name: self.name@,
            time_ms: self.time_ms as nat,
            total_blocks: self.total_blocks as nat,
        }
    }
}

/// The models of the elements of `s`, in order.
pub open spec fn views<T: View>(s: Seq<T>) -> Seq<T::V> {
    Seq::new(s.len(), |i: int| s[i]@)
}

} // verus!
