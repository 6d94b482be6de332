//! The memory-map layout engine: from an ordered list of blocks and a number
//! of columns to the horizontal span of each block that is drawn.
//!
//! Every block asks for a share of the columns in proportion to its size,
//! rounded to the nearest column and never less than one. Blocks are packed
//! from the left edge in order. A block that would reach past the right edge is
//! cut to the columns that are left, and once no column is left the remaining
//! blocks are not drawn.

use vstd::prelude::*;
use vstd::arithmetic::div_mod::lemma_fundamental_div_mod;
use vstd::arithmetic::div_mod::lemma_fundamental_div_mod_converse;
use crate::data::BlockState;
use crate::data::BlockView;
use crate::data::views;

verus! {

/// A block is labelled with its size only if it is wider than this.
pub const LABEL_MIN_WIDTH: u16 = 4;

/// The horizontal span and the attributes of one drawn block.
#[derive(Debug, Clone, Copy, PartialEq, Eq, Structural)]
pub struct BlockSpan {
    /// Columns between the left edge of the map and the block.
    pub offset: u16,
    /// Columns taken by the block, at least one.
    pub width: u16,
    /// Whether the block is free.
    pub is_free: bool,
    /// Whether the block's address is the highlighted one.
    pub highlighted: bool,
    /// Whether the block is wide enough to carry its size as a label.
    pub labeled: bool,
}

/// The layout of one step's blocks.
#[derive(Debug, Clone)]
pub struct MapLayout {
    /// The drawn blocks. The span at position `i` belongs to block `i`.
    pub spans: Vec<BlockSpan>,
    /// Sum of the sizes of all blocks, drawn or not.
    pub total_size: u128,
    /// Number of blocks, drawn or not.
    pub block_count: usize,
}

/// Sum of the sizes of `blocks`.
pub open spec fn total_size(blocks: Seq<BlockView>) -> nat
    decreases blocks.len(),
{
    if blocks.len() == 0 {
        0
    } else {
        total_size(blocks.drop_last()) + blocks.last().size
    }
}

/// `size / total * width` rounded to the nearest integer, a half rounding up.
pub open spec fn rounded_share(size: nat, total: nat, width: nat) -> nat
    recommends
        total > 0,
{
    (2 * size * width + total) / (2 * total)
}

/// The columns that a block of `size` asks for: its rounded share, but at
/// least one.
pub open spec fn proportional_width(size: nat, total: nat, width: nat) -> nat
    recommends
        total > 0,
{
    if rounded_share(size, total, width) < 1 {
        1
    } else {
        rounded_share(size, total, width)
    }
}

/// Sum of the widths that the first `i` blocks ask for.
pub open spec fn natural_offset(blocks: Seq<BlockView>, width: nat, i: nat) -> nat
    decreases i,
{
    if i == 0 {
        0
    } else {
        natural_offset(blocks, width, (i - 1) as nat) + proportional_width(
            blocks[i - 1].size,
            total_size(blocks),
            width,
        )
    }
}

/// Index of the first block at or after `i` that finds no column left, or the
/// number of blocks if there is none.
pub open spec fn first_hidden(blocks: Seq<BlockView>, width: nat, i: nat) -> nat
    decreases blocks.len() - i,
{
    if i < blocks.len() && natural_offset(blocks, width, i) < width {
        first_hidden(blocks, width, i + 1)
    } else {
        i
    }
}

/// Number of blocks that are drawn: none if the sizes sum to zero, else the
/// blocks before the first that finds no column left.
pub open spec fn drawn_count(blocks: Seq<BlockView>, width: nat) -> nat {
    if total_size(blocks) == 0 {
        0
    } else {
        first_hidden(blocks, width, 0)
    }
}

/// Columns given to block `i`: what it asks for, cut at the right edge.
pub open spec fn clamped_width(blocks: Seq<BlockView>, width: nat, i: int) -> nat {
    let offset = natural_offset(blocks, width, i as nat);
    let wanted = proportional_width(blocks[i].size, total_size(blocks), width);
    if offset + wanted > width {
        (width - offset) as nat
    } else {
        wanted
    }
}

/// The span of block `i`, for a block that is drawn.
pub open spec fn span_at(blocks: Seq<BlockView>, highlight: Seq<char>, width: nat, i: int)
    -> BlockSpan {
    BlockSpan {
        offset: natural_offset(blocks, width, i as nat) as u16,
        width: clamped_width(blocks, width, i) as u16,
        is_free: blocks[i].is_free,
        highlighted: blocks[i].addr == highlight,
        labeled: clamped_width(blocks, width, i) > LABEL_MIN_WIDTH,
    }
}

/// The spans of the drawn blocks, in order.
pub open spec fn spans_of(blocks: Seq<BlockView>, highlight: Seq<char>, width: nat) -> Seq<
    BlockSpan,
> {
    Seq::new(drawn_count(blocks, width), |i: int| span_at(blocks, highlight, width, i))
}

/// No block is larger than the sum of all of them.
pub proof fn lemma_size_at_most_total(blocks: Seq<BlockView>, i: int)
    requires
        0 <= i < blocks.len(),
    ensures
        blocks[i].size <= total_size(blocks),
    decreases blocks.len(),
{
    if i < blocks.len() - 1 {
        lemma_size_at_most_total(blocks.drop_last(), i);
    }
}

/// The rounded share is the quotient of `size * width` by `total`, plus one
/// where twice the remainder reaches `total`.
pub proof fn lemma_rounded_share_by_remainder(size: nat, total: nat, width: nat)
    requires
        total > 0,
    ensures
        rounded_share(size, total, width) == (size * width) / total + (if 2 * ((size * width)
            % total) >= total {
            1nat
        } else {
            0nat
        }),
{
    let scaled = (size * width) as int;
    let t = total as int;
    let q = scaled / t;
    let r = scaled % t;
    lemma_fundamental_div_mod(scaled, t);
    assert(2 * size * width == 2 * scaled) by (nonlinear_arith)
        requires
            scaled == size * width,
    ;
    if 2 * r >= t {
        assert((q + 1) * (2 * t) + (2 * r - t) == 2 * scaled + t) by (nonlinear_arith)
            requires
                scaled == t * q + r,
        ;
        lemma_fundamental_div_mod_converse(2 * scaled + t, 2 * t, q + 1, 2 * r - t);
    } else {
        assert(q * (2 * t) + (2 * r + t) == 2 * scaled + t) by (nonlinear_arith)
            requires
                scaled == t * q + r,
        ;
        lemma_fundamental_div_mod_converse(2 * scaled + t, 2 * t, q, 2 * r + t);
    }
}

/// The rounded share is the integer nearest to `size * width / total`: it
/// lies no more than a half away, and where two integers are as near, it is
/// the larger.
pub proof fn lemma_rounded_share_is_nearest(size: nat, total: nat, width: nat)
    requires
        total > 0,
    ensures
        2 * size * width - total < 2 * total * rounded_share(size, total, width) <= 2 * size
            * width + total,
{
    let x = (2 * size * width + total) as int;
    let d = (2 * total) as int;
    lemma_fundamental_div_mod(x, d);
    assert(2 * total * rounded_share(size, total, width) == d * (x / d)) by (nonlinear_arith)
        requires
            d == 2 * total,
            rounded_share(size, total, width) == x / d,
    ;
}

/// A block no larger than the total asks for no more than all the columns, or
/// for one where there is none.
pub proof fn lemma_proportional_width_bounds(size: nat, total: nat, width: nat)
    requires
        total > 0,
        size <= total,
    ensures
        1 <= proportional_width(size, total, width),
        rounded_share(size, total, width) <= width,
        proportional_width(size, total, width) <= width || proportional_width(size, total, width)
            == 1,
{
    let x = (2 * size * width + total) as int;
    let d = (2 * total) as int;
    assert(x < (width + 1) * d) by (nonlinear_arith)
        requires
            x == 2 * size * width + total,
            d == 2 * total,
            size <= total,
            total > 0,
    ;
    assert(x / d <= width) by (nonlinear_arith)
        requires
            x < (width + 1) * d,
            d > 0,
            x >= 0,
    ;
}

/// The columns that a block of `size` takes out of `width` when all blocks
/// together have size `total`: `size / total * width` rounded to the nearest
/// column, and one where that is zero.
pub fn block_width(size: usize, total: u128, width: u16) -> (w: u16)
    requires
        total > 0,
        size <= total,
    ensures
        w == proportional_width(size as nat, total as nat, width as nat),
{
    assert((size as u128) * (width as u128) <= 0xffff_ffff_ffff_ffff * 0xffff) by (nonlinear_arith)
        requires
            size <= 0xffff_ffff_ffff_ffff,
            width <= 0xffff,
    ;
    let scaled: u128 = (size as u128) * (width as u128);
    let quotient: u128 = scaled / total;
    let remainder: u128 = scaled % total;
    proof {
        lemma_rounded_share_by_remainder(size as nat, total as nat, width as nat);
        lemma_proportional_width_bounds(size as nat, total as nat, width as nat);
    }
    let rounded: u128 = if remainder >= total - remainder {
        quotient + 1
    } else {
        quotient
    };
    if rounded < 1 {
        1
    } else {
        rounded as u16
    }
}

/// Sum of the sizes of `blocks`. It cannot overflow: a vector holds fewer
/// than 2^64 blocks, each smaller than 2^64.
pub fn sum_sizes(blocks: &Vec<BlockState>) -> (total: u128)
    ensures
        total == total_size(views(blocks@)),
{
    let ghost all = views(blocks@);
    let mut total: u128 = 0;
    let mut i: usize = 0;
    while i < blocks.len()
        invariant
            i <= blocks.len(),
            all == views(blocks@),
            total == total_size(all.take(i as int)),
            total <= i * 0xffff_ffff_ffff_ffff,
        decreases blocks.len() - i,
    {
        proof {
            assert(all.take(i + 1).drop_last() =~= all.take(i as int));
            assert((i + 1) * 0xffff_ffff_ffff_ffff <= 0xffff_ffff_ffff_ffff * 0xffff_ffff_ffff_ffff)
                by (nonlinear_arith)
                requires
                    i + 1 <= 0xffff_ffff_ffff_ffff,
            ;
        }
        total = total + blocks[i].size as u128;
        i = i + 1;
    }
    proof {
        assert(all.take(i as int) =~= all);
    }
    total
}

/// Sum of the widths of `spans`.
pub open spec fn drawn_width(spans: Seq<BlockSpan>) -> nat
    decreases spans.len(),
{
    if spans.len() == 0 {
        0
    } else {
        drawn_width(spans.drop_last()) + spans.last().width as nat
    }
}

/// Whether `spans` are packed from the left edge into `width` columns: the
/// first starts at the edge, each next one where its predecessor ends, each
/// takes at least one column, and none reaches past the right edge.
pub open spec fn packed(spans: Seq<BlockSpan>, width: nat) -> bool {
    &&& spans.len() > 0 ==> spans[0].offset == 0
    &&& forall|i: int| 0 <= i < spans.len() ==> (#[trigger] spans[i]).width >= 1
    &&& forall|i: int|
        0 <= i < spans.len() ==> (#[trigger] spans[i]).offset + spans[i].width <= width
    &&& forall|i: int|
        0 <= i < spans.len() - 1 ==> (#[trigger] spans[i + 1]).offset == spans[i].offset
            + spans[i].width
}

/// Every block before the first hidden one exists and finds a column left.
pub proof fn lemma_drawn_block_fits(blocks: Seq<BlockView>, width: nat, start: nat, i: nat)
    requires
        start <= i < first_hidden(blocks, width, start),
    ensures
        i < blocks.len(),
        natural_offset(blocks, width, i) < width,
    decreases i - start,
{
    if i > start {
        lemma_drawn_block_fits(blocks, width, start + 1, i);
    }
}

/// The first hidden block is never beyond the end of the list.
pub proof fn lemma_first_hidden_bounds(blocks: Seq<BlockView>, width: nat, start: nat)
    requires
        start <= blocks.len(),
    ensures
        start <= first_hidden(blocks, width, start) <= blocks.len(),
    decreases blocks.len() - start,
{
    if start < blocks.len() && natural_offset(blocks, width, start) < width {
        lemma_first_hidden_bounds(blocks, width, start + 1);
    }
}

/// Each block asks for at least one column, so block `i` starts at column `i`
/// or later.
pub proof fn lemma_natural_offset_grows(blocks: Seq<BlockView>, width: nat, i: nat)
    ensures
        i <= natural_offset(blocks, width, i),
    decreases i,
{
    if i > 0 {
        lemma_natural_offset_grows(blocks, width, (i - 1) as nat);
    }
}

/// The drawn blocks are packed into the columns: each is at least one column
/// wide, they follow one another from the left edge without gap or overlap,
/// none reaches past the right edge, and there are no more of them than blocks
/// or columns. Nothing is drawn where the sizes sum to zero.
pub proof fn lemma_spans_packed(blocks: Seq<BlockView>, highlight: Seq<char>, width: nat)
    requires
        width <= u16::MAX,
    ensures
        packed(spans_of(blocks, highlight, width), width),
        spans_of(blocks, highlight, width).len() <= blocks.len(),
        spans_of(blocks, highlight, width).len() <= width,
        total_size(blocks) == 0 ==> spans_of(blocks, highlight, width).len() == 0,
{
    let spans = spans_of(blocks, highlight, width);
    if total_size(blocks) > 0 {
        lemma_first_hidden_bounds(blocks, width, 0);
        assert forall|i: int| 0 <= i < spans.len() implies {
            &&& (#[trigger] spans[i]).offset == natural_offset(blocks, width, i as nat)
            &&& spans[i].width == clamped_width(blocks, width, i)
            &&& spans[i].width >= 1
            &&& spans[i].offset + spans[i].width <= width
            &&& i < width
            &&& i + 1 < spans.len() ==> natural_offset(blocks, width, (i + 1) as nat)
                == spans[i].offset + spans[i].width
        } by {
            lemma_drawn_block_fits(blocks, width, 0, i as nat);
            lemma_natural_offset_grows(blocks, width, i as nat);
            if i + 1 < spans.len() {
                lemma_drawn_block_fits(blocks, width, 0, (i + 1) as nat);
            }
        }
        assert forall|i: int| 0 <= i < spans.len() - 1 implies (#[trigger] spans[i + 1]).offset
            == spans[i].offset + spans[i].width by {
            assert(spans[i].offset == natural_offset(blocks, width, i as nat));
        }
        if spans.len() > 0 {
            assert(spans[spans.len() - 1].offset == natural_offset(
                blocks,
                width,
                (spans.len() - 1) as nat,
            ));
        }
    }
}

/// The widths of packed spans sum to the column where the last one ends.
pub proof fn lemma_drawn_width_of_packed(spans: Seq<BlockSpan>, width: nat)
    requires
        packed(spans, width),
    ensures
        drawn_width(spans) <= width,
        spans.len() > 0 ==> drawn_width(spans) == spans.last().offset + spans.last().width,
    decreases spans.len(),
{
    if spans.len() > 0 {
        let rest = spans.drop_last();
        assert forall|i: int| 0 <= i < rest.len() - 1 implies (#[trigger] rest[i + 1]).offset
            == rest[i].offset + rest[i].width by {
            assert(rest[i + 1] == spans[i + 1]);
        }
        assert(packed(rest, width));
        lemma_drawn_width_of_packed(rest, width);
        if rest.len() > 0 {
            assert(spans[rest.len() - 1 + 1].offset == spans[rest.len() - 1].offset + spans[rest.len()
                - 1].width);
        }
    }
}

/// The drawn blocks never take more columns than there are.
pub proof fn lemma_drawn_width_fits(blocks: Seq<BlockView>, highlight: Seq<char>, width: nat)
    requires
        width <= u16::MAX,
    ensures
        drawn_width(spans_of(blocks, highlight, width)) <= width,
{
    lemma_spans_packed(blocks, highlight, width);
    lemma_drawn_width_of_packed(spans_of(blocks, highlight, width), width);
}

/// A drawn block carries a label exactly if it is more than
/// [`LABEL_MIN_WIDTH`] columns wide.
pub proof fn lemma_label_fit(blocks: Seq<BlockView>, highlight: Seq<char>, width: nat)
    requires
        width <= u16::MAX,
    ensures
        forall|i: int|
            0 <= i < spans_of(blocks, highlight, width).len() ==> (#[trigger] spans_of(
                blocks,
                highlight,
                width,
            )[i]).labeled == (spans_of(blocks, highlight, width)[i].width > LABEL_MIN_WIDTH),
{
    let spans = spans_of(blocks, highlight, width);
    assert forall|i: int| 0 <= i < spans.len() implies (#[trigger] spans[i]).labeled == (
    spans[i].width > LABEL_MIN_WIDTH) by {
        if total_size(blocks) > 0 {
            lemma_drawn_block_fits(blocks, width, 0, i as nat);
        }
    }
}

/// A drawn block is highlighted exactly if its address is the highlighted
/// one.
pub proof fn lemma_highlight_by_address(blocks: Seq<BlockView>, highlight: Seq<char>, width: nat)
    ensures
        spans_of(blocks, highlight, width).len() <= blocks.len(),
        forall|i: int|
            0 <= i < spans_of(blocks, highlight, width).len() ==> (#[trigger] spans_of(
                blocks,
                highlight,
                width,
            )[i]).highlighted == (blocks[i].addr == highlight),
{
    if total_size(blocks) > 0 {
        lemma_first_hidden_bounds(blocks, width, 0);
    }
}

/// Where no block has the highlighted address, no drawn block is highlighted.
pub proof fn lemma_highlight_none(blocks: Seq<BlockView>, highlight: Seq<char>, width: nat)
    requires
        forall|j: int| 0 <= j < blocks.len() ==> (#[trigger] blocks[j]).addr != highlight,
    ensures
        forall|i: int|
            0 <= i < spans_of(blocks, highlight, width).len() ==> !(#[trigger] spans_of(
                blocks,
                highlight,
                width,
            )[i]).highlighted,
{
    lemma_highlight_by_address(blocks, highlight, width);
}

/// Where block `k` alone has the highlighted address, a drawn block is
/// highlighted exactly if it is block `k`.
pub proof fn lemma_highlight_unique(
    blocks: Seq<BlockView>,
    highlight: Seq<char>,
    width: nat,
    k: int,
)
    requires
        0 <= k < blocks.len(),
        forall|j: int|
            0 <= j < blocks.len() ==> ((#[trigger] blocks[j]).addr == highlight <==> j == k),
    ensures
        forall|i: int|
            0 <= i < spans_of(blocks, highlight, width).len() ==> ((#[trigger] spans_of(
                blocks,
                highlight,
                width,
            )[i]).highlighted <==> i == k),
{
    lemma_highlight_by_address(blocks, highlight, width);
}

/// Past a block that finds a column left, the first hidden block is looked
/// for from the next block on.
proof fn lemma_first_hidden_step(blocks: Seq<BlockView>, width: nat, i: nat)
    requires
        i < blocks.len(),
        natural_offset(blocks, width, i) < width,
    ensures
        first_hidden(blocks, width, i) == first_hidden(blocks, width, i + 1),
{
}

/// Lays the blocks out in `width` columns.
///
/// Nothing is drawn where the sizes sum to zero. Otherwise the blocks are
/// placed from the left edge in order, each with its proportional width cut at
/// the right edge, up to the first block that finds no column left.
pub fn layout_blocks(blocks: &Vec<BlockState>, highlight: &String, width: u16) -> (layout:
    MapLayout)
    ensures
        layout.spans@ == spans_of(views(blocks@), highlight@, width as nat),
        layout.total_size == total_size(views(blocks@)),
        layout.block_count == blocks.len(),
        total_size(views(blocks@)) == 0 ==> layout.spans@.len() == 0,
        layout.spans@.len() <= blocks.len(),
        layout.spans@.len() <= width,
        packed(layout.spans@, width as nat),
        drawn_width(layout.spans@) <= width,
{
    let ghost all = views(blocks@);
    let ghost columns = width as nat;
    let total = sum_sizes(blocks);
    let mut spans: Vec<BlockSpan> = Vec::new();
    if total > 0 {
        let mut offset: u16 = 0;
        let mut i: usize = 0;
        while i < blocks.len()
            invariant_except_break
                i <= blocks.len(),
                spans@.len() == i,
                offset == natural_offset(all, columns, i as nat) || (offset == width
                    && natural_offset(all, columns, i as nat) >= width),
            invariant
                all == views(blocks@),
                columns == width,
                total == total_size(all),
                total > 0,
                offset <= width,
                spans@.len() <= blocks.len(),
                spans@.len() <= offset,
                first_hidden(all, columns, 0) == first_hidden(all, columns, spans@.len()),
                forall|j: int|
                    0 <= j < spans@.len() ==> spans@[j] == span_at(all, highlight@, columns, j),
            ensures
                spans@.len() == first_hidden(all, columns, 0),
            decreases blocks.len() - i,
        {
            let block = &blocks[i];
            proof {
                lemma_size_at_most_total(all, i as int);
                lemma_proportional_width_bounds(all[i as int].size, total as nat, columns);
            }
            let wanted = block_width(block.size, total, width);
            let taken = if wanted > width - offset {
                width - offset
            } else {
                wanted
            };
            if taken == 0 {
                break ;
            }
            proof {
                lemma_first_hidden_step(all, columns, i as nat);
            }
            spans.push(
                BlockSpan {
                    offset,
                    width: taken,
                    is_free: block.is_free,
                    highlighted: block.addr == *highlight,
                    labeled: taken > LABEL_MIN_WIDTH,
                },
            );
            offset = offset + taken;
            i = i + 1;
        }
    }
    proof {
        assert(spans@ =~= spans_of(all, highlight@, columns));
        lemma_spans_packed(all, highlight@, columns);
        lemma_drawn_width_fits(all, highlight@, columns);
    }
    MapLayout { spans, total_size: total, block_count: blocks.len() }
}

} // verus!
