//! Classification of a sat range, or of a single sat, by every rarity kind.
use crate::chunks::{clip_all, covered, RangeTable};
use crate::denomination::{
    coin_firsts, coin_lasts, get_alpha_from_sat_range, get_omega_from_sat_range,
};
use crate::height::{height_of_sat, sat_height, SAT_SUPPLY};
use crate::palindrome::{
    get_palindromes_from_sat_range, is_palindrome, is_perfect_palindrome, is_uniform_palindrome,
    palindromes_between, palindromic, twice_written_palindrome, uniform_digits,
};
use crate::rarity::{
    is_nakamoto_height, nakamoto_height, BlockRarity, BLOCK286_BLOCK_HEIGHT, BLOCK666_BLOCK_HEIGHT,
    BLOCK78_BLOCK_HEIGHT, BLOCK9_450_END, BLOCK9_BLOCK_HEIGHT, FIRST_TRANSACTION_END,
    FIRST_TRANSACTION_START, MAX_PIZZA_BLOCK_HEIGHT, VINTAGE_BLOCK_HEIGHT,
};
use vstd::prelude::*;

verus! {

/// The chunks of a sat range that one rarity kind matches.
#[derive(Debug, Clone, PartialEq)]
pub struct BlockRarityInfo {
    pub block_rarity: BlockRarity,
    pub chunks: Vec<(u64, u64)>,
}

impl View for BlockRarityInfo {
    type V = (BlockRarity, Seq<(u64, u64)>);

    open spec fn view(&self) -> (BlockRarity, Seq<(u64, u64)>) {
        (self.block_rarity, self.chunks@)
    }
}

/// Why a sat range cannot be classified.
#[derive(Debug, Clone, Copy, PartialEq, Eq, Structural)]
pub enum RangeError {
    /// The range holds no sat: `start >= end`.
    EmptyRange { start: u64, end: u64 },
    /// The first and the last sat of the range were issued by different blocks.
    SplitBlocks { start: u64, end: u64 },
}

/// The kinds and chunks of a list of reports.
pub open spec fn infos_view(infos: Seq<BlockRarityInfo>) -> Seq<(BlockRarity, Seq<(u64, u64)>)> {
    infos.map_values(|info: BlockRarityInfo| info@)
}

/// One single-sat chunk `[p, p + 1)` for each `p` of `sats` that passes `pred`,
/// in order.
pub open spec fn unit_chunks(sats: Seq<u64>, pred: spec_fn(u64) -> bool) -> Seq<(u64, u64)>
    decreases sats.len(),
{
    if sats.len() == 0 {
        seq![]
    } else {
        let before = unit_chunks(sats.drop_last(), pred);
        if pred(sats.last()) {
            before.push((sats.last(), (sats.last() + 1) as u64))
        } else {
            before
        }
    }
}

/// The whole range as the one chunk of `kind`, when `cond` holds.
pub open spec fn whole_range_if(cond: bool, kind: BlockRarity, start: u64, end: u64) -> Seq<
    (BlockRarity, Seq<(u64, u64)>),
> {
    if cond {
        seq![(kind, seq![(start, end)])]
    } else {
        seq![]
    }
}

/// What the evaluator of `kind` yields for the range `[start, end)` of the
/// block at `height`: kinds tagged with their chunks, empty lists included.
/// A refinement kind has no evaluator of its own and yields nothing.
pub open spec fn kind_chunks(
    kind: BlockRarity,
    pizza: &RangeTable,
    height: u32,
    start: u64,
    end: u64,
) -> Seq<(BlockRarity, Seq<(u64, u64)>)> {
    match kind {
        BlockRarity::Vintage => whole_range_if(height <= VINTAGE_BLOCK_HEIGHT, kind, start, end),
        BlockRarity::Nakamoto => whole_range_if(nakamoto_height(height), kind, start, end),
        BlockRarity::Block9 => if height == BLOCK9_BLOCK_HEIGHT {
            seq![(kind, seq![(start, end)])] + if start < BLOCK9_450_END {
                seq![
                    (
                        BlockRarity::Block9_450,
                        seq![(start, if end < BLOCK9_450_END { end } else { BLOCK9_450_END })],
                    ),
                ]
            } else {
                seq![]
            }
        } else {
            seq![]
        },
        BlockRarity::Block78 => whole_range_if(height == BLOCK78_BLOCK_HEIGHT, kind, start, end),
        BlockRarity::Block286 => whole_range_if(height == BLOCK286_BLOCK_HEIGHT, kind, start, end),
        BlockRarity::Block666 => whole_range_if(height == BLOCK666_BLOCK_HEIGHT, kind, start, end),
        BlockRarity::FirstTransaction => if height == BLOCK9_BLOCK_HEIGHT && start
            < FIRST_TRANSACTION_END {
            seq![
                (
                    kind,
                    seq![
                        (
                            start,
                            if end < FIRST_TRANSACTION_END { end } else { FIRST_TRANSACTION_END },
                        ),
                    ],
                ),
            ]
        } else {
            seq![]
        },
        BlockRarity::Pizza => seq![(kind, clip_all(start, end, pizza.intervals_at(height)))],
        BlockRarity::Palindrome => palindrome_outputs(height, start, end),
        BlockRarity::Alpha => seq![(kind, unit_chunks(coin_firsts(start, end), |p: u64| true))],
        BlockRarity::Omega => seq![(kind, unit_chunks(coin_lasts(start, end), |p: u64| true))],
        BlockRarity::Block9_450
        | BlockRarity::PerfectPalinception
        | BlockRarity::UniformPalinception
        | BlockRarity::PaliblockPalindrome => seq![],
    }
}

/// The palindromes of `[start, end)`, each as a single-sat chunk, tagged as
/// palindromes and by each refinement: written as one palindrome twice over,
/// of one repeated digit, or lying in a block whose height is a palindrome.
pub open spec fn palindrome_outputs(height: u32, start: u64, end: u64) -> Seq<
    (BlockRarity, Seq<(u64, u64)>),
> {
    let found = palindromes_between(start as int, end - 1);
    seq![
        (BlockRarity::Palindrome, unit_chunks(found, |p: u64| true)),
        (
            BlockRarity::PerfectPalinception,
            unit_chunks(found, |p: u64| twice_written_palindrome(p as nat)),
        ),
        (BlockRarity::UniformPalinception, unit_chunks(found, |p: u64| uniform_digits(p as nat))),
        (
            BlockRarity::PaliblockPalindrome,
            unit_chunks(found, |p: u64| palindromic(height as nat)),
        ),
    ]
}

/// The kinds that have an evaluator, in the order a report lists them.
pub open spec fn evaluation_order() -> Seq<BlockRarity> {
    seq![
        BlockRarity::Vintage,
        BlockRarity::Nakamoto,
        BlockRarity::Block9,
        BlockRarity::Block78,
        BlockRarity::FirstTransaction,
        BlockRarity::Pizza,
        BlockRarity::Palindrome,
        BlockRarity::Alpha,
        BlockRarity::Omega,
        BlockRarity::Block286,
        BlockRarity::Block666,
    ]
}

/// What the evaluators of `kinds` yield, one kind after another.
pub open spec fn outputs_of(
    kinds: Seq<BlockRarity>,
    pizza: &RangeTable,
    height: u32,
    start: u64,
    end: u64,
) -> Seq<(BlockRarity, Seq<(u64, u64)>)>
    decreases kinds.len(),
{
    if kinds.len() == 0 {
        seq![]
    } else {
        outputs_of(kinds.drop_last(), pizza, height, start, end) + kind_chunks(
            kinds.last(),
            pizza,
            height,
            start,
            end,
        )
    }
}

/// The outputs that have at least one chunk, in order.
pub open spec fn non_empty(outputs: Seq<(BlockRarity, Seq<(u64, u64)>)>) -> Seq<
    (BlockRarity, Seq<(u64, u64)>),
>
    decreases outputs.len(),
{
    if outputs.len() == 0 {
        seq![]
    } else {
        let before = non_empty(outputs.drop_last());
        if outputs.last().1.len() > 0 {
            before.push(outputs.last())
        } else {
            before
        }
    }
}

/// The report of the range `[start, end)` of the block at `height`.
pub open spec fn block_report(pizza: &RangeTable, height: u32, start: u64, end: u64) -> Seq<
    (BlockRarity, Seq<(u64, u64)>),
> {
    non_empty(outputs_of(evaluation_order(), pizza, height, start, end))
}

/// One single-sat chunk for each of the sats, in order.
fn single_sat_chunks(sats: &Vec<u64>) -> (r: Vec<(u64, u64)>)
    requires
        forall|i: int| 0 <= i < sats.len() ==> sats@[i] < u64::MAX,
    ensures
        r@ == unit_chunks(sats@, |p: u64| true),
{
    let mut chunks: Vec<(u64, u64)> = Vec::new();
    let mut i: usize = 0;
    while i < sats.len()
        invariant
            i <= sats.len(),
            forall|k: int| 0 <= k < sats.len() ==> sats@[k] < u64::MAX,
            chunks@ == unit_chunks(sats@.take(i as int), |p: u64| true),
        decreases sats.len() - i,
    {
        proof {
            assert(sats@.take(i + 1).drop_last() =~= sats@.take(i as int));
        }
        chunks.push((sats[i], sats[i] + 1));
        i = i + 1;
    }
    assert(sats@.take(sats.len() as int) =~= sats@);
    chunks
}

/// The palindrome evaluator: one enumeration of the palindromes of
/// `[start, end)`, tagged as palindromes and by each refinement.
fn palindrome_chunks(height: u32, start: u64, end: u64) -> (r: Vec<BlockRarityInfo>)
    requires
        start < end,
    ensures
        infos_view(r@) == palindrome_outputs(height, start, end),
{
    let found = get_palindromes_from_sat_range(start, end - 1);
    let block_palindrome = is_palindrome(&(height as u64));
    let mut plain: Vec<(u64, u64)> = Vec::new();
    let mut perfect: Vec<(u64, u64)> = Vec::new();
    let mut uniform: Vec<(u64, u64)> = Vec::new();
    let mut in_palindrome_block: Vec<(u64, u64)> = Vec::new();
    let mut i: usize = 0;
    while i < found.len()
        invariant
            i <= found.len(),
            found@ == palindromes_between(start as int, end - 1),
            forall|x: u64| #[trigger] found@.contains(x) <==> start <= x <= end - 1 && palindromic(x as nat),
            block_palindrome == palindromic(height as nat),
            plain@ == unit_chunks(found@.take(i as int), |p: u64| true),
            perfect@ == unit_chunks(found@.take(i as int), |p: u64| twice_written_palindrome(p as nat)),
            uniform@ == unit_chunks(found@.take(i as int), |p: u64| uniform_digits(p as nat)),
            in_palindrome_block@ == unit_chunks(found@.take(i as int), |p: u64| palindromic(height as nat)),
        decreases found.len() - i,
    {
        let p = found[i];
        proof {
            assert(found@.take(i + 1).drop_last() =~= found@.take(i as int));
            assert(found@.contains(p));
        }
        plain.push((p, p + 1));
        if is_perfect_palindrome(&p) {
            perfect.push((p, p + 1));
        }
        if is_uniform_palindrome(&p) {
            uniform.push((p, p + 1));
        }
        if block_palindrome {
            in_palindrome_block.push((p, p + 1));
        }
        i = i + 1;
    }
    assert(found@.take(found.len() as int) =~= found@);
    let r = vec![
        BlockRarityInfo { block_rarity: BlockRarity::Palindrome, chunks: plain },
        BlockRarityInfo { block_rarity: BlockRarity::PerfectPalinception, chunks: perfect },
        BlockRarityInfo { block_rarity: BlockRarity::UniformPalinception, chunks: uniform },
        BlockRarityInfo { block_rarity: BlockRarity::PaliblockPalindrome, chunks: in_palindrome_block },
    ];
    assert(infos_view(r@) =~= palindrome_outputs(height, start, end));
    r
}

/// The one-element report of `kind` with the whole range as its chunk.
fn whole_range(kind: BlockRarity, start: u64, end: u64) -> (r: Vec<BlockRarityInfo>)
    ensures
        infos_view(r@) == seq![(kind, seq![(start, end)])],
{
    let mut chunks: Vec<(u64, u64)> = Vec::new();
    chunks.push((start, end));
    let mut r: Vec<BlockRarityInfo> = Vec::new();
    r.push(BlockRarityInfo { block_rarity: kind, chunks });
    assert(chunks@ =~= seq![(start, end)]);
    assert(infos_view(r@) =~= seq![(kind, seq![(start, end)])]);
    r
}

/// Runs the evaluator of `kind` on the range `[start, end)` of the block at
/// `height`: the kinds it yields with their chunks, empty lists included.
pub fn get_block_rarity_chunks(
    kind: &BlockRarity,
    pizza: &RangeTable,
    height: u32,
    start: u64,
    end: u64,
) -> (r: Vec<BlockRarityInfo>)
    requires
        start < end,
    ensures
        infos_view(r@) == kind_chunks(*kind, pizza, height, start, end),
{
    let none: Vec<BlockRarityInfo> = Vec::new();
    proof {
        assert(infos_view(none@) =~= seq![]);
    }
    match kind {
        BlockRarity::Vintage => if height <= VINTAGE_BLOCK_HEIGHT {
            whole_range(*kind, start, end)
        } else {
            none
        },
        BlockRarity::Nakamoto => if is_nakamoto_height(height) {
            whole_range(*kind, start, end)
        } else {
            none
        },
        BlockRarity::Block9 => if height == BLOCK9_BLOCK_HEIGHT {
            let mut r = whole_range(*kind, start, end);
            if start < BLOCK9_450_END {
                let first_coin_end = if end < BLOCK9_450_END { end } else { BLOCK9_450_END };
                let mut first_coin: Vec<(u64, u64)> = Vec::new();
                first_coin.push((start, first_coin_end));
                assert(first_coin@ =~= seq![(start, first_coin_end)]);
                r.push(BlockRarityInfo { block_rarity: BlockRarity::Block9_450, chunks: first_coin });
            }
            assert(infos_view(r@) =~= kind_chunks(*kind, pizza, height, start, end));
            r
        } else {
            none
        },
        BlockRarity::Block78 => if height == BLOCK78_BLOCK_HEIGHT {
            whole_range(*kind, start, end)
        } else {
            none
        },
        BlockRarity::Block286 => if height == BLOCK286_BLOCK_HEIGHT {
            whole_range(*kind, start, end)
        } else {
            none
        },
        BlockRarity::Block666 => if height == BLOCK666_BLOCK_HEIGHT {
            whole_range(*kind, start, end)
        } else {
            none
        },
        BlockRarity::FirstTransaction => if height == BLOCK9_BLOCK_HEIGHT && start < FIRST_TRANSACTION_END {
            let spent_end = if end < FIRST_TRANSACTION_END { end } else { FIRST_TRANSACTION_END };
            whole_range(*kind, start, spent_end)
        } else {
            none
        },
        BlockRarity::Pizza => {
            let r = vec![BlockRarityInfo { block_rarity: *kind, chunks: pizza.chunks_at(height, start, end) }];
            assert(infos_view(r@) =~= kind_chunks(*kind, pizza, height, start, end));
            r
        },
        BlockRarity::Palindrome => palindrome_chunks(height, start, end),
        BlockRarity::Alpha => {
            let firsts = get_alpha_from_sat_range(start, end);
            proof {
                assert forall|i: int| 0 <= i < firsts.len() implies firsts@[i] < u64::MAX by {
                    assert(firsts@.contains(firsts@[i]));
                }
            }
            let r = vec![BlockRarityInfo { block_rarity: *kind, chunks: single_sat_chunks(&firsts) }];
            assert(infos_view(r@) =~= kind_chunks(*kind, pizza, height, start, end));
            r
        },
        BlockRarity::Omega => {
            let lasts = get_omega_from_sat_range(start, end);
            proof {
                assert forall|i: int| 0 <= i < lasts.len() implies lasts@[i] < u64::MAX by {
                    assert(lasts@.contains(lasts@[i]));
                }
            }
            let r = vec![BlockRarityInfo { block_rarity: *kind, chunks: single_sat_chunks(&lasts) }];
            assert(infos_view(r@) =~= kind_chunks(*kind, pizza, height, start, end));
            r
        },
        BlockRarity::Block9_450
        | BlockRarity::PerfectPalinception
        | BlockRarity::UniformPalinception
        | BlockRarity::PaliblockPalindrome => none,
    }
}

/// The kinds that have an evaluator, in report order.
fn evaluated_kinds() -> (r: Vec<BlockRarity>)
    ensures
        r@ == evaluation_order(),
{
    let r = vec![
        BlockRarity::Vintage,
        BlockRarity::Nakamoto,
        BlockRarity::Block9,
        BlockRarity::Block78,
        BlockRarity::FirstTransaction,
        BlockRarity::Pizza,
        BlockRarity::Palindrome,
        BlockRarity::Alpha,
        BlockRarity::Omega,
        BlockRarity::Block286,
        BlockRarity::Block666,
    ];
    assert(r@ =~= evaluation_order());
    r
}

/// The report of the range `[start, end)` of the block at `height`: every
/// kind with an evaluator, in report order, with the chunks it matches;
/// kinds that match nothing are left out.
pub fn get_block_rarities_at_height(pizza: &RangeTable, height: u32, start: u64, end: u64) -> (r: Vec<
    BlockRarityInfo,
>)
    requires
        start < end,
    ensures
        infos_view(r@) == block_report(pizza, height, start, end),
{
    let kinds = evaluated_kinds();
    let mut report: Vec<BlockRarityInfo> = Vec::new();
    let mut i: usize = 0;
    while i < kinds.len()
        invariant
            start < end,
            kinds@ == evaluation_order(),
            i <= kinds.len(),
            infos_view(report@) == non_empty(outputs_of(kinds@.take(i as int), pizza, height, start, end)),
        decreases kinds.len() - i,
    {
        let mut items = get_block_rarity_chunks(&kinds[i], pizza, height, start, end);
        let ghost done = outputs_of(kinds@.take(i as int), pizza, height, start, end);
        let ghost all_items = infos_view(items@);
        let ghost mut taken: int = 0;
        while items.len() > 0
            invariant
                0 <= taken <= all_items.len(),
                infos_view(items@) == all_items.subrange(taken, all_items.len() as int),
                infos_view(report@) == non_empty(done + all_items.take(taken)),
            decreases items.len(),
        {
            let ghost remaining = items@;
            proof {
                assert(infos_view(remaining).len() == remaining.len());
                assert(taken < all_items.len());
                assert(infos_view(remaining)[0] == remaining[0]@);
                assert(all_items.subrange(taken, all_items.len() as int)[0] == all_items[taken]);
            }
            let item = items.remove(0);
            proof {
                assert(item@ == all_items[taken]);
                assert((done + all_items.take(taken + 1)).drop_last() =~= done + all_items.take(taken));
                assert((done + all_items.take(taken + 1)).last() == all_items[taken]);
            }
            if item.chunks.len() > 0 {
                report.push(item);
            }
            proof {
                taken = taken + 1;
                assert forall|k: int| 0 <= k < items.len() implies infos_view(items@)[k] == all_items.subrange(taken, all_items.len() as int)[k] by {
                    assert(items@[k] == remaining[k + 1]);
                    assert(infos_view(remaining)[k + 1] == remaining[k + 1]@);
                }
                assert(infos_view(items@) =~= all_items.subrange(taken, all_items.len() as int));
                assert(infos_view(report@) =~= non_empty(done + all_items.take(taken)));
            }
        }
        proof {
            assert(all_items.take(taken) =~= all_items);
            assert(kinds@.take(i + 1).drop_last() =~= kinds@.take(i as int));
            assert(kinds@.take(i + 1).last() == kinds@[i as int]);
        }
        i = i + 1;
    }
    assert(kinds@.take(kinds.len() as int) =~= kinds@);
    report
}

/// The report of the sat range `[start, end)`. Fails when the range is empty
/// or when its first and last sat were issued by different blocks. A range
/// that holds sats must lie below the supply.
pub fn get_block_rarities(pizza: &RangeTable, start: u64, end: u64) -> (r: Result<
    Vec<BlockRarityInfo>,
    RangeError,
>)
    requires
        start < end ==> end <= SAT_SUPPLY,
    ensures
        start >= end ==> r == Err::<Vec<BlockRarityInfo>, RangeError>(RangeError::EmptyRange { start, end }),
        start < end && sat_height(start) != sat_height((end - 1) as u64) ==> r == Err::<
            Vec<BlockRarityInfo>,
            RangeError,
        >(RangeError::SplitBlocks { start, end }),
        start < end && sat_height(start) == sat_height((end - 1) as u64) ==> r.is_ok() && infos_view(
            r.unwrap()@,
        ) == block_report(pizza, sat_height(start), start, end),
{
    if start >= end {
        return Err(RangeError::EmptyRange { start, end });
    }
    let height = height_of_sat(start);
    if height != height_of_sat(end - 1) {
        return Err(RangeError::SplitBlocks { start, end });
    }
    Ok(get_block_rarities_at_height(pizza, height, start, end))
}

/// What classifying the sat range `[start, end)` gives: its report, or why it
/// has none.
pub open spec fn range_outcome(pizza: &RangeTable, start: u64, end: u64) -> Result<
    Seq<(BlockRarity, Seq<(u64, u64)>)>,
    RangeError,
> {
    if start >= end {
        Err(RangeError::EmptyRange { start, end })
    } else if sat_height(start) != sat_height((end - 1) as u64) {
        Err(RangeError::SplitBlocks { start, end })
    } else {
        Ok(block_report(pizza, sat_height(start), start, end))
    }
}

/// The reports of several sat ranges, in order, or the error of the first
/// range that cannot be classified; never a part of the reports.
pub fn get_block_rarities_of_ranges(pizza: &RangeTable, ranges: &Vec<(u64, u64)>) -> (r: Result<
    Vec<Vec<BlockRarityInfo>>,
    RangeError,
>)
    requires
        forall|i: int| 0 <= i < ranges.len() ==> #[trigger] ranges@[i].0 < ranges@[i].1 ==> ranges@[i].1 <= SAT_SUPPLY,
    ensures
        r.is_ok() <==> forall|i: int| 0 <= i < ranges.len() ==> (#[trigger] range_outcome(pizza, ranges@[i].0, ranges@[i].1)).is_ok(),
        r.is_ok() ==> r.unwrap().len() == ranges.len() && forall|i: int| 0 <= i < ranges.len() ==> infos_view(#[trigger] r.unwrap()@[i]@) == range_outcome(pizza, ranges@[i].0, ranges@[i].1).unwrap(),
        r.is_err() ==> exists|k: int| 0 <= k < ranges.len() && (forall|i: int| 0 <= i < k ==> (#[trigger] range_outcome(pizza, ranges@[i].0, ranges@[i].1)).is_ok()) && range_outcome(pizza, ranges@[k].0, ranges@[k].1) == Err::<Seq<(BlockRarity, Seq<(u64, u64)>)>, RangeError>(r->Err_0),
{
    let mut reports: Vec<Vec<BlockRarityInfo>> = Vec::new();
    let mut i: usize = 0;
    while i < ranges.len()
        invariant
            i <= ranges.len(),
            forall|j: int| 0 <= j < ranges.len() ==> #[trigger] ranges@[j].0 < ranges@[j].1 ==> ranges@[j].1 <= SAT_SUPPLY,
            reports.len() == i,
            forall|j: int| 0 <= j < i ==> (#[trigger] range_outcome(pizza, ranges@[j].0, ranges@[j].1)).is_ok(),
            forall|j: int| 0 <= j < i ==> infos_view(#[trigger] reports@[j]@) == range_outcome(pizza, ranges@[j].0, ranges@[j].1).unwrap(),
        decreases ranges.len() - i,
    {
        let (start, end) = ranges[i];
        match get_block_rarities(pizza, start, end) {
            Ok(report) => {
                reports.push(report);
            },
            Err(err) => {
                assert(range_outcome(pizza, ranges@[i as int].0, ranges@[i as int].1) == Err::<
                    Seq<(BlockRarity, Seq<(u64, u64)>)>,
                    RangeError,
                >(err));
                return Err(err);
            },
        }
        i = i + 1;
    }
    Ok(reports)
}

/// The kinds that single sat `n` of the block at `height` belongs to.
pub open spec fn sat_kinds(pizza: &RangeTable, height: u32, n: u64) -> Seq<BlockRarity> {
    (if height <= MAX_PIZZA_BLOCK_HEIGHT {
        (if height <= VINTAGE_BLOCK_HEIGHT {
            seq![BlockRarity::Vintage]
        } else {
            seq![]
        }) + (if nakamoto_height(height) {
            seq![BlockRarity::Nakamoto]
        } else {
            seq![]
        }) + (if covered(n as int, pizza.intervals_at(height)) {
            seq![BlockRarity::Pizza]
        } else {
            seq![]
        }) + (if height == BLOCK9_BLOCK_HEIGHT {
            (if FIRST_TRANSACTION_START <= n < FIRST_TRANSACTION_END {
                seq![BlockRarity::FirstTransaction]
            } else {
                seq![]
            }) + seq![BlockRarity::Block9]
        } else if height == BLOCK78_BLOCK_HEIGHT {
            seq![BlockRarity::Block78]
        } else {
            seq![]
        })
    } else {
        seq![]
    }) + (if palindromic(n as nat) {
        seq![BlockRarity::Palindrome]
    } else {
        seq![]
    })
}

/// The kinds that sat `n`, issued by the block at `height`, belongs to.
pub fn block_rarities_at_height(pizza: &RangeTable, height: u32, n: u64) -> (r: Vec<BlockRarity>)
    ensures
        r@ == sat_kinds(pizza, height, n),
{
    let mut r: Vec<BlockRarity> = Vec::new();
    if height <= MAX_PIZZA_BLOCK_HEIGHT {
        if height <= VINTAGE_BLOCK_HEIGHT {
            r.push(BlockRarity::Vintage);
        }
        if is_nakamoto_height(height) {
            r.push(BlockRarity::Nakamoto);
        }
        if pizza.contains_at(height, n) {
            r.push(BlockRarity::Pizza);
        }
        if height == BLOCK9_BLOCK_HEIGHT {
            if n >= FIRST_TRANSACTION_START && n < FIRST_TRANSACTION_END {
                r.push(BlockRarity::FirstTransaction);
            }
            r.push(BlockRarity::Block9);
        } else if height == BLOCK78_BLOCK_HEIGHT {
            r.push(BlockRarity::Block78);
        }
    }
    if is_palindrome(&n) {
        r.push(BlockRarity::Palindrome);
    }
    assert(r@ =~= sat_kinds(pizza, height, n));
    r
}

/// The kinds that sat `n` belongs to.
pub fn block_rarities(pizza: &RangeTable, n: u64) -> (r: Vec<BlockRarity>)
    requires
        n < SAT_SUPPLY,
    ensures
        r@ == sat_kinds(pizza, sat_height(n), n),
{
    let height = height_of_sat(n);
    block_rarities_at_height(pizza, height, n)
}

/// Whether sat `n` lies in one of the pizza intervals of its block.
pub fn is_pizza_sat(pizza: &RangeTable, n: &u64) -> (r: bool)
    requires
        *n < SAT_SUPPLY,
    ensures
        r == covered(*n as int, pizza.intervals_at(sat_height(*n))),
{
    let height = height_of_sat(*n);
    pizza.contains_at(height, *n)
}

} // verus!
