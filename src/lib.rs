//! Positional rarity of sats: which historic or numeric categories a sat range
//! falls under, reported as exact sub-ranges per category.

pub mod chunks;
pub mod denomination;
pub mod digits;
pub mod height;
pub mod ordered;
pub mod palindrome;
pub mod pizza;
pub mod rarity;
pub mod report;

pub use chunks::{in_range, intersect_chunks, RangeTable};
pub use denomination::{get_alpha_from_sat_range, get_omega_from_sat_range};
pub use height::{COIN_VALUE, SAT_SUPPLY};
pub use palindrome::{
    get_palindromes_from_equal_length_range, get_palindromes_from_sat_range, is_palindrome,
    is_perfect_palindrome, is_uniform_palindrome,
};
pub use pizza::{pizza_table, PIZZA_RANGES};
pub use rarity::{BlockRarity, InvalidRarity};
pub use report::{
    block_rarities, block_rarities_at_height, get_block_rarities, get_block_rarities_at_height,
    get_block_rarities_of_ranges,
    get_block_rarity_chunks, is_pizza_sat, BlockRarityInfo, RangeError,
};
