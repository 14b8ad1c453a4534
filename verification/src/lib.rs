mod difficulty;
mod engine;
mod operation;
mod rng;
mod selection;

pub use difficulty::Config;
pub use difficulty::Difficulty;
pub use difficulty::config;
pub use difficulty::difficulty_of;
pub use difficulty::is_difficulty_name;
pub use difficulty::lower_char;
pub use difficulty::lower_eq;
pub use engine::Engine;
pub use engine::FORCE_LIMIT;
pub use engine::ceil_ratio;
pub use engine::exactly_one_winning;
pub use engine::forces_valid;
pub use engine::operand_in_range;
pub use engine::result_bounded;
pub use operation::Operation;
pub use operation::div_trunc;
pub use operation::divisor_nonzero;
pub use operation::lemma_classification_decides_outcome;
pub use operation::lemma_divide_never_wins;
pub use operation::op_result;
pub use operation::wins;
pub use selection::SelectionError;
pub use selection::all_digits;
pub use selection::digits_value;
pub use selection::is_digit;
pub use selection::is_space;
pub use selection::parse_selection;
pub use selection::selection_of;
pub use selection::trim_trailing;
