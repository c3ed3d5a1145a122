//! A fixed table of two colour themes, looked up by name or drawn at random.

mod random;
mod table;
mod theme;

pub use table::{
    color_at, color_changer, color_generate, color_random, lemma_each_theme_found_by_name,
    lemma_unknown_name_falls_back, THEME_COUNT,
};
pub use theme::{Theme, ThemeRecord};
