//! Verified core of a League of Legends chat bot: match summaries from the
//! match-history API and the retry policy of its HTTP layer; loading and
//! reading the pages of a statistics site; and the text layouts of the
//! replies (rune grids, item builds, skill orders, counter and tier lists).
pub mod champion_build;
pub mod lists;
pub mod loading;
pub mod output;
pub mod page;
pub mod retry;
pub mod riot;
pub mod runes;
pub mod text;
pub mod win_rate;
