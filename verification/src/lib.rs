//! Casting of I Ching hexagrams: weighted random line generation, King Wen
//! encoding of six-line patterns, trigram decomposition, derivation of the
//! future hexagram from changing lines, and rendering of the result.

pub mod divination;
pub mod hexagram;
pub mod lexicon;
pub mod line;
pub mod rng;
pub mod text;

pub use divination::Divination;
pub use hexagram::Hexagram;
pub use line::Aspect;
pub use line::CoinSource;
pub use line::Line;
pub use lexicon::HexagramData;
pub use lexicon::IChingData;
pub use lexicon::IChingError;
pub use lexicon::IChingTranslation;
pub use lexicon::build_translation;
pub use rng::ThreadCoin;
