//! Character algebra for Vietnamese text input: composing and
//! decomposing the precomposed Unicode characters that carry a
//! structural mark (circumflex, breve, horn, stroke) and a tone
//! (sac, huyen, hoi, nga, nang, or none).
//!
//! The mark engine (`mark`) applies or strips a structural mark on a
//! bare base letter. The tone engine (`tone`) applies, detects, or
//! strips a tone on any nucleus of the vowel catalog (`catalog`),
//! lowercase or uppercase, marked or unmarked. Full composition is the
//! pipeline base letter, then mark engine, then tone engine;
//! decomposition runs it backwards: `strip_tone`, then `strip_mark`.

pub mod catalog;
pub mod mark;
pub mod tone;
