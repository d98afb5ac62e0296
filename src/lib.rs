//! A registry of uniquely owned kitties: genome combination on breeding, a
//! marketplace for trading them, and a proof-of-work gated protocol that lets
//! anonymous workers propose breeding events.
pub mod codec;
pub mod genome;
pub mod hashing;
pub mod mining;
pub mod pallet;
