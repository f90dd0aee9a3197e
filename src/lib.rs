//! Lamport one-time signatures over SHA3-256, with a seeded key generator.

pub mod hashing;
pub mod seeded;
pub mod lamport;
pub mod laws;

pub use lamport::{Key, LamportSignature, Signature};
