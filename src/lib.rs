//! Constant-time field and group arithmetic for the NIST prime curves P-256
//! and P-384.
//!
//! Multi-precision values are arrays of 64-bit limbs, least significant limb
//! first, and every operation is specified over the integer value of its
//! limbs. Field elements and scalars carry their modulus and their encoding
//! (plain or Montgomery form) in their type.
//!
//! - `limb`: comparison, conditional subtraction, parsing and serialization
//!   of limbs.
//! - `arith`: modular addition, subtraction and Montgomery multiplication.
//! - `ops`: encoded elements, points, and the operation tables of a curve.
//! - `jacobian`: point doubling, addition and scalar multiplication.
//! - `curve`: on-curve checks and decoding of uncompressed points.
//! - `keys`: public keys from private keys, and key-pair validation.
//! - `p256`, `p384`: the two curves' constants, addition chains and tables.
//! - `laws`: properties that relate several operations.

pub mod arith;
pub mod constant_time;
pub mod curve;
pub mod error;
pub mod jacobian;
pub mod keys;
pub mod laws;
pub mod limb;
pub mod ops;
pub mod p256;
pub mod p384;
