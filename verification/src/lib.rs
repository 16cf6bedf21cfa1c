//! Proof-of-work building blocks of a Cryptix CPU miner: the 256-bit hash
//! word type, the xoshiro256++ generator that seeds the HeavyHash matrix,
//! the matrix drawn from it, the byte-mixing stages of the
//! HeavyHash function, the command-line options and the node messages.

pub mod anti_fpga;
pub mod arrays;
pub mod bits;
pub mod cli;
pub mod hash;
pub mod heavy_hash;
pub mod generate;
pub mod matrix;
pub mod messages;
pub mod octonion;
pub mod octonion_laws;
pub mod sbox_laws;
pub mod xoshiro;
