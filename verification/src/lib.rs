//! The causal operation model of a replicated document: identifiers, the
//! total orders on them, operation kinds with their wire codes, and the
//! operation record with its visibility rules.
//!
//! Every function is verified against its contract but for those that
//! call into other crates: `smol` (small strings), `hex` (hexadecimal
//! text) and `actor_id` (the bytes of an actor, a random identifier)
//! each say in one place what is taken on trust of the crate they wrap.

pub mod actor_id;
pub mod balance;
pub mod binary64;
pub mod change_hash;
pub mod clock;
pub mod error;
pub mod hex;
pub mod index;
pub mod key;
pub mod legacy;
pub mod lex;
pub mod marks;
pub mod obj_type;
pub mod op;
pub mod op_id;
pub mod op_ids;
pub mod op_type;
pub mod scalar;
pub mod smol;
pub mod text;
