//! Sector transitions for the empty-sector update, without the I/O.
//!
//! The library validates commitments, reads the auxiliary records of a sector
//! from their bytes, and decides, step by step, what each transition does
//! next. Reading files, opening tree storage and running the proof scheme are
//! left to the caller, which performs each action and reports what came of it.

pub mod aux_store;
pub mod commitment;
pub mod decode;
pub mod elements;
pub mod encode;
pub mod params;
pub mod protocol;
pub mod prove;
pub mod remove;
pub mod types;

pub use crate::decode::decode_from;
pub use crate::elements::{compare_elements, dump_elements};
pub use crate::encode::encode_into;
pub use crate::prove::generate_update_proof;
pub use crate::remove::remove_encoded_data;
