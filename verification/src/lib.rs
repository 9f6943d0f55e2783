//! String marshalling for a C-style FFI boundary.
//!
//! Text crossing the boundary travels as a NUL-terminated UTF-8 byte
//! sequence with no length field.  This crate verifies the conversion and
//! framing rules of that convention:
//!
//! - outbound: host text becomes an owned, NUL-terminated buffer whose
//!   bytes are the UTF-8 encoding of the text ([`rust_string_to_c`]);
//! - inbound: a NUL-terminated buffer becomes borrowed or owned host text,
//!   degrading gracefully on invalid UTF-8 ([`rust_str_from_c`],
//!   [`rust_string_from_c`]);
//! - destruction: a buffer is reclaimed exactly once, by move
//!   ([`destroy_c_string`]).
//!
//! The raw-pointer edge itself (allocating with the C convention, scanning
//! foreign memory for the terminator) cannot be verified and lives with the
//! unverified adapter around this crate; here the buffer is modelled by
//! [`ForeignBuffer`], which owns the bytes between the start of the
//! allocation and its single NUL terminator.

mod buffer;
mod codec;
mod convert;
mod nul;
mod validate;

pub use buffer::is_nul_terminated;
pub use buffer::ForeignBuffer;
pub use codec::lossy_decode;
pub use convert::buffer_is_utf8;
pub use convert::destroy_c_string;
pub use convert::has_interior_nul;
pub use convert::lemma_round_trip;
pub use convert::opt_rust_str_from_c;
pub use convert::opt_rust_string_from_c;
pub use convert::opt_rust_string_to_c;
pub use convert::rust_str_from_c;
pub use convert::rust_string_from_c;
pub use convert::rust_string_to_c;
pub use nul::lemma_encode_utf8_nul;
pub use validate::is_utf8;
