//! A heap adapter for clients that speak the C allocation convention.
//!
//! The adapter bridges callers of `malloc`/`calloc`/`free`/`realloc` onto a
//! host allocator that needs the full layout (size and alignment) of a block
//! in order to release or resize it — information the C convention never
//! hands back. It therefore keeps an out-of-band registry mapping each live
//! address to its layout, consulted and mutated on every call.
//!
//! The registry is an explicit value threaded through the entry points, so
//! each user of the adapter owns and isolates its own heap state; process-wide
//! sharing (a lazily initialized, mutex-guarded singleton) is left to the
//! unverified shell that wires the adapter to its client.

pub mod allocator;
pub mod laws;
