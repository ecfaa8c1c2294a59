//! Verified core of a client-side gateway to a host platform's privileged
//! JavaScript capabilities (image pickers, payment, capability probing).
//!
//! A page must run a one-time cryptographic configuration handshake before any
//! capability call. This crate holds the parts of that protocol with real
//! invariants, stated and proved as contracts:
//!
//! * [`gate`]: the lazy, at-most-once configuration state machine
//!   (`Uninitialized` / `Initializing` / `Initialized`), with proofs that the
//!   handshake is attempted exactly once and that a configured page stays
//!   configured.
//! * [`envelope`]: classification of a host response envelope into success,
//!   user cancellation, or API failure, from the suffix of its outcome string.
//! * [`url`]: derivation of the canonical page URL (fragment stripped), with
//!   a proof that stripping is idempotent.
//! * [`credentials`]: the configuration payload built from a signing round
//!   trip.
//! * [`capability`]: the typed request/response shapes of the exposed
//!   capabilities, and the capability-check result map.
//!
//! The host's asynchronous capability surface and the signing endpoint are
//! external collaborators; an embedding application performs those calls and
//! hands this crate plain values.

pub mod capability;
pub mod credentials;
pub mod envelope;
pub mod error;
pub mod gate;
pub mod text;
pub mod url;
