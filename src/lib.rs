//! Two account-owning services, a per-owner counter and a per-owner vault,
//! with their account validation pipeline, fixed-layout record codec,
//! discriminator guard, lifecycle transitions and flat error codes.
//!
//! Accounts are handled as plain values (`AccountView`). Each operation
//! validates its account list in a fixed order, then plans the host effects
//! of its lifecycle transition (`Effect`); `apply_effects` is the model of
//! the host that carries them out.
//!
//! - `address`: storage addresses derived from a seed, the owner and the
//!   program id.
//! - `account`: account views, host errors, effects and the host model.
//! - `codec`: shared pieces of the record codec.
//! - `counter`, `vault`: the two services, each with its discriminator
//!   guard, record codec, operations, error codes and dispatcher.
//! - `basic_counter`: a basic counter program with one flat error enum.

pub mod account;
pub mod address;
pub mod basic_counter;
pub mod codec;
pub mod counter;
pub mod vault;

pub use account::{apply_effects, AccountView, Effect, ProgramError, RentMinimums};
pub use address::{address_eq, program_address_of, Address};
