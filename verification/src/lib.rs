//! Script-type and descriptor-derivation engine for a Bitcoin wallet.
//!
//! The crate distinguishes the logically distinct layers of Bitcoin
//! scripting (lock script, output script, input script, witness stack,
//! redeem script, witness script) as separate value types, provides the
//! conversions between adjacent layers, and expands a key-derivation
//! template into the family of output-script variants a wallet may need
//! to watch or spend.

pub mod convert;
pub mod encoding;
pub mod generator;
pub mod hashes;
pub mod hex;
pub mod key;
pub mod script_set;
pub mod script_types;
pub mod template;
pub mod witness;

pub use convert::{Category, Error, ToLockScript, ToPubkeyScript, ToScripts};
pub use generator::{
    DeriveLockScript, Descriptors, Expanded, Generator, GeneratorParseError, PubkeyScripts,
    Variants,
};
pub use key::{PublicKey, UnhardenedIndex};
pub use script_set::ScriptSet;
pub use script_types::{
    LockScript, PubkeyScript, RedeemScript, SigScript, TapScript, WitnessScript,
};
pub use template::{LockScriptTemplate, SingleKeyTemplate};
pub use witness::{Witness, WitnessProgram, WitnessVersion, WitnessVersionError};
