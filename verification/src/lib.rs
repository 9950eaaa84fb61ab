//! Verified core of a Sparkle (macOS software update framework) binding:
//! the decoding of updater callback codes, the data carried by update
//! events, the updater delegate's configuration store, and the decisions
//! taken while locating the framework and starting the updater.

pub mod delegate;
pub mod error;
pub mod events;
pub mod framework;
pub mod sparkle;
pub mod text;

pub use error::{Error, Result};
pub use events::{AppcastItemRef, SparkleErrorRef, UpdateCheckKind, UserChoice, UserChoiceState};
pub use delegate::SparkleDelegate;
pub use sparkle::{GetSparkleConfig, SparkleConfig};
