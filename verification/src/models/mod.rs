//! The records that flow through the library.

pub mod alert;
pub mod pool;

pub use alert::AlertRecord;
pub use alert::ArbType;
pub use alert::ArbitrageAlert;
pub use pool::PoolData;
pub use pool::PoolRecord;
