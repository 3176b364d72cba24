//! The filter, the cache, the detector and the collection engine.

pub mod cache;
pub mod cache_laws;
pub mod collector;
pub mod collector_laws;
pub mod detector;
pub mod detector_laws;
pub mod distribution;
pub mod distribution_laws;
pub mod filter;
pub mod gap_monitor;
pub mod price_monitor;
pub mod storage;

pub use cache::PoolCache;
pub use collector::PoolCollector;
pub use detector::ArbitrageDetector;
pub use filter::PoolFilter;
pub use price_monitor::PriceMonitor;
