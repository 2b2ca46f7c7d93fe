//! Size-based split checking for a range-partitioned key-value store.
//!
//! A region (a contiguous shard of the key space) grows as writes accumulate.
//! This library decides when a region is worth splitting and where the cut
//! should fall: an observer compares a cheap engine-side size estimate against
//! a configured ceiling and, when warranted, registers a checker that scans
//! the region's keys in order, accumulating per-entry sizes until it can latch
//! a split key and ask the driver to stop.

/// Per-scan accumulator that latches a split key and signals when to stop.
pub mod checker;
/// The scan loop and the per-region check cycle.
pub mod driver;
/// Key entries as the scan driver hands them to a checker.
pub mod entry;
/// The on-disk form of user keys.
pub mod keys;
/// The observer that decides, per region, whether a scan is warranted.
pub mod observer;
/// Region descriptors and the per-check observer context.
pub mod region;
