//! Iceberg table providers for DataFusion.
//!
//! This module provides two table provider implementations:
//!
//! - [`IcebergTableProvider`]: Catalog-backed provider with automatic metadata refresh.
//!   Use for write operations and when you need to see the latest table state.
//!
//! - [`IcebergStaticTableProvider`]: Static provider for read-only access to a specific
//!   table snapshot. Use for consistent analytical queries or time-travel scenarios.

pub mod bucketing;
pub mod insert;
pub mod provider;
pub mod resolve;
pub mod static_provider;

pub use provider::IcebergTableProvider;
pub use static_provider::IcebergStaticTableProvider;
