//! Sources: components that bring events into the pipeline.

pub mod socket;
