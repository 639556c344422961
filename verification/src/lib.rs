//! The verified core of SparkPlayer's platform layers.
//!
//! The native side publishes audio for external visualizers through a shared memory region:
//! [`packer`] assembles frames, [`writer`] decides the stores to the [`region`], [`stream`]
//! states what readers can rely on, and [`names`] and [`mapping`] open the region on each
//! platform. The web side runs the player in a page: [`manifest`] reads the playlist, [`page`]
//! and [`library`] hold the page's decisions. [`laws`] states what each operation is for, by its
//! inputs and results alone.
pub mod laws;
pub mod library;
pub mod manifest;
pub mod mapping;
pub mod names;
pub mod packer;
pub mod page;
pub mod region;
pub mod stream;
pub mod text;
pub mod writer;
