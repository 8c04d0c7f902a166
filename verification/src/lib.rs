//! An overlay filesystem core: a persistent inode catalog, a path resolver,
//! an inode-class encoder, synthetic views over file metadata, a vault
//! stream cipher, and the decision logic of every filesystem callback.

pub mod attr;
pub mod cipher;
pub mod clock;
pub mod db;
pub mod fs;
pub mod inode;
pub mod license;
pub mod media;
pub mod model;
pub mod synth;
pub mod text;
pub mod worker;
