//! The decisions of a pass-through file system served over virtio-fs.
//!
//! A request is started by a method of [`PassthroughFs`], which names the first call that the host
//! is to make, and is driven to its end by handing each reply to the request's `resume` (see
//! `step`).

pub mod abi;
pub mod access;
pub mod attr;
pub mod attr_laws;
pub mod capability;
pub mod config;
pub mod create;
pub mod create_laws;
pub mod data_laws;
pub mod dirent;
pub mod fs;
pub mod fs_laws;
pub mod guest_xattr;
pub mod io;
pub mod ioctl;
pub mod lookup;
pub mod lookup_laws;
pub mod make_laws;
pub mod mapping;
pub mod metadata;
pub mod model;
pub mod multikey;
pub mod name_laws;
pub mod open;
pub mod ops;
pub mod override_laws;
pub mod override_stat;
pub mod progress;
pub mod readdir;
pub mod request_laws;
pub mod scoped;
pub mod session;
pub mod setattr;
pub mod step;
pub mod text;
pub mod xattr;
pub mod xattr_laws;

pub use capability::{drop_effective_cap, ScopedCaps};
pub use config::{CachePolicy, Config};
pub use fs::PassthroughFs;
