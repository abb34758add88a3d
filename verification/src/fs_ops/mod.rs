pub mod dir;
pub mod mounts;
