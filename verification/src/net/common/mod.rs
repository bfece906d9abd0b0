//! Data types shared by clients, servers and the manager.
pub mod map;
pub mod id_set;
