//! Sorting media files into a date-bucketed destination tree.
//!
//! The library holds the decisions: how a file is classified by its
//! extension, which directory entries are descended into, where a file goes
//! under the destination root, and whether it is copied, overwritten or left
//! alone. The program around it reads the file system and carries out what
//! these decisions say.
pub mod calendar;
pub mod classify;
pub mod config;
pub mod laws;
pub mod organize;
pub mod text;
pub mod walk;
