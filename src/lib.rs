//! Sorting of photos and videos into year-named folders, decided from the
//! capture date that their embedded metadata carries.

pub mod classify;
pub mod metadata;
pub mod naming;
pub mod walk;
