//! The probes, one for each platform, and what each platform makes of its
//! catalog's answers.

pub mod gamejolt;
pub mod itchio;
pub mod lutris;
pub mod minecraft;
pub mod roblox;
pub mod steam;
