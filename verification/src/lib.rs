//! Discovery of git repositories under configured directory trees and
//! extraction of their commit timestamps, with the answers of the service
//! that hands them out.

pub mod api;
pub mod params;
pub mod repos;
