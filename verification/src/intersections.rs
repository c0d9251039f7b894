pub use intersection::{Intersection, Intersections};
pub use intersection_details::IntersectionDetails;

pub mod intersection;
pub mod intersection_details;
