pub mod schedule;
pub mod scan;
pub mod path;
pub mod scene_name;
