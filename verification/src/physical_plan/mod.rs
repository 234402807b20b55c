pub mod display;
pub mod limit;
pub mod scan;
pub mod scan_planning;
