//! Autonomous navigation stack of a 2D town traffic simulation: the drivable
//! town grid and its generators, the nearest-free-cell query, the shortest-path
//! search, and the two vehicle controllers.
//!
//! Everything is integer fixed-point: world lengths are in milli-units,
//! angles in microradians, speeds in milli-units per second and time in
//! milliseconds.
pub mod geometry;
pub mod grid_map;
pub mod town;
pub mod random;
pub mod car_controller;
pub mod car_hl_controller;
pub mod sim_id;
pub mod debouncer;
pub mod car_cmd_list_controller;
pub mod navigation;
