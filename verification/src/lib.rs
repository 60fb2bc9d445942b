//! Temperature monitoring for a pharmaceutical cold-room: status classification,
//! controller actuation, bounded sensor histories, moving-average windows and the
//! monitoring session log.
mod controller;
mod monitoring;
mod numerik;
mod sensor;

pub use controller::{Controller, StatusSuhu};
pub use monitoring::{ActuatorChange, DataLog, MonitoringSystem, SessionOutcome};
pub use numerik::window_bounds;
pub use sensor::{Sensor, HISTORY_LIMIT};
