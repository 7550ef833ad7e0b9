//! Fixed-point signal processing for a heterodyne laser interferometer: a software
//! phase-locked loop on the reference beat, the measurement arm's position, the scan's
//! envelope and quadrants, and fringe counting for a wavemeter.
pub mod decimator;
pub mod dpll;
pub mod edges;
pub mod envelope;
pub mod fixed;
pub mod fringe;
pub mod pipeline;
pub mod position;
pub mod quadrant;

pub use decimator::Decimator;
pub use dpll::{Dpll, LockTransition, LOCK_EDGES};
pub use edges::{has_bit, EdgeDetector, Packing};
pub use envelope::MinMaxMonitor;
pub use fixed::TURN;
pub use fringe::{wavelength_units, FringeCounter, FringeError, FringeEvent, FringeMeasurement};
pub use pipeline::{
    scan_limits, units_to_length, Calibrator, DisplacementMeter, Wavemeter, WavemeterConfig,
    WavemeterReport,
};
pub use position::{MotionExtrapolator, PositionTracker};
pub use quadrant::{Quadrant, QuadrantTracker};
