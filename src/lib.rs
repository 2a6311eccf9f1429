pub mod moving_avg;
pub mod window;
pub mod timestamp;
pub mod series;
pub mod projection;
pub mod record;
pub mod chart;
