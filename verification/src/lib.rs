//! A count-based metric alarm engine: samples are classified against a
//! threshold, the classifications are kept in a bounded sliding window, and
//! an M-out-of-N rule over that window drives a binary OK / ALARM state.

mod alarm;
mod cw_alarm;
mod dp;
mod evicting_que;
mod ts_data;

pub use alarm::Alarm;
pub use alarm::AlarmState;
pub use cw_alarm::add;
pub use cw_alarm::ComparisonOperator;
pub use cw_alarm::ConfigError;
pub use cw_alarm::CwAlarm;
pub use cw_alarm::CwAlarmBuilder;
pub use cw_alarm::DpState;
pub use cw_alarm::ThresholdRelation;
pub use cw_alarm::TreatMissingData;
pub use dp::Dp;
pub use evicting_que::EvictingQue;
pub use ts_data::sort_pairs_by_ts;
pub use ts_data::TSData;
