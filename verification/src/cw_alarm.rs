use crate::alarm::Alarm;
use crate::alarm::AlarmState;
use crate::evicting_que::EvictingQue;
use crate::evicting_que::spec_push_contents;
use vstd::prelude::*;

verus! {

/// How a missing sample is treated when the window is evaluated.
#[derive(Debug, PartialEq, Eq, Structural, Copy, Clone)]
pub enum TreatMissingData {
    Breaching,
    NotBreaching,
    Ignore,
    Missing,
}

/// The comparison applied between a sample and the threshold; the sample
/// breaches when the comparison holds.
#[derive(Debug, PartialEq, Eq, Structural, Copy, Clone)]
pub enum ComparisonOperator {
    G,
    GEq,
    L,
    LEq,
}

/// How a present numeric sample stands to the configured threshold.
/// `Unordered` is the verdict when the comparison is undefined: an IEEE
/// NaN on either side compares false under every operator, so an
/// unordered sample never breaches.
#[derive(Debug, PartialEq, Eq, Structural, Copy, Clone)]
pub enum ThresholdRelation {
    Below,
    Equal,
    Above,
    Unordered,
}

/// The per-sample verdict after comparing against the threshold.
/// `Missing` only arises from an absent sample, never from a present one.
#[derive(Debug, PartialEq, Eq, Structural, Copy, Clone)]
pub enum DpState {
    Good,
    Bad,
    Missing,
}

/// Whether a sample standing in relation `rel` to the threshold breaches
/// under operator `op`.
pub open spec fn spec_breaches(op: ComparisonOperator, rel: ThresholdRelation) -> bool {
    match op {
        ComparisonOperator::G => rel == ThresholdRelation::Above,
        ComparisonOperator::GEq => rel == ThresholdRelation::Above || rel
            == ThresholdRelation::Equal,
        ComparisonOperator::L => rel == ThresholdRelation::Below,
        ComparisonOperator::LEq => rel == ThresholdRelation::Below || rel
            == ThresholdRelation::Equal,
    }
}

/// The classification of one optional sample: absent is `Missing`, a
/// present sample is `Bad` exactly when it breaches, else `Good`.
pub open spec fn spec_classify(dp: Option<ThresholdRelation>, op: ComparisonOperator) -> DpState {
    match dp {
        Option::Some(rel) => if spec_breaches(op, rel) {
            DpState::Bad
        } else {
            DpState::Good
        },
        Option::None => DpState::Missing,
    }
}

/// Whether one window entry counts toward the breach tally: `Bad` always
/// does, `Missing` only under the `Breaching` policy, and `Good` never.
/// `NotBreaching` and `Missing` policies count alike.
pub open spec fn counts_as_bad(dp: DpState, policy: TreatMissingData) -> bool {
    match dp {
        DpState::Good => false,
        DpState::Bad => true,
        DpState::Missing => policy == TreatMissingData::Breaching,
    }
}

/// How many entries of the window count toward the breach tally.
pub open spec fn spec_bad_count(win: Seq<DpState>, policy: TreatMissingData) -> int
    decreases win.len(),
{
    if win.len() == 0 {
        0
    } else {
        spec_bad_count(win.drop_last(), policy) + (if counts_as_bad(win.last(), policy) {
            1int
        } else {
            0int
        })
    }
}

/// The M-out-of-N rule: the alarm fires exactly when at least
/// `dps_to_alarm` window entries count as bad.
pub open spec fn spec_alarm_state(
    win: Seq<DpState>,
    policy: TreatMissingData,
    dps_to_alarm: int,
) -> AlarmState {
    if spec_bad_count(win, policy) >= dps_to_alarm {
        AlarmState::Alarm
    } else {
        AlarmState::Okay
    }
}

/// Whether a `feed` call short-circuits: a sample classified `Missing`
/// under the `Ignore` policy is dropped without touching the window.
pub open spec fn spec_ignored(
    val: Option<ThresholdRelation>,
    op: ComparisonOperator,
    policy: TreatMissingData,
) -> bool {
    spec_classify(val, op) == DpState::Missing && policy == TreatMissingData::Ignore
}

/// Ignore-policy no-op law: an absent sample classifies `Missing` under
/// every operator, so under the `Ignore` policy `feed` short-circuits on
/// it whatever the configuration; by `feed`'s contract such a call leaves
/// the evaluator exactly as it was, and repeating it therefore changes
/// neither state nor window occupancy.
pub proof fn lemma_ignore_missing_is_noop(op: ComparisonOperator)
    ensures
        forall|val: Option<ThresholdRelation>|
            val is None ==> spec_ignored(val, op, TreatMissingData::Ignore),
{
}

/// The alarm evaluation engine: a bounded window of classified datapoints
/// and the binary state the M-out-of-N rule last derived from it.
///
/// The relation of each sample to the threshold is computed by the caller
/// (floating-point comparisons live outside this crate) and handed in as
/// a `ThresholdRelation`; everything downstream of that comparison is
/// verified here.
pub struct CwAlarm {
    pub evaluation_periods: usize,
    pub dps_to_alarm: usize,
    pub treat_missing_data: TreatMissingData,
    pub comparison_operator: ComparisonOperator,
    pub lookback: EvictingQue<DpState>,
    pub state: AlarmState,
}

impl CwAlarm {
    /// Well-formedness: the window's capacity is `evaluation_periods`, the
    /// breach threshold lies in `[1, evaluation_periods]`, and the held
    /// state is exactly the one the M-out-of-N rule derives from the
    /// current window contents.
    pub open spec fn wf(&self) -> bool {
        &&& self.lookback.wf()
        &&& self.lookback.spec_capacity() == self.evaluation_periods
        &&& 1 <= self.dps_to_alarm <= self.evaluation_periods
        &&& self.state == spec_alarm_state(
            self.lookback@,
            self.treat_missing_data,
            self.dps_to_alarm as int,
        )
    }

    /// Classifies one optional sample against the configured operator.
    pub fn get_dp_state(&self, dp: Option<ThresholdRelation>) -> (r: DpState)
        ensures
            r == spec_classify(dp, self.comparison_operator),
    {
        match dp {
            Option::Some(rel) => {
                let bad = match self.comparison_operator {
                    ComparisonOperator::G => rel == ThresholdRelation::Above,
                    ComparisonOperator::GEq => rel == ThresholdRelation::Above || rel
                        == ThresholdRelation::Equal,
                    ComparisonOperator::L => rel == ThresholdRelation::Below,
                    ComparisonOperator::LEq => rel == ThresholdRelation::Below || rel
                        == ThresholdRelation::Equal,
                };
                if bad {
                    DpState::Bad
                } else {
                    DpState::Good
                }
            },
            Option::None => DpState::Missing,
        }
    }

    /// Consumes one sample and returns the state reached. Total on a
    /// well-formed evaluator: every sample yields a state, there is no
    /// error path.
    ///
    /// A sample classified `Missing` under the `Ignore` policy is a no-op:
    /// the evaluator is left untouched and the held state is returned.
    /// Every other sample's classification is pushed into the window
    /// (evicting the oldest entry at capacity) and the state is recomputed
    /// from the entire new window by the M-out-of-N rule.
    pub fn feed(&mut self, val: Option<ThresholdRelation>) -> (r: AlarmState)
        requires
            old(self).wf(),
        ensures
            final(self).wf(),
            r == final(self).state,
            final(self).evaluation_periods == old(self).evaluation_periods,
            final(self).dps_to_alarm == old(self).dps_to_alarm,
            final(self).treat_missing_data == old(self).treat_missing_data,
            final(self).comparison_operator == old(self).comparison_operator,
            spec_ignored(val, old(self).comparison_operator, old(self).treat_missing_data) ==> (
            *final(self) == *old(self) && r == old(self).state),
            !spec_ignored(val, old(self).comparison_operator, old(self).treat_missing_data) ==> (
            final(self).lookback@ == spec_push_contents(
                old(self).lookback@,
                old(self).evaluation_periods as int,
                spec_classify(val, old(self).comparison_operator),
            ) && final(self).state == spec_alarm_state(
                final(self).lookback@,
                old(self).treat_missing_data,
                old(self).dps_to_alarm as int,
            )),
    {
        let new_dp_state = self.get_dp_state(val);

        if new_dp_state == DpState::Missing && self.treat_missing_data == TreatMissingData::Ignore {
            return self.state;
        }

        self.lookback.push(new_dp_state);

        let ghost win = self.lookback@;
        let ghost policy = self.treat_missing_data;

        let mut bad_dp_count: usize = 0;
        let mut i: usize = 0;
        let n = self.lookback.len();
        while i < n
            invariant
                i <= n,
                n == self.lookback@.len(),
                self.lookback@ == win,
                self.treat_missing_data == policy,
                bad_dp_count <= i,
                bad_dp_count == spec_bad_count(win.take(i as int), policy),
            decreases n - i,
        {
            let dp_state = *self.lookback.get(i);
            proof {
                assert(win.take(i + 1).drop_last() =~= win.take(i as int));
            }
            match dp_state {
                DpState::Good => (),
                DpState::Bad => {
                    bad_dp_count += 1;
                },
                DpState::Missing => {
                    match self.treat_missing_data {
                        TreatMissingData::Breaching => {
                            bad_dp_count += 1;
                        },
                        _ => (),
                    }
                },
            }
            i += 1;
        }
        proof {
            assert(win.take(n as int) =~= win);
        }

        if bad_dp_count >= self.dps_to_alarm {
            self.state = AlarmState::Alarm;
        } else {
            self.state = AlarmState::Okay;
        }

        self.state
    }

    pub fn evaluation_periods(&self) -> (r: usize)
        ensures
            r == self.evaluation_periods,
    {
        self.evaluation_periods
    }

    pub fn dps_to_alarm(&self) -> (r: usize)
        ensures
            r == self.dps_to_alarm,
    {
        self.dps_to_alarm
    }

    pub fn treat_missing_data(&self) -> (r: TreatMissingData)
        ensures
            r == self.treat_missing_data,
    {
        self.treat_missing_data
    }

    pub fn comparison_operator(&self) -> (r: ComparisonOperator)
        ensures
            r == self.comparison_operator,
    {
        self.comparison_operator
    }
}

/// Sums two numbers; the sum must fit in a `u64`.
pub fn add(left: u64, right: u64) -> (r: u64)
    requires
        left + right <= u64::MAX,
    ensures
        r == left + right,
{
    left + right
}

/// Why configuration assembly was refused.
#[derive(Debug, PartialEq, Eq, Structural, Copy, Clone)]
pub enum ConfigError {
    MissingEvaluationPeriods,
    MissingComparisonOperator,
    ZeroEvaluationPeriods,
    DpsToAlarmOutOfRange,
}

/// Assembles an alarm configuration field by field; `build` validates the
/// assembly and constructs the evaluator.
pub struct CwAlarmBuilder {
    pub evaluation_periods: Option<usize>,
    pub dps_to_alarm: Option<usize>,
    pub treat_missing_data: Option<TreatMissingData>,
    pub comparison_operator: Option<ComparisonOperator>,
}

impl CwAlarmBuilder {
    /// The window capacity `build` will use; zero stands for "not set".
    pub open spec fn spec_eval(&self) -> int {
        match self.evaluation_periods {
            Option::Some(e) => e as int,
            Option::None => 0,
        }
    }

    /// The breach-count threshold `build` will use: the explicit
    /// `dps_to_alarm` where one was set, else `evaluation_periods`.
    pub open spec fn spec_dps(&self) -> int {
        match self.dps_to_alarm {
            Option::Some(d) => d as int,
            Option::None => self.spec_eval(),
        }
    }

    /// The missing-data policy `build` will use: the explicit one where
    /// set, else `Missing`.
    pub open spec fn spec_policy(&self) -> TreatMissingData {
        match self.treat_missing_data {
            Option::Some(p) => p,
            Option::None => TreatMissingData::Missing,
        }
    }

    /// A configuration `build` accepts: operator and window capacity are
    /// set, the capacity is at least one, and the breach-count threshold
    /// lies in `[1, evaluation_periods]`.
    pub open spec fn valid(&self) -> bool {
        &&& self.evaluation_periods is Some
        &&& self.comparison_operator is Some
        &&& 1 <= self.spec_eval()
        &&& 1 <= self.spec_dps() <= self.spec_eval()
    }

    /// The error `build` reports for an invalid configuration: the checks
    /// run in this order.
    pub open spec fn spec_build_error(&self) -> ConfigError {
        if self.evaluation_periods is None {
            ConfigError::MissingEvaluationPeriods
        } else if self.comparison_operator is None {
            ConfigError::MissingComparisonOperator
        } else if self.spec_eval() < 1 {
            ConfigError::ZeroEvaluationPeriods
        } else {
            ConfigError::DpsToAlarmOutOfRange
        }
    }

    pub fn evaluation_periods(self, val: usize) -> (r: CwAlarmBuilder)
        ensures
            r.evaluation_periods == Option::Some(val),
            r.dps_to_alarm == self.dps_to_alarm,
            r.treat_missing_data == self.treat_missing_data,
            r.comparison_operator == self.comparison_operator,
    {
        CwAlarmBuilder { evaluation_periods: Option::Some(val), ..self }
    }

    pub fn dps_to_alarm(self, val: usize) -> (r: CwAlarmBuilder)
        ensures
            r.evaluation_periods == self.evaluation_periods,
            r.dps_to_alarm == Option::Some(val),
            r.treat_missing_data == self.treat_missing_data,
            r.comparison_operator == self.comparison_operator,
    {
        CwAlarmBuilder { dps_to_alarm: Option::Some(val), ..self }
    }

    pub fn treat_missing_data(self, val: TreatMissingData) -> (r: CwAlarmBuilder)
        ensures
            r.evaluation_periods == self.evaluation_periods,
            r.dps_to_alarm == self.dps_to_alarm,
            r.treat_missing_data == Option::Some(val),
            r.comparison_operator == self.comparison_operator,
    {
        CwAlarmBuilder { treat_missing_data: Option::Some(val), ..self }
    }

    pub fn comparison_operator(self, val: ComparisonOperator) -> (r: CwAlarmBuilder)
        ensures
            r.evaluation_periods == self.evaluation_periods,
            r.dps_to_alarm == self.dps_to_alarm,
            r.treat_missing_data == self.treat_missing_data,
            r.comparison_operator == Option::Some(val),
    {
        CwAlarmBuilder { comparison_operator: Option::Some(val), ..self }
    }

    /// Validates the assembled configuration and constructs the evaluator:
    /// state `Okay`, window empty, `dps_to_alarm` defaulting to
    /// `evaluation_periods` and the policy to `Missing`. Exactly the
    /// invalid configurations are refused, each with the error
    /// `spec_build_error` names.
    pub fn build(self) -> (r: Result<CwAlarm, ConfigError>)
        ensures
            match r {
                Result::Ok(alarm) => {
                    &&& self.valid()
                    &&& alarm.wf()
                    &&& Option::Some(alarm.evaluation_periods) == self.evaluation_periods
                    &&& alarm.dps_to_alarm as int == self.spec_dps()
                    &&& alarm.treat_missing_data == self.spec_policy()
                    &&& Option::Some(alarm.comparison_operator) == self.comparison_operator
                    &&& alarm.lookback@ == Seq::<DpState>::empty()
                    &&& alarm.state == AlarmState::Okay
                },
                Result::Err(e) => {
                    &&& !self.valid()
                    &&& e == self.spec_build_error()
                },
            },
    {
        let evaluation_periods = match self.evaluation_periods {
            Option::Some(e) => e,
            Option::None => {
                return Result::Err(ConfigError::MissingEvaluationPeriods);
            },
        };
        let comparison_operator = match self.comparison_operator {
            Option::Some(c) => c,
            Option::None => {
                return Result::Err(ConfigError::MissingComparisonOperator);
            },
        };
        if evaluation_periods < 1 {
            return Result::Err(ConfigError::ZeroEvaluationPeriods);
        }
        let dps_to_alarm = match self.dps_to_alarm {
            Option::Some(d) => d,
            Option::None => evaluation_periods,
        };
        if dps_to_alarm < 1 || dps_to_alarm > evaluation_periods {
            return Result::Err(ConfigError::DpsToAlarmOutOfRange);
        }
        let treat_missing_data = match self.treat_missing_data {
            Option::Some(t) => t,
            Option::None => TreatMissingData::Missing,
        };
        Result::Ok(
            CwAlarm {
                evaluation_periods,
                dps_to_alarm,
                treat_missing_data,
                comparison_operator,
                lookback: EvictingQue::new(evaluation_periods),
                state: AlarmState::Okay,
            },
        )
    }
}

impl Default for CwAlarmBuilder {
    /// A builder with no field set yet.
    fn default() -> (r: CwAlarmBuilder)
        ensures
            r.evaluation_periods is None,
            r.dps_to_alarm is None,
            r.treat_missing_data is None,
            r.comparison_operator is None,
    {
        CwAlarmBuilder {
            evaluation_periods: Option::None,
            dps_to_alarm: Option::None,
            treat_missing_data: Option::None,
            comparison_operator: Option::None,
        }
    }
}

impl Alarm<Option<ThresholdRelation>> for CwAlarm {
    open spec fn inv(&self) -> bool {
        self.wf()
    }

    fn feed(&mut self, val: Option<ThresholdRelation>) -> (state: AlarmState) {
        CwAlarm::feed(self, val)
    }
}

} // verus!
