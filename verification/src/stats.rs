//! Periodic statistics sampling: the validated sampler configuration and
//! the clock that decides when a sample becomes a report. Gathering the
//! counters, persisting them and mailing reports are I/O concerns outside
//! the library.
use vstd::prelude::*;

verus! {

/// One snapshot of the fuzzer's counters.
#[derive(Debug, Clone, Copy, PartialEq, Eq, Structural)]
pub struct Stats {
    pub corpus: usize,
    pub blocks: usize,
    pub branches: usize,
    pub candidates: usize,
    pub normal_case: usize,
    pub failed_case: usize,
    pub crashed_case: usize,
}

/// Why the sampler section was rejected.
#[derive(Debug, Clone, Copy, PartialEq, Eq, Structural)]
pub enum SamplerConfError {
    /// The intervals are under their floors, or a whole report interval
    /// does not cover one sampling interval, or the report interval
    /// overflows the second-granular clock.
    BadIntervals,
}

/// How often to sample and how often to report.
#[derive(Debug, Clone)]
pub struct SamplerConf {
    /// Seconds between samples.
    pub sample_interval: u64,
    /// Minutes between reports.
    pub report_interval: u64,
}

impl SamplerConf {
    /// Valid intervals: samples at least 10 s apart, reports more than 10
    /// minutes apart, at least one sample per report interval, and a
    /// report interval that fits the second-granular clock.
    pub open spec fn spec_valid(&self) -> bool {
        &&& self.sample_interval >= 10
        &&& self.report_interval > 10
        &&& (self.sample_interval as int) < (self.report_interval as int) * 60
        &&& self.report_interval <= u64::MAX / 120
    }

    /// Reject an invalid sampler section.
    pub fn check(&self) -> (r: Result<(), SamplerConfError>)
        ensures
            r is Ok <==> self.spec_valid(),
            r is Err ==> r == Result::<(), SamplerConfError>::Err(SamplerConfError::BadIntervals),
    {
        if self.sample_interval >= 10 && self.report_interval > 10 && self.report_interval
            <= u64::MAX / 120 && self.sample_interval < self.report_interval * 60 {
            Result::Ok(())
        } else {
            Result::Err(SamplerConfError::BadIntervals)
        }
    }
}

/// Default seconds between samples, when no section is configured.
pub const DEFAULT_SAMPLE_INTERVAL: u64 = 15;

/// Default seconds between reports, when no section is configured.
pub const DEFAULT_REPORT_INTERVAL: u64 = 3600;

/// The sampler's clock: counts the seconds slept between samples and says
/// when a full report interval has accumulated.
#[derive(Debug, Clone, Copy)]
pub struct SamplerSchedule {
    /// Seconds between samples.
    pub sample_interval: u64,
    /// Seconds between reports.
    pub report_interval: u64,
    /// Seconds accumulated since the last report.
    pub since_report: u64,
}

impl SamplerSchedule {
    /// Less than a report interval is pending, and one more sampling
    /// interval cannot overflow the clock.
    pub open spec fn wf(&self) -> bool {
        &&& self.since_report < self.report_interval
        &&& (self.report_interval as int) + (self.sample_interval as int) <= u64::MAX + 1
    }

    /// Resolve the configured intervals, minutes becoming seconds, or the
    /// defaults when no section is configured.
    pub fn new(conf: &Option<SamplerConf>) -> (s: SamplerSchedule)
        requires
            (conf matches Some(c) ==> c.spec_valid()),
        ensures
            s.wf(),
            s.since_report == 0,
            match conf {
                Option::Some(c) => s.sample_interval == c.sample_interval && s.report_interval
                    == c.report_interval * 60,
                Option::None => s.sample_interval == DEFAULT_SAMPLE_INTERVAL && s.report_interval
                    == DEFAULT_REPORT_INTERVAL,
            },
    {
        match conf {
            Option::Some(c) => SamplerSchedule {
                sample_interval: c.sample_interval,
                report_interval: c.report_interval * 60,
                since_report: 0,
            },
            Option::None => SamplerSchedule {
                sample_interval: DEFAULT_SAMPLE_INTERVAL,
                report_interval: DEFAULT_REPORT_INTERVAL,
                since_report: 0,
            },
        }
    }

    /// One sampling interval elapsed: say whether a report is due now. A
    /// report is due exactly when the seconds accumulated since the last
    /// report reach the report interval; reporting resets the clock.
    pub fn tick(&mut self) -> (do_report: bool)
        requires
            old(self).wf(),
        ensures
            final(self).wf(),
            final(self).sample_interval == old(self).sample_interval,
            final(self).report_interval == old(self).report_interval,
            do_report <==> old(self).since_report + old(self).sample_interval
                >= old(self).report_interval,
            do_report ==> final(self).since_report == 0,
            !do_report ==> final(self).since_report == old(self).since_report
                + old(self).sample_interval,
    {
        let next = self.since_report + self.sample_interval;
        if next >= self.report_interval {
            self.since_report = 0;
            true
        } else {
            self.since_report = next;
            false
        }
    }
}

} // verus!
