use healer::stats::{SamplerConf, SamplerConfError, SamplerSchedule, Stats};

#[test]
fn sampler_config_bounds() {
    let good = SamplerConf { sample_interval: 15, report_interval: 60 };
    assert!(good.check().is_ok());
    let fast_sample = SamplerConf { sample_interval: 9, report_interval: 60 };
    assert_eq!(fast_sample.check(), Err(SamplerConfError::BadIntervals));
    let fast_report = SamplerConf { sample_interval: 15, report_interval: 10 };
    assert_eq!(fast_report.check(), Err(SamplerConfError::BadIntervals));
    // sampling slower than a whole report interval
    let inverted = SamplerConf { sample_interval: 3600, report_interval: 11 };
    assert_eq!(inverted.check(), Err(SamplerConfError::BadIntervals));
}

#[test]
fn schedule_defaults_are_15s_samples_hourly_reports() {
    let s = SamplerSchedule::new(&None);
    assert_eq!(s.sample_interval, 15);
    assert_eq!(s.report_interval, 3600);
    assert_eq!(s.since_report, 0);
}

#[test]
fn schedule_converts_report_minutes_to_seconds() {
    let conf = SamplerConf { sample_interval: 20, report_interval: 30 };
    assert!(conf.check().is_ok());
    let s = SamplerSchedule::new(&Some(conf));
    assert_eq!(s.sample_interval, 20);
    assert_eq!(s.report_interval, 1800);
}

#[test]
fn a_report_is_due_exactly_when_the_interval_accumulates() {
    let conf = SamplerConf { sample_interval: 600, report_interval: 11 };
    assert!(conf.check().is_ok());
    let mut s = SamplerSchedule::new(&Some(conf));
    // 600 of 660 seconds: not yet
    assert!(!s.tick());
    assert_eq!(s.since_report, 600);
    // 1200 >= 660: report, clock resets
    assert!(s.tick());
    assert_eq!(s.since_report, 0);
    // and again from zero
    assert!(!s.tick());
    assert!(s.tick());
}

#[test]
fn default_schedule_reports_every_240th_sample() {
    let mut s = SamplerSchedule::new(&None);
    let mut ticks = 0;
    loop {
        ticks += 1;
        if s.tick() {
            break;
        }
    }
    assert_eq!(ticks, 240);
}

#[test]
fn stats_snapshot_holds_its_counters() {
    let st = Stats {
        corpus: 10,
        blocks: 200,
        branches: 300,
        candidates: 4,
        normal_case: 9,
        failed_case: 2,
        crashed_case: 1,
    };
    assert_eq!(st, st);
    assert_eq!(st.branches, 300);
}
