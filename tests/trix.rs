use ta::error::TaError;
use ta::smoother::Update;
use ta::trix::{TrixOutput, TrixSchedule, TrixStep, TRIX_DEFAULT_PERIOD};

struct Trix {
    schedule: TrixSchedule,
    k: f64,
    first: f64,
    second: f64,
    third: f64,
    baseline: f64,
}

fn smooth(update: Update, k: f64, current: f64, input: f64) -> f64 {
    match update {
        Update::Seed => input,
        Update::Blend => (k * input) + ((1.0 - k) * current),
    }
}

impl Trix {
    fn new(period: usize) -> Result<Trix, TaError> {
        let schedule = TrixSchedule::new(period)?;
        let (num, den) = schedule.alpha();
        Ok(Trix {
            schedule,
            k: num as f64 / den as f64,
            first: 0.0,
            second: 0.0,
            third: 0.0,
            baseline: 0.0,
        })
    }

    fn next(&mut self, input: f64) -> f64 {
        let step = self.schedule.next();
        self.first = smooth(step.first, self.k, self.first, input);
        self.second = smooth(step.second, self.k, self.second, self.first);
        self.third = smooth(step.third, self.k, self.third, self.second);
        let out = match step.output {
            TrixOutput::Neutral => 0.0,
            TrixOutput::RateOfChange => ((self.third - self.baseline) / self.baseline) * 100.0,
        };
        self.baseline = self.third;
        out
    }

    fn reset(&mut self) {
        self.schedule.reset();
        self.first = 0.0;
        self.second = 0.0;
        self.third = 0.0;
        self.baseline = 0.0;
    }
}

#[test]
fn triple_exponential_average_test_new() {
    assert!(TrixSchedule::new(0).is_err());
    assert!(TrixSchedule::new(1).is_ok());
    assert_eq!(TrixSchedule::new(0).unwrap_err(), TaError::InvalidParameter);
}

#[test]
fn triple_exponential_average_test_next() {
    let mut trix = Trix::new(3).unwrap();

    assert_eq!(trix.next(16.0), 0.0);
    assert_eq!(trix.next(17.0), 0.78125);
    assert_eq!(trix.next(17.0), 1.1627906976744187);
    assert_eq!(trix.next(10.0), -4.21455938697318);
    assert_eq!(trix.next(17.0), -1.7999999999999998);

    let mut trix = Trix::new(3).unwrap();
    assert_eq!(trix.next(2.0), 0.0);
    assert_eq!(trix.next(5.0), 18.75);
}

#[test]
fn test_next_2() {
    let mut trix = Trix::new(15).unwrap();

    trix.next(16.0);
    trix.next(17.0);
    trix.next(17.0);
    trix.next(10.0);
    trix.next(17.0);
    trix.next(18.0);
    trix.next(17.0);
    trix.next(17.0);
    let result = trix.next(17.0);

    assert_eq!(result, 0.029258774080521098);
}

#[test]
fn triple_exponential_average_test_reset() {
    let mut trix = Trix::new(5).unwrap();

    assert_eq!(trix.next(4.0), 0.0);
    trix.next(10.0);
    trix.next(15.0);
    trix.next(20.0);
    assert_ne!(trix.next(4.0), 4.0);

    trix.reset();
    assert_eq!(trix.next(4.0), 0.0);
}

#[test]
fn triple_exponential_average_test_default() {
    let t = TrixSchedule::default();
    assert_eq!(t.period(), TRIX_DEFAULT_PERIOD);
    assert_eq!(t.period(), 15);
}

#[test]
fn triple_exponential_average_test_display() {
    let trix = TrixSchedule::new(7).unwrap();
    assert_eq!(trix.label(), "TRIX(7)");
}

#[test]
fn trix_first_call_is_neutral_for_any_input() {
    for x in [0.0, -5.0, 1e300, 42.0] {
        let mut trix = Trix::new(2).unwrap();
        assert_eq!(trix.next(x), 0.0);
    }
}

#[test]
fn trix_steps_follow_warm_up() {
    let mut s = TrixSchedule::new(3).unwrap();
    assert_eq!(
        s.next(),
        TrixStep {
            first: Update::Seed,
            second: Update::Seed,
            third: Update::Seed,
            output: TrixOutput::Neutral,
        }
    );
    assert_eq!(
        s.next(),
        TrixStep {
            first: Update::Blend,
            second: Update::Blend,
            third: Update::Blend,
            output: TrixOutput::RateOfChange,
        }
    );
    s.reset();
    assert_eq!(s.next().output, TrixOutput::Neutral);
    assert_eq!(s.alpha(), (2, 4));
}
