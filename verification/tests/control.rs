use botkit::{Stopwatch, Task};

const MILLI: u128 = 1_000_000;

/// What the stages of these tests share: the plant's measured angle.
#[derive(Debug, Default)]
struct Model {
    angle: f64,
}

/// A control law with proportional, integral and derivative terms, ticked at
/// the clock reading `now`.
struct Pid {
    value: f64,
    target: f64,
    kp: f64,
    ki: f64,
    kd: f64,
    now: u128,
}

struct PidState {
    total_error: f64,
    last_error: f64,
    watch: Stopwatch,
}

impl Task<Model> for Pid {
    type Output = f64;
    type State = PidState;

    fn build(&mut self, _model: &mut Model) -> (f64, PidState) {
        (0.0, PidState { total_error: 0.0, last_error: 0.0, watch: Stopwatch::unstarted() })
    }

    fn rebuild(&mut self, _model: &mut Model, state: &mut PidState) -> f64 {
        let elapsed = state.watch.lap(self.now) as f64;
        let error = self.target - self.value;
        let error_delta = (error - state.last_error) / elapsed;
        state.total_error += error * elapsed;
        state.last_error = error;
        self.kp * error + self.ki * state.total_error + self.kd * error_delta
    }
}

/// A damped pendulum driven by a torque, integrated one step per tick.
struct Pendulum {
    length: f64,
    gravity: f64,
    damping: f64,
    torque: f64,
    now: u128,
}

struct PendulumState {
    angle: f64,
    angular_velocity: f64,
    watch: Stopwatch,
}

impl Task<Model> for Pendulum {
    type Output = f64;
    type State = PendulumState;

    fn build(&mut self, _model: &mut Model) -> (f64, PendulumState) {
        (0.0, PendulumState { angle: 0.0, angular_velocity: 1.0, watch: Stopwatch::started(self.now) })
    }

    fn rebuild(&mut self, model: &mut Model, state: &mut PendulumState) -> f64 {
        let dt = state.watch.lap(self.now) as f64;
        let acceleration = (-self.gravity / self.length * state.angle.sin()
            - self.damping * state.angular_velocity
            + self.torque)
            / self.length;
        state.angular_velocity += acceleration * dt;
        state.angle += state.angular_velocity * dt;
        model.angle = state.angle;
        state.angle
    }
}

fn pid(value: f64, target: f64, kp: f64, ki: f64, kd: f64, now: u128) -> Pid {
    Pid { value, target, kp, ki, kd, now }
}

fn pendulum(torque: f64, now: u128) -> Pendulum {
    Pendulum { length: 10.0, gravity: 9.81, damping: 0.5, torque, now }
}

/// Runs the loop of a controller driving a pendulum for `ticks` ticks that are
/// `step` nanoseconds apart and returns the angle after each tick.
fn drive(ticks: u128, step: u128) -> Vec<f64> {
    let describe = |model: &Model, now: u128| {
        pid(model.angle, 0.0, 0.5, 0.1, 0.2, now)
            .then(move |_: &Model, torque: f64| pendulum(torque, now))
    };
    let mut model = Model::default();
    let (_, mut state) = describe(&model, 0).build(&mut model);
    let mut angles = Vec::new();
    for tick in 1..=ticks {
        angles.push(describe(&model, tick * step).rebuild(&mut model, &mut state));
    }
    angles
}

#[test]
fn control_law_outputs_zero_when_built() {
    let mut model = Model::default();
    for (value, target, kp, ki, kd) in
        [(0.0, 10.0, 0.5, 0.0, 0.0), (3.5, -2.0, 7.0, 1.5, 0.25), (-1.0, -1.0, 100.0, 100.0, 100.0)]
    {
        let (output, state) = pid(value, target, kp, ki, kd, 5 * MILLI).build(&mut model);
        assert_eq!(output, 0.0);
        assert_eq!(state.total_error, 0.0);
        assert_eq!(state.last_error, 0.0);
        assert_eq!(state.watch.last(), None);
    }
}

#[test]
fn first_tick_of_a_proportional_law_is_gain_times_error() {
    let mut model = Model::default();
    let (_, mut state) = pid(0.0, 10.0, 0.5, 0.0, 0.0, 0).build(&mut model);
    let output = pid(0.0, 10.0, 0.5, 0.0, 0.0, 250 * MILLI).rebuild(&mut model, &mut state);
    assert_eq!(output, 5.0);
}

#[test]
fn control_law_sums_its_three_terms() {
    let mut model = Model::default();
    let (_, mut state) = pid(2.0, 10.0, 0.5, 0.25, 0.125, 0).build(&mut model);
    // First tick: one millisecond is credited, the error of 8 is new.
    let output = pid(2.0, 10.0, 0.5, 0.25, 0.125, 30 * MILLI).rebuild(&mut model, &mut state);
    assert_eq!(output, 4.0 + 2.0 + 1.0);
    assert_eq!(state.total_error, 8.0);
    assert_eq!(state.last_error, 8.0);
    // Second tick, four milliseconds later: the error did not change.
    let output = pid(2.0, 10.0, 0.5, 0.25, 0.125, 34 * MILLI).rebuild(&mut model, &mut state);
    assert_eq!(state.total_error, 40.0);
    assert_eq!(output, 4.0 + 10.0 + 0.0);
    // Third tick, two milliseconds later: the error drops to 4.
    let output = pid(6.0, 10.0, 0.5, 0.25, 0.125, 36 * MILLI).rebuild(&mut model, &mut state);
    assert_eq!(state.total_error, 48.0);
    assert_eq!(output, 2.0 + 12.0 - 0.25);
}

#[test]
fn ticks_without_a_measurable_gap_stay_finite() {
    let mut model = Model::default();
    let (_, mut state) = pid(1.0, 4.0, 0.5, 0.1, 0.2, 0).build(&mut model);
    let first = pid(1.0, 4.0, 0.5, 0.1, 0.2, 7 * MILLI).rebuild(&mut model, &mut state);
    let second = pid(2.0, 4.0, 0.5, 0.1, 0.2, 7 * MILLI).rebuild(&mut model, &mut state);
    assert!(first.is_finite());
    assert!(second.is_finite());
    // The second tick is credited with one millisecond: the error fell by 1.
    assert_eq!(state.total_error, 3.0 + 2.0);
    assert!((second - (0.5 * 2.0 + 0.1 * 5.0 + 0.2 * -1.0)).abs() < 1e-12);
}

#[test]
fn pendulum_starts_at_rest_angle_with_unit_velocity() {
    let mut model = Model::default();
    for torque in [0.0, 1.0, -250.0] {
        let (_, state) = pendulum(torque, 3 * MILLI).build(&mut model);
        assert_eq!(state.angle, 0.0);
        assert_eq!(state.angular_velocity, 1.0);
        assert_eq!(state.watch.last(), Some(3 * MILLI));
    }
}

#[test]
fn pendulum_takes_one_euler_step_per_tick() {
    let mut model = Model::default();
    let (_, mut state) = pendulum(0.0, 0).build(&mut model);
    let angle = pendulum(0.0, MILLI).rebuild(&mut model, &mut state);
    // At angle 0 only damping acts: the acceleration is -0.5 / 10.
    assert!((state.angular_velocity - 0.95).abs() < 1e-12);
    assert!((angle - 0.95).abs() < 1e-12);
    assert_eq!(model.angle, angle);
    let angle = pendulum(2.0, 3 * MILLI).rebuild(&mut model, &mut state);
    let acceleration = (-0.981 * 0.95_f64.sin() - 0.5 * 0.95 + 2.0) / 10.0;
    let velocity = 0.95 + acceleration * 2.0;
    assert!((state.angular_velocity - velocity).abs() < 1e-12);
    assert!((angle - (0.95 + velocity * 2.0)).abs() < 1e-12);
}

#[test]
fn trajectory_repeats_bit_for_bit_under_a_fixed_step() {
    let first = drive(200, MILLI);
    let second = drive(200, MILLI);
    assert_eq!(first.len(), 200);
    for (a, b) in first.iter().zip(second.iter()) {
        assert!(a.is_finite());
        assert_eq!(a.to_bits(), b.to_bits());
    }
}

#[test]
fn step_below_the_floor_is_driven_like_the_floor() {
    // Readings that are less than a millisecond apart are each credited with
    // one millisecond, so the trajectory is that of millisecond steps.
    let fine = drive(50, 1_000);
    let floor = drive(50, MILLI);
    for (a, b) in fine.iter().zip(floor.iter()) {
        assert_eq!(a.to_bits(), b.to_bits());
    }
}
