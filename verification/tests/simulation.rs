use lorenz_attractor::{AttractorParameters, ParameterField, Scalar, Simulation, Vec3};

fn scalar(value: f32) -> Scalar {
    Scalar::from_bits(value.to_bits())
}

fn number(s: Scalar) -> f32 {
    f32::from_bits(s.to_bits())
}

fn point(x: f32, y: f32, z: f32) -> Vec3 {
    Vec3::new(scalar(x), scalar(y), scalar(z))
}

fn coordinates(p: Vec3) -> (f32, f32, f32) {
    (number(p.x), number(p.y), number(p.z))
}

/// One explicit Euler step of the Lorenz rate equations.
fn euler(parameters: AttractorParameters, position: Vec3, dt: Scalar) -> Vec3 {
    let sigma = number(parameters.sigma);
    let rho = number(parameters.rho);
    let beta = number(parameters.beta);
    let (x, y, z) = coordinates(position);
    let dt = number(dt);
    let dx = sigma * (y - x);
    let dy = x * (rho - z) - y;
    let dz = x * y - beta * z;
    point(x + dx * dt, y + dy * dt, z + dz * dt)
}

#[test]
fn new_simulation_is_in_the_initial_state() {
    let sim = Simulation::new();
    assert_eq!(sim.parameters(), AttractorParameters::canonical());
    assert_eq!(sim.staged(), AttractorParameters::canonical());
    assert_eq!(sim.position(), Vec3::one());
    assert_eq!(sim.snapshot(), Vec::<Vec3>::new());
    assert!(sim.history().is_empty());
}

#[test]
fn first_euler_step_from_the_defaults() {
    let mut sim = Simulation::new();
    let returned = sim.step(scalar(0.01), euler);
    let (x, y, z) = coordinates(returned);
    assert_eq!(x, 1.0);
    assert_eq!(y, 1.0f32 + 26.0f32 * 0.01f32);
    assert_eq!(z, 1.0f32 + (1.0f32 - 8.0f32 / 3.0f32) * 0.01f32);
    assert!((y - 1.26).abs() < 1.0e-6);
    assert!((z - 0.9833).abs() < 1.0e-4);
    assert_eq!(sim.position(), returned);
    assert_eq!(sim.snapshot(), vec![returned]);
    assert_eq!(sim.parameters(), AttractorParameters::canonical());
}

#[test]
fn step_over_no_time_keeps_the_position_and_records_it() {
    let mut sim = Simulation::new();
    sim.step(scalar(0.01), euler);
    sim.step(scalar(0.01), euler);
    let before = sim.position();
    let returned = sim.step(scalar(0.0), euler);
    assert_eq!(coordinates(returned), coordinates(before));
    assert_eq!(coordinates(sim.position()), coordinates(before));
    assert_eq!(sim.history().len(), 3);
}

#[test]
fn equal_runs_give_equal_trajectories() {
    let mut first = Simulation::new();
    let mut second = Simulation::new();
    for _ in 0..500 {
        let a = first.step(scalar(0.005), euler);
        let b = second.step(scalar(0.005), euler);
        assert_eq!(a, b);
    }
    assert_eq!(first.snapshot(), second.snapshot());
    assert_eq!(first.position(), second.position());
}

#[test]
fn diverging_run_is_recorded_like_any_other() {
    let mut sim = Simulation::new();
    sim.edit(ParameterField::Sigma, scalar(1.0e30));
    sim.edit(ParameterField::Rho, scalar(1.0e30));
    sim.commit();
    for _ in 0..50 {
        sim.step(scalar(1.0e10), euler);
    }
    assert_eq!(sim.history().len(), 50);
    let (x, y, z) = coordinates(sim.position());
    assert!(!x.is_finite() || !y.is_finite() || !z.is_finite());
    assert_eq!(sim.history().last(), Some(sim.position()));
}

#[test]
fn advance_records_the_position_it_is_given() {
    let mut sim = Simulation::new();
    assert_eq!(sim.advance(point(2.0, 3.0, 4.0)), point(2.0, 3.0, 4.0));
    assert_eq!(sim.advance(point(5.0, 6.0, 7.0)), point(5.0, 6.0, 7.0));
    assert_eq!(sim.position(), point(5.0, 6.0, 7.0));
    assert_eq!(sim.snapshot(), vec![point(2.0, 3.0, 4.0), point(5.0, 6.0, 7.0)]);
    assert_eq!(sim.history().last(), Some(sim.position()));
    assert_eq!(sim.parameters(), AttractorParameters::canonical());
    assert_eq!(sim.staged(), AttractorParameters::canonical());
}

#[test]
fn staged_sigma_runs_only_after_commit() {
    let mut sim = Simulation::new();
    sim.step(scalar(0.01), euler);
    sim.step(scalar(0.01), euler);
    let position = sim.position();
    let trajectory = sim.snapshot();

    sim.edit(ParameterField::Sigma, scalar(5.0));
    assert_eq!(number(sim.staged().sigma), 5.0);
    assert_eq!(number(sim.parameters().sigma), 10.0);
    assert_eq!(sim.parameters(), AttractorParameters::canonical());
    assert_eq!(sim.position(), position);
    assert_eq!(sim.snapshot(), trajectory);

    sim.step(scalar(0.01), euler);
    assert_eq!(number(sim.parameters().sigma), 10.0);
    assert_eq!(sim.history().len(), 3);

    sim.commit();
    assert_eq!(number(sim.parameters().sigma), 5.0);
    assert_eq!(number(sim.parameters().rho), 28.0);
    assert_eq!(number(sim.parameters().beta), 8.0f32 / 3.0f32);
    assert_eq!(sim.history().len(), 0);
}

#[test]
fn commit_takes_over_the_stage_and_restarts() {
    let mut sim = Simulation::new();
    for _ in 0..10 {
        sim.step(scalar(0.01), euler);
    }
    sim.edit(ParameterField::Sigma, scalar(12.0));
    sim.edit(ParameterField::Rho, scalar(20.0));
    sim.edit(ParameterField::Beta, scalar(2.0));
    let p = AttractorParameters::new(scalar(12.0), scalar(20.0), scalar(2.0));
    sim.commit();
    assert_eq!(sim.parameters(), p);
    assert_eq!(sim.staged(), p);
    assert_eq!(coordinates(sim.position()), (1.0, 1.0, 1.0));
    assert_eq!(sim.snapshot(), Vec::<Vec3>::new());
}

#[test]
fn commit_twice_is_commit_once() {
    let mut sim = Simulation::new();
    sim.advance(point(2.0, 3.0, 4.0));
    sim.edit(ParameterField::Beta, scalar(2.0));
    sim.commit();
    let parameters = sim.parameters();
    sim.commit();
    assert_eq!(sim.parameters(), parameters);
    assert_eq!(sim.staged(), parameters);
    assert_eq!(sim.position(), Vec3::one());
    assert!(sim.history().is_empty());
}

#[test]
fn commit_without_edits_restarts_with_the_same_parameters() {
    let mut sim = Simulation::new();
    sim.step(scalar(0.01), euler);
    sim.commit();
    assert_eq!(sim.parameters(), AttractorParameters::canonical());
    assert_eq!(sim.position(), Vec3::one());
    assert!(sim.history().is_empty());
}

#[test]
fn scheme_sees_the_running_parameters_and_not_the_stage() {
    let mut sim = Simulation::new();
    sim.edit(ParameterField::Sigma, scalar(5.0));
    sim.edit(ParameterField::Rho, scalar(6.0));
    sim.edit(ParameterField::Beta, scalar(7.0));
    let seen = sim.step(scalar(0.25), |p: AttractorParameters, _x: Vec3, _dt: Scalar| {
        Vec3::new(p.sigma, p.rho, p.beta)
    });
    assert_eq!(coordinates(seen), (10.0, 28.0, 8.0f32 / 3.0f32));
    sim.commit();
    let seen = sim.step(scalar(0.25), |p: AttractorParameters, _x: Vec3, _dt: Scalar| {
        Vec3::new(p.sigma, p.rho, p.beta)
    });
    assert_eq!(coordinates(seen), (5.0, 6.0, 7.0));
}

#[test]
fn scheme_sees_the_current_position_and_the_time_step() {
    let mut sim = Simulation::new();
    sim.advance(point(2.0, 3.0, 4.0));
    let seen = sim.step(scalar(0.25), |_p: AttractorParameters, x: Vec3, dt: Scalar| {
        Vec3::new(x.z, x.x, dt)
    });
    assert_eq!(coordinates(seen), (4.0, 2.0, 0.25));
    assert_eq!(sim.snapshot(), vec![point(2.0, 3.0, 4.0), point(4.0, 2.0, 0.25)]);
}

#[test]
fn edit_touches_one_staged_field() {
    let mut sim = Simulation::new();
    sim.edit(ParameterField::Rho, scalar(30.0));
    assert_eq!(
        sim.staged(),
        AttractorParameters::new(scalar(10.0), scalar(30.0), scalar(8.0 / 3.0))
    );
    sim.edit(ParameterField::Beta, scalar(0.0));
    assert_eq!(sim.staged(), AttractorParameters::new(scalar(10.0), scalar(30.0), scalar(0.0)));
    sim.edit(ParameterField::Sigma, scalar(45.0));
    assert_eq!(sim.staged(), AttractorParameters::new(scalar(45.0), scalar(30.0), scalar(0.0)));
}

#[test]
fn position_is_the_newest_point_of_the_trajectory() {
    let mut sim = Simulation::new();
    assert_eq!(sim.history().last(), None);
    assert_eq!(sim.position(), Vec3::one());
    for _ in 0..25 {
        sim.step(scalar(0.01), euler);
        assert_eq!(sim.history().last(), Some(sim.position()));
    }
    sim.edit(ParameterField::Sigma, scalar(3.0));
    assert_eq!(sim.history().last(), Some(sim.position()));
    sim.commit();
    assert_eq!(sim.history().last(), None);
    assert_eq!(sim.position(), Vec3::one());
}

#[test]
fn trajectory_is_the_record_of_the_steps_in_order() {
    let mut sim = Simulation::new();
    let mut expected = Vec::new();
    for _ in 0..200 {
        expected.push(sim.step(scalar(0.01), euler));
    }
    assert_eq!(sim.snapshot(), expected);
}
