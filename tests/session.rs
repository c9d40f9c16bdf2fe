use enigmap_gtk::error::{ConfigError, GenerationError};
use enigmap_gtk::generator::{Circle, CircleParam, Generator, GeneratorKind, Renderer};
use enigmap_gtk::grid::GridMap;
use enigmap_gtk::state::{GenerationJob, State};
use enigmap_gtk::terrain::HexType;
use enigmap_gtk::viewport::Scale;

/// A stand-in generator whose terrain depends only on the seed and the
/// grid's dimensions.
fn fake_generate(job: &mut GenerationJob) {
    let n = job.map.get_area();
    let width = job.map.size_x() as usize;
    for i in 0..n {
        let v = (i as u64 * 31 + job.seed as u64 + width as u64) % 3;
        let t = match v {
            0 => HexType::Water,
            1 => HexType::Field,
            _ => HexType::Mountain,
        };
        job.map.set_terrain(i, t);
    }
}

fn run_cycle(s: &mut State, mut job: GenerationJob) -> usize {
    fake_generate(&mut job);
    let ticket = job.ticket;
    s.finish_generation(ticket, Some(job.map)).unwrap().len()
}

fn terrain_of(m: &GridMap) -> Vec<HexType> {
    (0..m.get_area()).map(|i| m.hex(i).terrain_type).collect()
}

#[test]
fn session_starts_with_defaults() {
    let s = State::default();
    assert_eq!((s.size_x(), s.size_y()), (100, 75));
    assert_eq!(s.generator(), Generator::Circle(Circle::new()));
    assert_eq!(s.seed(), 0);
    assert_eq!(s.generator_seed(), 0);
    assert!(s.random_seed());
    assert_eq!(s.zoom_level(), 0);
    assert_eq!(s.renderer(), Renderer::Ogl);
    assert_eq!(s.pending_generation(), None);
}

#[test]
fn new_session_runs_with_the_drawn_seed() {
    let mut s = State::new(31337);
    assert!(s.random_seed());
    assert_eq!(s.seed(), 0);
    assert_eq!(s.generator_seed(), 31337);
    let job = s.regenerate();
    assert_eq!(job.seed, 31337);
    assert_eq!(run_cycle(&mut s, job), 7500);
    let job = s.set_random_seed(false, 5);
    assert_eq!(job.seed, 0);
}

#[test]
fn startup_scenario_counts_and_zooms() {
    let mut s = State::new(0);
    let job = s.regenerate();
    assert_eq!(job.generator, Generator::Circle(Circle::new()));
    assert_eq!(job.seed, 0);
    assert_eq!(run_cycle(&mut s, job), 7500);
    assert_eq!(s.instance_data().len(), 7500);
    assert_eq!(s.zoom_in(), Scale::Linear { fifths: 6 });
    assert_eq!(s.zoom_level(), 1);
    let mut t = State::new(2024);
    t.zoom_out();
    assert_eq!(t.zoom_out(), Scale::Exponential { exponent_fifths: -2 });
    assert_eq!(t.zoom_level(), -2);
    assert_eq!(t.reset_zoom(), Scale::Linear { fifths: 5 });
}

#[test]
fn resize_cycle_gives_one_record_per_cell() {
    let mut s = State::new(2024);
    let job = s.set_size_x(7).unwrap();
    assert_eq!((job.map.size_x(), job.map.size_y()), (7, 75));
    assert_eq!(run_cycle(&mut s, job), 7 * 75);
    let job = s.set_size_y(3).unwrap();
    assert_eq!(run_cycle(&mut s, job), 21);
    let job = s.set_size_x(7).unwrap();
    assert_eq!(run_cycle(&mut s, job), 21);
}

#[test]
fn zero_size_is_refused_and_nothing_changes() {
    let mut s = State::new(2024);
    let job = s.regenerate();
    run_cycle(&mut s, job);
    let before_cells = terrain_of(s.map());
    let before_records = s.instance_data();
    assert_eq!(s.set_size_x(0).unwrap_err(), ConfigError::ZeroSize);
    assert_eq!(s.set_size_y(0).unwrap_err(), ConfigError::ZeroSize);
    assert_eq!((s.size_x(), s.size_y()), (100, 75));
    assert_eq!(terrain_of(s.map()), before_cells);
    assert_eq!(s.instance_data(), before_records);
    assert_eq!(s.pending_generation(), None);
}

#[test]
fn switching_generator_resets_and_regenerates() {
    let mut s = State::new(2024);
    let job = s.set_circle_param(CircleParam::RingSize(9000)).unwrap().unwrap();
    run_cycle(&mut s, job);
    let job = s.choose_generator(GeneratorKind::Islands);
    assert!(matches!(job.generator, Generator::Island(_)));
    assert_eq!(run_cycle(&mut s, job), 7500);
    let job = s.choose_generator(GeneratorKind::Circle);
    assert_eq!(job.generator, Generator::Circle(Circle::new()));
    assert_eq!(s.generator().kind(), GeneratorKind::Circle);
    assert_eq!(run_cycle(&mut s, job), 7500);
    let job = s.choose_generator(GeneratorKind::Inland);
    assert_eq!(job.generator, Generator::Inland(enigmap_gtk::generator::Inland {}));
}

#[test]
fn same_settings_give_identical_terrain() {
    let mut a = State::new(17);
    let mut b = State::new(99);
    a.set_random_seed(false, 0);
    b.set_random_seed(false, 0);
    let ja = a.set_seed(42);
    let jb = b.set_seed(42);
    assert_eq!((ja.generator, ja.seed), (jb.generator, jb.seed));
    run_cycle(&mut a, ja);
    run_cycle(&mut b, jb);
    assert_eq!(terrain_of(a.map()), terrain_of(b.map()));
    assert_eq!(a.instance_data(), b.instance_data());
    let jc = a.set_seed(43);
    assert_eq!(jc.seed, 43);
}

#[test]
fn random_seed_uses_the_drawn_number_then_the_user_seed() {
    let mut s = State::new(2024);
    s.set_seed(5);
    let job = s.set_random_seed(true, 1234);
    assert_eq!(job.seed, 1234);
    assert!(s.random_seed());
    assert_eq!(s.seed(), 5);
    let job = s.set_random_seed(false, 999);
    assert_eq!(job.seed, 5);
    assert_eq!(s.generator_seed(), 5);
}

#[test]
fn circle_parameters_are_checked() {
    let mut s = State::new(2024);
    assert_eq!(
        s.set_circle_param(CircleParam::MountainPercentage(1001)).unwrap_err(),
        ConfigError::ParameterOutOfRange
    );
    assert_eq!(s.generator(), Generator::Circle(Circle::new()));
    let job = s.set_circle_param(CircleParam::MountainPercentage(1000)).unwrap().unwrap();
    let expected = Circle { mountain_percentage: 1000, ..Circle::new() };
    assert_eq!(job.generator, Generator::Circle(expected));
    s.choose_generator(GeneratorKind::Inland);
    let pending = s.pending_generation();
    assert!(s.set_circle_param(CircleParam::OceanDistance(9)).unwrap().is_none());
    assert_eq!(s.pending_generation(), pending);
}

#[test]
fn circle_setters_change_one_field() {
    let mut c = Circle::new();
    c.set_param(CircleParam::IceFalloff(7)).unwrap();
    c.set_param(CircleParam::NoiseScale(8)).unwrap();
    c.set_param(CircleParam::LandJitter(9)).unwrap();
    c.set_param(CircleParam::MountainStickiness(10)).unwrap();
    c.set_param(CircleParam::OceanDistance(11)).unwrap();
    let d = Circle::new();
    assert_eq!(
        c,
        Circle {
            ice_falloff: 7,
            noise_scale: 8,
            land_jitter: 9,
            mountain_stickiness: 10,
            ocean_distance: 11,
            ..d
        }
    );
    assert_eq!(Generator::with_defaults(GeneratorKind::Circle), Generator::Circle(d));
}

#[test]
fn stale_result_is_refused() {
    let mut s = State::new(2024);
    let old_job = s.set_size_x(10).unwrap();
    let new_job = s.set_size_x(12).unwrap();
    let ticket = old_job.ticket;
    assert_eq!(
        s.finish_generation(ticket, Some(old_job.map)).unwrap_err(),
        GenerationError::Stale
    );
    assert_eq!(s.pending_generation(), Some(new_job.ticket));
    assert_eq!(run_cycle(&mut s, new_job), 12 * 75);
}

#[test]
fn failed_generation_keeps_previous_grid() {
    let mut s = State::new(2024);
    let job = s.regenerate();
    run_cycle(&mut s, job);
    let before = terrain_of(s.map());
    let job = s.set_seed(77);
    let ticket = job.ticket;
    assert_eq!(
        s.finish_generation(ticket, None).unwrap_err(),
        GenerationError::GenerationFailure
    );
    assert_eq!(terrain_of(s.map()), before);
    assert_eq!(s.pending_generation(), None);
    let job = s.regenerate();
    let ticket = job.ticket;
    let wrong = GridMap::new(3, 3, HexType::Ice).unwrap();
    assert_eq!(
        s.finish_generation(ticket, Some(wrong)).unwrap_err(),
        GenerationError::GenerationFailure
    );
    assert_eq!(terrain_of(s.map()), before);
}

#[test]
fn generated_grid_replaces_the_shared_one() {
    let mut s = State::new(2024);
    let mut job = s.regenerate();
    job.map.set_terrain(0, HexType::Mountain);
    let ticket = job.ticket;
    let records = s.finish_generation(ticket, Some(job.map)).unwrap();
    assert_eq!(s.map().hex(0).terrain_type, HexType::Mountain);
    assert_eq!((records[0].r, records[0].g, records[0].b), (120, 108, 96));
    assert_eq!((records[1].r, records[1].g, records[1].b), (62, 138, 214));
    assert_eq!(s.pending_generation(), None);
}

#[test]
fn view_events_skip_generation() {
    let mut s = State::new(2024);
    let pending = s.pending_generation();
    assert_eq!(s.window_resized(640, 480), (201, 226));
    assert_eq!(s.view_state().window_width, 640);
    assert_eq!(s.view_state().window_height, 480);
    assert_eq!(s.world_bounds(), (201, 226));
    s.set_renderer(Renderer::OglTextured);
    assert_eq!(s.renderer(), Renderer::OglTextured);
    s.zoom_in();
    assert_eq!(s.pending_generation(), pending);
    assert_eq!(s.color_map(), enigmap_gtk::terrain::ColorMap::standard());
}
