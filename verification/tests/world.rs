use langton_ant::ant::Direction;
use langton_ant::grid::Color;
use langton_ant::world::World;

fn world_at(width: u32, height: u32, x: u64, y: u64, dir: u64) -> World {
    World::from_draws(width, height, 800, 600, 40, 5, x, y, dir).unwrap()
}

#[test]
fn world_new_rejects_a_map_without_area() {
    assert!(World::new(0, 10, 800, 600, 40, 5).is_none());
    assert!(World::new(10, 0, 800, 600, 40, 5).is_none());
    assert!(World::new(0, 0, 800, 600, 40, 5).is_none());
    assert!(World::from_draws(0, 10, 800, 600, 40, 5, 1, 2, 3).is_none());
    assert!(World::from_draws(10, 0, 800, 600, 40, 5, 1, 2, 3).is_none());
}

#[test]
fn world_new_places_the_ant_on_a_white_grid() {
    for _ in 0..50 {
        let w = World::new(7, 3, 800, 600, 40, 5).unwrap();
        let ant = w.ant();
        assert!(0 <= ant.x && ant.x < 7);
        assert!(0 <= ant.y && ant.y < 3);
        assert_eq!(w.iteration_count(), 0);
        assert_eq!(w.refresh_interval(), 40);
        assert_eq!(w.cycle_interval(), 5);
        for y in 0..3 {
            for x in 0..7 {
                assert_eq!(w.get(x, y), Color::White);
            }
        }
        assert_eq!(w.grid().width(), 7);
        assert_eq!(w.grid().height(), 3);
        assert!(w.camera().follow_ant());
    }
}

#[test]
fn world_from_draws_reduces_each_number() {
    let w = world_at(10, 4, 23, 9, 6);
    assert_eq!(w.ant().x, 3);
    assert_eq!(w.ant().y, 1);
    assert_eq!(w.ant().dir, Direction::Down);
    let w = world_at(10, 4, u64::MAX, u64::MAX, u64::MAX);
    assert_eq!(w.ant().x, (u64::MAX % 10) as i64);
    assert_eq!(w.ant().y, (u64::MAX % 4) as i64);
    assert_eq!(w.ant().dir, Direction::Left);
}

#[test]
fn world_get_set_inverse_reach_the_grid() {
    let mut w = world_at(5, 5, 0, 0, 0);
    w.set(-1, 6, Color::Black);
    assert_eq!(w.get(4, 1), Color::Black);
    w.inverse(9, -4);
    assert_eq!(w.get(4, 1), Color::White);
    w.inverse(2, 2);
    assert_eq!(w.get(2, 2), Color::Black);
    assert_eq!(w.ant().x, 0);
    assert_eq!(w.iteration_count(), 0);
}

#[test]
fn move_ant_goes_round_the_torus() {
    let mut w = world_at(5, 3, 4, 2, 1);
    w.move_ant(1, 1);
    assert_eq!((w.ant().x, w.ant().y), (0, 0));
    w.move_ant(-1, -1);
    assert_eq!((w.ant().x, w.ant().y), (4, 2));
    w.move_ant(0, 0);
    assert_eq!((w.ant().x, w.ant().y), (4, 2));
    w.move_ant(12, -7);
    assert_eq!((w.ant().x, w.ant().y), (1, 1));
    w.move_ant(i64::MAX, i64::MIN);
    assert_eq!(
        (w.ant().x, w.ant().y),
        ((1 + i64::MAX.rem_euclid(5)) % 5, (1 + i64::MIN.rem_euclid(3)) % 3)
    );
    assert_eq!(w.ant().dir, Direction::Right);
}

#[test]
fn first_steps_on_a_white_grid() {
    let mut w = world_at(11, 11, 5, 5, 0);
    w.step();
    assert_eq!((w.ant().x, w.ant().y, w.ant().dir), (6, 5, Direction::Right));
    assert_eq!(w.get(5, 5), Color::Black);
    w.step();
    assert_eq!((w.ant().x, w.ant().y, w.ant().dir), (6, 6, Direction::Down));
    assert_eq!(w.get(6, 5), Color::Black);
    w.step();
    assert_eq!((w.ant().x, w.ant().y, w.ant().dir), (5, 6, Direction::Left));
    assert_eq!(w.get(6, 6), Color::Black);
    w.step();
    assert_eq!((w.ant().x, w.ant().y, w.ant().dir), (5, 5, Direction::Up));
    assert_eq!(w.get(5, 6), Color::Black);
    w.step();
    assert_eq!((w.ant().x, w.ant().y, w.ant().dir), (4, 5, Direction::Left));
    assert_eq!(w.get(5, 5), Color::White);
    assert_eq!(w.iteration_count(), 5);
}

#[test]
fn a_black_cell_turns_the_ant_left_and_becomes_white() {
    let mut w = world_at(9, 9, 4, 4, 0);
    w.set(4, 4, Color::Black);
    w.do_one_cycle();
    assert_eq!((w.ant().x, w.ant().y, w.ant().dir), (3, 4, Direction::Left));
    assert_eq!(w.get(4, 4), Color::White);
    assert_eq!(w.iteration_count(), 0);
}

#[test]
fn the_ant_crosses_each_border() {
    let mut w = world_at(4, 3, 3, 1, 0);
    w.step();
    assert_eq!((w.ant().x, w.ant().y, w.ant().dir), (0, 1, Direction::Right));
    let mut w = world_at(4, 3, 1, 2, 1);
    w.step();
    assert_eq!((w.ant().x, w.ant().y, w.ant().dir), (1, 0, Direction::Down));
    let mut w = world_at(4, 3, 0, 1, 2);
    w.step();
    assert_eq!((w.ant().x, w.ant().y, w.ant().dir), (3, 1, Direction::Left));
    let mut w = world_at(4, 3, 1, 0, 3);
    w.step();
    assert_eq!((w.ant().x, w.ant().y, w.ant().dir), (1, 2, Direction::Up));
}

#[test]
fn the_ant_on_a_single_cell_stays_there() {
    let mut w = world_at(1, 1, 0, 0, 0);
    w.step();
    assert_eq!((w.ant().x, w.ant().y, w.ant().dir), (0, 0, Direction::Right));
    assert_eq!(w.get(0, 0), Color::Black);
    w.step();
    assert_eq!((w.ant().x, w.ant().y, w.ant().dir), (0, 0, Direction::Up));
    assert_eq!(w.get(0, 0), Color::White);
}

/// The automaton written out once more, on plain vectors.
struct Plain {
    size: i64,
    black: Vec<bool>,
    x: i64,
    y: i64,
    dir: i64,
}

impl Plain {
    fn step(&mut self) {
        let at = (self.y * self.size + self.x) as usize;
        self.dir = if self.black[at] { (self.dir + 3) % 4 } else { (self.dir + 1) % 4 };
        self.black[at] = !self.black[at];
        let (dx, dy) = [(0, -1), (1, 0), (0, 1), (-1, 0)][self.dir as usize];
        self.x = (self.x + dx + self.size) % self.size;
        self.y = (self.y + dy + self.size) % self.size;
    }
}

#[test]
fn eleven_thousand_steps_follow_the_known_trajectory() {
    let size: i64 = 120;
    let mut w = world_at(size as u32, size as u32, 60, 60, 0);
    let black = vec![false; (size * size) as usize];
    let mut r = Plain { size, black, x: 60, y: 60, dir: 0 };
    for n in 1..=11_000u64 {
        w.step();
        r.step();
        assert_eq!((w.ant().x, w.ant().y), (r.x, r.y), "step {}", n);
        assert_eq!(w.ant().dir, Direction::of_index(r.dir as u64), "step {}", n);
        assert_eq!(w.iteration_count(), n);
    }
    let mut black = 0;
    for y in 0..size {
        for x in 0..size {
            let c = w.get(x, y);
            assert_eq!(c == Color::Black, r.black[(y * size + x) as usize]);
            if c == Color::Black {
                black += 1;
            }
        }
    }
    assert!(black > 0);
}

#[test]
fn the_highway_repeats_every_104_steps() {
    let mut w = world_at(400, 400, 200, 200, 0);
    for _ in 0..10_500 {
        w.step();
    }
    let a = w.ant();
    for _ in 0..104 {
        w.step();
    }
    let b = w.ant();
    for _ in 0..104 {
        w.step();
    }
    let c = w.ant();
    assert_eq!(a.dir, b.dir);
    assert_eq!(b.dir, c.dir);
    assert_eq!(((b.x - a.x).abs(), (b.y - a.y).abs()), (2, 2));
    assert_eq!((c.x - b.x, c.y - b.y), (b.x - a.x, b.y - a.y));
}

#[test]
fn equal_worlds_stay_equal() {
    let mut a = world_at(30, 20, 7, 9, 2);
    let mut b = World::from_draws(30, 20, 320, 200, 1, 1, 37, 29, 6).unwrap();
    b.toggle_follow();
    for n in 0..3000 {
        a.step();
        b.step();
        assert_eq!(a.ant(), b.ant(), "step {}", n);
    }
    for y in 0..20 {
        for x in 0..30 {
            assert_eq!(a.get(x, y), b.get(x, y));
        }
    }
}

#[test]
fn status_reports_the_world() {
    let mut w = World::from_draws(50, 40, 800, 600, 33, 7, 12, 34, 0).unwrap();
    w.step();
    w.set_view_above_ant();
    let s = w.status();
    assert_eq!(s.iteration, 1);
    assert_eq!((s.ant_x, s.ant_y), (13, 34));
    assert_eq!((s.camera_x, s.camera_y), (w.camera().pos_x(), w.camera().pos_y()));
    assert_eq!((s.refresh_interval, s.cycle_interval), (33, 7));
}

#[test]
fn the_highway_shifts_two_cells_in_104_rule_applications() {
    let mut w = world_at(1000, 1000, 500, 500, 0);
    for _ in 0..11_000 {
        w.do_one_cycle();
    }
    let a = w.ant();
    for _ in 0..104 {
        w.do_one_cycle();
    }
    let b = w.ant();
    assert_eq!(b.dir, a.dir);
    assert_eq!((b.x - a.x).abs(), 2);
    assert_eq!((b.y - a.y).abs(), 2);
    assert_eq!(w.iteration_count(), 0);
}
