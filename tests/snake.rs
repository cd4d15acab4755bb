use snake_core::facing::{Facing, Key};
use snake_core::game::{Game, Snake, Status};
use snake_core::position::{Position, Size};

fn grid10() -> Size<i32> {
    Size::square(10)
}

fn running_game(head: Position, facing: Facing, tail: Vec<Position>, fruit: Position) -> Game {
    let score = tail.len() as u32;
    Game {
        grid: grid10(),
        snake: Snake { head, facing, tail },
        fruit,
        score,
        status: Status::Running,
    }
}

#[test]
fn tick_up_with_empty_tail() {
    let mut g = running_game(Position::new(5, 5), Facing::Up, vec![], Position::new(0, 0));
    g.tick();
    assert_eq!(g.snake.head, Position::new(5, 4));
    assert!(g.snake.tail.is_empty());
    assert_eq!(g.status, Status::Running);
    assert_eq!(g.score, 0);
}

#[test]
fn tick_left_with_one_segment() {
    let mut g = running_game(
        Position::new(5, 5),
        Facing::Left,
        vec![Position::new(5, 6)],
        Position::new(0, 0),
    );
    g.tick();
    assert_eq!(g.snake.head, Position::new(4, 5));
    assert_eq!(g.snake.tail, vec![Position::new(5, 5)]);
}

#[test]
fn chain_shift_follows_leader() {
    let mut s = Snake {
        head: Position::new(3, 3),
        facing: Facing::Down,
        tail: vec![Position::new(3, 2), Position::new(2, 2), Position::new(1, 2)],
    };
    let prev = s.move_snake();
    assert_eq!(prev, Position::new(3, 3));
    assert_eq!(s.head, Position::new(3, 4));
    assert_eq!(
        s.tail,
        vec![Position::new(3, 3), Position::new(3, 2), Position::new(2, 2)]
    );
}

#[test]
fn movement_is_deterministic() {
    let tail = vec![Position::new(7, 1), Position::new(7, 2)];
    let mut a = Snake { head: Position::new(6, 1), facing: Facing::Right, tail: tail.clone() };
    let mut b = Snake { head: Position::new(6, 1), facing: Facing::Right, tail };
    a.move_snake();
    b.move_snake();
    assert_eq!(a.head, b.head);
    assert_eq!(a.tail, b.tail);
    assert_eq!(a.head, Position::new(7, 1));
}

#[test]
fn eat_step_grows_and_scores() {
    let mut g = running_game(Position::new(4, 4), Facing::Up, vec![], Position::new(4, 4));
    g.eat_fruit(Position::new(4, 5));
    assert_eq!(g.score, 1);
    assert_eq!(g.snake.tail, vec![Position::new(4, 5)]);
    assert!(g.fruit.in_bounds(g.grid));
}

#[test]
fn eat_step_at_given_cell() {
    let mut g = running_game(Position::new(4, 4), Facing::Up, vec![], Position::new(4, 4));
    g.eat_fruit_at(Position::new(4, 5), Position::new(8, 1));
    assert_eq!(g.fruit, Position::new(8, 1));
    assert_eq!(g.score, 1);
    assert_eq!(g.snake.tail, vec![Position::new(4, 5)]);
}

#[test]
fn eat_step_without_overlap_changes_nothing() {
    let mut g = running_game(Position::new(4, 4), Facing::Up, vec![], Position::new(2, 2));
    g.eat_fruit_at(Position::new(4, 5), Position::new(8, 1));
    assert_eq!(g.fruit, Position::new(2, 2));
    assert_eq!(g.score, 0);
    assert!(g.snake.tail.is_empty());
}

#[test]
fn tick_onto_fruit_grows_at_old_head() {
    let mut g = running_game(
        Position::new(4, 5),
        Facing::Up,
        vec![Position::new(4, 6)],
        Position::new(4, 4),
    );
    g.tick();
    assert_eq!(g.snake.head, Position::new(4, 4));
    assert_eq!(g.score, 2);
    assert_eq!(g.snake.tail, vec![Position::new(4, 5), Position::new(4, 5)]);
    assert!(g.fruit.in_bounds(g.grid));
    assert_eq!(g.status, Status::Running);
}

#[test]
fn leaving_right_edge_ends_game() {
    let mut g = running_game(Position::new(9, 3), Facing::Right, vec![], Position::new(0, 0));
    g.tick();
    assert_eq!(g.snake.head.x, 10);
    assert_eq!(g.status, Status::GameOver { score: 0 });
    // a finished game stays as it is
    g.tick();
    assert_eq!(g.snake.head, Position::new(10, 3));
    assert_eq!(g.status, Status::GameOver { score: 0 });
}

#[test]
fn leaving_top_edge_ends_game_with_score() {
    let mut g = running_game(
        Position::new(2, 0),
        Facing::Up,
        vec![Position::new(2, 1)],
        Position::new(5, 5),
    );
    g.tick();
    assert_eq!(g.snake.head, Position::new(2, -1));
    assert_eq!(g.status, Status::GameOver { score: 1 });
}

#[test]
fn collide_keeps_running_inside() {
    let mut g = running_game(Position::new(0, 9), Facing::Up, vec![], Position::new(5, 5));
    assert!(g.collide_snake());
    assert_eq!(g.status, Status::Running);
}

#[test]
fn in_bounds_edges() {
    let size = Size { width: 10, height: 8 };
    assert!(Position::new(0, 0).in_bounds(size));
    assert!(Position::new(9, 7).in_bounds(size));
    assert!(!Position::new(10, 0).in_bounds(size));
    assert!(!Position::new(0, -1).in_bounds(size));
    assert!(!Position::new(-1, 0).in_bounds(size));
    assert!(!Position::new(0, 8).in_bounds(size));
}

#[test]
fn random_positions_in_bounds() {
    let size = Size { width: 3, height: 2 };
    for _ in 0..200 {
        assert!(Position::random(size).in_bounds(size));
    }
    let one = Size::square(1);
    assert_eq!(Position::random(one), Position::new(0, 0));
}

#[test]
fn center_of_grid() {
    assert_eq!(Position::center(Size { width: 20, height: 15 }), Position::new(10, 7));
    assert_eq!(Position::center(Size::square(1)), Position::new(0, 0));
}

#[test]
fn new_game_layout() {
    let g = Game::new(Size { width: 20, height: 12 }, Position::new(1, 2));
    assert_eq!(g.snake.head, Position::new(10, 6));
    assert_eq!(g.snake.facing, Facing::Up);
    assert!(g.snake.tail.is_empty());
    assert_eq!(g.score, 0);
    assert_eq!(g.fruit, Position::new(1, 2));
    assert_eq!(g.status, Status::Running);
    let s = Game::start(grid10());
    assert!(s.fruit.in_bounds(s.grid));
    assert_eq!(s.snake.head, Position::new(5, 5));
}

#[test]
fn facing_opposites() {
    assert_eq!(Facing::Up.opposite(), Facing::Down);
    assert_eq!(Facing::Down.opposite(), Facing::Up);
    assert_eq!(Facing::Left.opposite(), Facing::Right);
    assert_eq!(Facing::Right.opposite(), Facing::Left);
    assert!(Facing::Left.is_opposite(Facing::Right));
    assert!(!Facing::Left.is_opposite(Facing::Up));
    assert_eq!(Facing::default(), Facing::Up);
}

#[test]
fn keys_map_to_facing() {
    assert_eq!(Facing::from_key_code(Key::W), Some(Facing::Up));
    assert_eq!(Facing::from_key_code(Key::K), Some(Facing::Up));
    assert_eq!(Facing::from_key_code(Key::H), Some(Facing::Left));
    assert_eq!(Facing::from_key_code(Key::J), Some(Facing::Down));
    assert_eq!(Facing::from_key_code(Key::D), Some(Facing::Right));
    assert_eq!(Facing::from_key_code(Key::Right), Some(Facing::Right));
    assert_eq!(Facing::from_key_code(Key::Other), None);
}

#[test]
fn last_pressed_key_wins() {
    let mut g = Game::new(grid10(), Position::new(0, 0));
    g.change_direction(&vec![Key::Left, Key::Other, Key::J, Key::Other]);
    assert_eq!(g.snake.facing, Facing::Down);
    g.change_direction(&vec![Key::Other]);
    assert_eq!(g.snake.facing, Facing::Down);
    g.change_direction(&vec![]);
    assert_eq!(g.snake.facing, Facing::Down);
    // reversing is not guarded against
    g.change_direction(&vec![Key::Up]);
    assert_eq!(g.snake.facing, Facing::Up);
}
