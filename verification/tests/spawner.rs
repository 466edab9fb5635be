use beavy_game::geometry::{Point, Size};
use beavy_game::movement::{is_pressed, key_direction, move_by_keyboard, KeyCode};
use beavy_game::spawner::{
    channel, scatter, spawn_from, spawn_objects, Color, Spawn, SpawnTimer, SPAWN_SIDE,
};
use beavy_game::sprite_animation::{AnimatedSprite, TurnDirection};
use beavy_game::timer::RepeatingTimer;

#[test]
fn scatter_spreads_words_over_the_axis() {
    assert_eq!(scatter(0, 800), -400);
    assert_eq!(scatter(u32::MAX, 800), 399);
    assert_eq!(scatter(1 << 31, 800), 0);
    assert_eq!(scatter(1 << 30, 800), -200);
    assert_eq!(scatter(3 << 30, 600), 150);
    assert_eq!(scatter(0, 601), -300);
    assert_eq!(scatter(u32::MAX, 601), 300);
}

#[test]
fn scatter_at_the_ends_of_the_range() {
    assert_eq!(scatter(12345, 0), 0);
    assert_eq!(scatter(u32::MAX, 1), 0);
    assert_eq!(scatter(0, u32::MAX), -(i32::MAX));
    assert_eq!(scatter(u32::MAX, u32::MAX), i32::MAX);
}

#[test]
fn channel_is_the_top_byte() {
    assert_eq!(channel(0), 0);
    assert_eq!(channel(0x00ff_ffff), 0);
    assert_eq!(channel(0x0100_0000), 1);
    assert_eq!(channel(0x8000_0000), 128);
    assert_eq!(channel(u32::MAX), 255);
}

#[test]
fn spawn_from_words_is_exact() {
    let spawn = spawn_from(0, u32::MAX, 0, 0x8000_0000, u32::MAX, 800, 600);
    assert_eq!(
        spawn,
        Spawn {
            position: Point::new(-400, 299),
            color: Color { red: 0, green: 128, blue: 255 },
            size: Size::new(20, 20),
        }
    );
    assert_eq!(SPAWN_SIDE, 20);
}

#[test]
fn spawner_fires_once_per_period() {
    let mut timer = SpawnTimer::new(500_000_000);
    assert_eq!(timer.0, RepeatingTimer::new(500_000_000));
    assert!(spawn_objects(&mut timer, 499_999_999, 800, 600).is_none());
    assert!(spawn_objects(&mut timer, 1, 800, 600).is_some());
    assert!(spawn_objects(&mut timer, 100_000_000, 800, 600).is_none());
    assert_eq!(timer.0.elapsed, 100_000_000);
    // A tick that spans several periods still spawns one entity.
    assert!(spawn_objects(&mut timer, 2_000_000_000, 800, 600).is_some());
    assert_eq!(timer.0.times_finished_this_tick, 4);
    assert_eq!(timer.0.elapsed, 100_000_000);
}

#[test]
fn spawned_entities_lie_in_the_window() {
    let mut timer = SpawnTimer::new(1);
    let mut seen = Vec::new();
    for _ in 0..500 {
        let spawn = spawn_objects(&mut timer, 1, 800, 600).unwrap();
        assert!(-400 <= spawn.position.x && spawn.position.x < 400);
        assert!(-300 <= spawn.position.y && spawn.position.y < 300);
        assert_eq!(spawn.size, Size::new(20, 20));
        seen.push(spawn);
    }
    // The words are random: five hundred spawns do not all coincide.
    assert!(seen.iter().any(|s| *s != seen[0]));
}

#[test]
fn spawn_in_an_empty_window_is_at_the_origin() {
    let mut timer = SpawnTimer::new(1);
    let spawn = spawn_objects(&mut timer, 1, 0, 0).unwrap();
    assert_eq!(spawn.position, Point::new(0, 0));
}

#[test]
fn pressed_keys_are_found() {
    let pressed = vec![KeyCode::ArrowUp, KeyCode::Other];
    assert!(is_pressed(&pressed, KeyCode::ArrowUp));
    assert!(is_pressed(&pressed, KeyCode::Other));
    assert!(!is_pressed(&pressed, KeyCode::ArrowDown));
    assert!(!is_pressed(&Vec::new(), KeyCode::ArrowUp));
}

#[test]
fn key_direction_sums_the_arrows() {
    assert_eq!(key_direction(&Vec::new()), Point::new(0, 0));
    assert_eq!(key_direction(&vec![KeyCode::ArrowRight]), Point::new(1, 0));
    assert_eq!(key_direction(&vec![KeyCode::ArrowUp]), Point::new(0, 1));
    assert_eq!(key_direction(&vec![KeyCode::ArrowLeft]), Point::new(-1, 0));
    assert_eq!(key_direction(&vec![KeyCode::ArrowDown]), Point::new(0, -1));
    assert_eq!(key_direction(&vec![KeyCode::Other]), Point::new(0, 0));
    assert_eq!(key_direction(&vec![KeyCode::ArrowLeft, KeyCode::ArrowUp]), Point::new(-1, 1));
    assert_eq!(key_direction(&vec![KeyCode::ArrowLeft, KeyCode::ArrowRight]), Point::new(0, 0));
    assert_eq!(
        key_direction(&vec![KeyCode::ArrowDown, KeyCode::ArrowRight, KeyCode::ArrowUp]),
        Point::new(1, 0)
    );
}

#[test]
fn a_key_counts_once() {
    let pressed = vec![KeyCode::ArrowRight, KeyCode::ArrowRight, KeyCode::ArrowRight];
    assert_eq!(key_direction(&pressed), Point::new(1, 0));
}

#[test]
fn movement_turns_every_movable() {
    let mut movables = vec![AnimatedSprite::new(), AnimatedSprite::new()];
    let direction = move_by_keyboard(&vec![KeyCode::ArrowLeft, KeyCode::ArrowDown], &mut movables);
    assert_eq!(direction, Point::new(-1, -1));
    for sprite in movables.iter_mut() {
        assert_eq!(sprite.direction(), TurnDirection(Point::new(-1, -1)));
        sprite.turn();
        assert!(!sprite.flip_x());
    }
}

#[test]
fn releasing_the_keys_keeps_the_direction() {
    let mut movables = vec![AnimatedSprite::new()];
    move_by_keyboard(&vec![KeyCode::ArrowLeft], &mut movables);
    let direction = move_by_keyboard(&Vec::new(), &mut movables);
    assert_eq!(direction, Point::new(0, 0));
    assert_eq!(movables[0].direction(), TurnDirection(Point::new(-1, 0)));
    let cancelled = move_by_keyboard(&vec![KeyCode::ArrowUp, KeyCode::ArrowDown], &mut movables);
    assert_eq!(cancelled, Point::new(0, 0));
    assert_eq!(movables[0].direction(), TurnDirection(Point::new(-1, 0)));
}
