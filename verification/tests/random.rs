use color_smash::color::Color;
use color_smash::event::RenderEvent;
use color_smash::state::ColorState;
use rand::rngs::StdRng;
use rand::{Rng, SeedableRng};

fn history_of(state: &ColorState) -> Vec<Color> {
    state.history().iter().copied().collect()
}

#[test]
fn randomize_primary_sets_and_syncs_the_drawn_color() {
    let mut rng = StdRng::seed_from_u64(7);
    let mut state = ColorState::new();
    for _ in 0..50 {
        let before = state.primary();
        let history_before = history_of(&state);
        let events = state.randomize_primary(&mut rng);
        let drawn = state.primary();
        assert_eq!(events.last(), Some(&RenderEvent::InputFieldsSynced(drawn)));
        if drawn == before {
            assert_eq!(events.len(), 1);
            assert_eq!(history_of(&state), history_before);
        } else {
            assert_eq!(events[0], RenderEvent::BackgroundChanged(drawn.hex()));
            assert_eq!(state.history().back(), Some(&drawn));
        }
        assert_eq!(state.reference(), Color::new(0, 0, 0));
        assert!(state.history().len() <= 16);
    }
}

#[test]
fn randomize_reference_sets_and_syncs_the_drawn_color() {
    let mut rng = StdRng::seed_from_u64(11);
    let mut state = ColorState::new();
    state.set_primary(Color::new(1, 2, 3));
    for _ in 0..50 {
        let events = state.randomize_reference(&mut rng);
        let drawn = state.reference();
        assert_eq!(
            events,
            vec![
                RenderEvent::BottomGradientChanged { from: Color::new(1, 2, 3), to: drawn },
                RenderEvent::ReferenceFieldsSynced(drawn),
            ]
        );
        assert_eq!(state.primary(), Color::new(1, 2, 3));
        assert_eq!(history_of(&state), vec![Color::new(1, 2, 3)]);
    }
}

#[test]
fn the_same_seed_draws_the_same_colors() {
    let mut first = StdRng::seed_from_u64(2024);
    let mut second = StdRng::seed_from_u64(2024);
    let mut a = ColorState::new();
    let mut b = ColorState::new();
    for _ in 0..20 {
        assert_eq!(a.randomize_primary(&mut first), b.randomize_primary(&mut second));
        assert_eq!(a.randomize_reference(&mut first), b.randomize_reference(&mut second));
    }
    assert_eq!(a.primary(), b.primary());
    assert_eq!(a.reference(), b.reference());
    assert_eq!(history_of(&a), history_of(&b));
}

#[test]
fn random_colors_vary_and_use_the_generator() {
    let mut rng = StdRng::seed_from_u64(1);
    let mut state = ColorState::new();
    let mut seen: Vec<Color> = Vec::new();
    for _ in 0..40 {
        state.randomize_reference(&mut rng);
        if !seen.contains(&state.reference()) {
            seen.push(state.reference());
        }
    }
    assert!(seen.len() > 30);
    let reds: Vec<u8> = seen.iter().map(|c| c.red).collect();
    let greens: Vec<u8> = seen.iter().map(|c| c.green).collect();
    assert_ne!(reds, greens);
}

#[test]
fn a_color_is_three_bytes_drawn_in_the_order_red_green_blue() {
    for seed in 0..20u64 {
        let mut direct = StdRng::seed_from_u64(seed);
        let red: u8 = direct.gen();
        let green: u8 = direct.gen();
        let blue: u8 = direct.gen();
        let mut rng = StdRng::seed_from_u64(seed);
        let mut state = ColorState::new();
        state.randomize_reference(&mut rng);
        assert_eq!(state.reference(), Color::new(red, green, blue));
        let next_direct: u8 = direct.gen();
        let next: u8 = rng.gen();
        assert_eq!(next, next_direct);
    }
}
