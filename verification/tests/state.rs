use hub75_pico::color::Rgb888;
use hub75_pico::game_of_life::GameOfLife;
use hub75_pico::ising::Ising;
use hub75_pico::rng::RngU32;
use hub75_pico::sand_pile::SandPile;
use hub75_pico::state::CurrentVisualisationState;
use hub75_pico::test_vis::{rasterise, TestVis};
use hub75_pico::turmite::Turmite;
use hub75_pico::visualisation::{Action, SetState, TurmiteUpdate, Visualisation, VisualisationUpdate};

struct Fixed(u32);

impl RngU32 for Fixed {
    fn next_u32(&mut self) -> u32 {
        self.0
    }
}

fn white<Rng: RngU32>(state: &mut CurrentVisualisationState<Rng>) -> usize {
    let pixels = state.draw();
    assert_eq!(pixels.len(), 64 * 32);
    pixels.iter().filter(|p| p.1 == Rgb888::new(255, 255, 255)).count()
}

#[test]
fn turmite_on_show_is_stepped_and_drawn() {
    let mut state: CurrentVisualisationState<Fixed> = CurrentVisualisationState::Turmite(Turmite::new());
    assert_eq!(white(&mut state), 0);
    assert!(state.update(0));
    assert!(state.update(0));
    assert_eq!(white(&mut state), 2);
}

#[test]
fn game_of_life_on_show_is_stepped_and_drawn() {
    let mut game: GameOfLife<64, 32> = GameOfLife::new();
    for i in [64 + 1, 64 + 2, 64 + 3] {
        game.board_1[i] = true;
    }
    let mut state: CurrentVisualisationState<Fixed> = CurrentVisualisationState::GameOfLife(game);
    assert_eq!(white(&mut state), 3);
    assert!(state.update(0));
    match &state {
        CurrentVisualisationState::GameOfLife(game) => {
            assert!(game.board_2[2] && game.board_2[64 + 2] && game.board_2[128 + 2]);
        }
        _ => panic!("game of life expected"),
    }
    assert_eq!(white(&mut state), 3);
}

#[test]
fn sand_pile_on_show_is_stepped_and_drawn() {
    let mut state = CurrentVisualisationState::SandPile(SandPile::new(Fixed(5)));
    assert_eq!(white(&mut state), 0);
    assert!(state.update(0));
    match &state {
        CurrentVisualisationState::SandPile(pile) => {
            assert!(pile.sand().iter().any(|v| *v != 0));
        }
        _ => panic!("sand pile expected"),
    }
}

#[test]
fn ising_on_show_is_stepped_and_drawn() {
    let mut state = CurrentVisualisationState::Ising(Ising::new([100_000; 5], Fixed(0)));
    assert_eq!(white(&mut state), 64 * 32);
    assert!(state.update(0));
    assert_eq!(white(&mut state), 64 * 32 - 1);
}

#[test]
fn test_pattern_on_show_draws_discs() {
    let mut state: CurrentVisualisationState<Fixed> = CurrentVisualisationState::TestVis(TestVis::new());
    assert!(state.update(500));
    match &state {
        CurrentVisualisationState::TestVis(vis) => {
            assert_eq!(vis.time_us(), 500);
            assert_eq!(vis.cluster(), (32, 31));
        }
        _ => panic!("test pattern expected"),
    }
    assert_eq!(state.draw(), rasterise(&TestVis::pattern(32, 31)));
}

#[test]
fn messages_compare_by_value() {
    assert_eq!(Action::SetVisualisation(SetState::Ising), Action::SetVisualisation(SetState::Ising));
    assert_ne!(Action::SetVisualisation(SetState::Ising), Action::SetVisualisation(SetState::Turmite));
    assert_ne!(Action::Reset, Action::SetVisualisation(SetState::SandPile));
    assert_eq!(
        VisualisationUpdate::Turmite(TurmiteUpdate::Reset),
        VisualisationUpdate::Turmite(TurmiteUpdate::Reset)
    );
}
