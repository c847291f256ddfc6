use candy_crush::board::generate_grid;
use candy_crush::board::CandyColor;
use candy_crush::error::CandyCrushError;
use candy_crush::handoff::commit_game;
use candy_crush::handoff::delegate_game;
use candy_crush::handoff::undelegate_game;
use candy_crush::handoff::ExecutionContext;
use candy_crush::identity::authorize;
use candy_crush::identity::Credential;
use candy_crush::identity::PlayerKey;
use candy_crush::levels::level_config;
use candy_crush::progress::apply_result;
use candy_crush::progress::initialize_player;
use candy_crush::progress::PlayerProfile;
use candy_crush::progress::UnlockSet;
use candy_crush::reward::initialize_collection;
use candy_crush::reward::mint_victory_nft;
use candy_crush::reward::rarity_tier;
use candy_crush::reward::RarityTier;
use candy_crush::session::end_game;
use candy_crush::session::make_authorized_move;
use candy_crush::session::make_move;
use candy_crush::session::start_game;
use candy_crush::session::GameSession;

fn key(b: u8) -> PlayerKey {
    PlayerKey { bytes: [b; 32] }
}

fn profile_with(bits: u64) -> PlayerProfile {
    let mut p = initialize_player(key(1), 0);
    p.unlocked_levels = UnlockSet { bits };
    p
}

fn started(level: u8, now: i64) -> GameSession {
    start_game(key(1), level, &profile_with(u64::MAX), now).unwrap()
}

#[test]
fn level_catalog_entries() {
    let c = level_config(1).unwrap();
    assert_eq!((c.id, c.rows, c.cols, c.target_score, c.time_limit), (1, 6, 6, 80, 40000));
    let c = level_config(4).unwrap();
    assert_eq!((c.id, c.rows, c.cols, c.target_score, c.time_limit), (4, 8, 7, 200, 70000));
    let c = level_config(10).unwrap();
    assert_eq!((c.id, c.rows, c.cols, c.target_score, c.time_limit), (10, 10, 7, 500, 130000));
    for l in 1..=10u8 {
        let c = level_config(l).unwrap();
        assert_eq!(c.id, l);
        assert!(c.rows <= 10 && c.cols <= 10);
    }
}

#[test]
fn level_catalog_rejects_out_of_range() {
    assert_eq!(level_config(0).unwrap_err(), CandyCrushError::InvalidLevel);
    assert_eq!(level_config(11).unwrap_err(), CandyCrushError::InvalidLevel);
    assert_eq!(level_config(255).unwrap_err(), CandyCrushError::InvalidLevel);
}

#[test]
fn generator_exact_first_row() {
    let b = generate_grid(1000, 6, 6);
    let row: Vec<u8> = (0..6).map(|c| b.cell(0, c)).collect();
    assert_eq!(row, vec![2, 5, 5, 1, 3, 1]);
    let row: Vec<u8> = (0..6).map(|c| b.cell(5, c)).collect();
    assert_eq!(row, vec![1, 5, 3, 1, 4, 3]);
}

#[test]
fn generator_is_deterministic() {
    let a = generate_grid(1000, 6, 6);
    let b = generate_grid(1000, 6, 6);
    assert_eq!(a.cells, b.cells);
}

#[test]
fn generator_seed_changes_board() {
    let a = generate_grid(1000, 6, 6);
    let b = generate_grid(1001, 6, 6);
    assert_ne!(a.cells, b.cells);
    assert_eq!(b.cell(0, 0), 5);
}

#[test]
fn generator_blanks_outside_region() {
    let b = generate_grid(42, 5, 7);
    assert_eq!(b.cells.len(), 100);
    for r in 0..10u8 {
        for c in 0..10u8 {
            let v = b.cell(r, c);
            if r < 5 && c < 7 {
                assert!((1..=5).contains(&v));
            } else {
                assert_eq!(v, 0);
            }
        }
    }
}

#[test]
fn candy_color_codes() {
    assert_eq!(CandyColor::Blank.code(), 0);
    assert_eq!(CandyColor::Yellow.code(), 5);
    assert_eq!(CandyColor::from_code(3), Some(CandyColor::Blue));
    assert_eq!(CandyColor::from_code(6), None);
}

#[test]
fn start_game_locked_and_unlocked_levels() {
    for l in 1..=10u8 {
        let locked = profile_with(!(1u64 << (l - 1)));
        assert_eq!(start_game(key(1), l, &locked, 7).unwrap_err(), CandyCrushError::LevelLocked);
        let open = profile_with(1u64 << (l - 1));
        let s = start_game(key(1), l, &open, 7).unwrap();
        let c = level_config(l).unwrap();
        assert!(s.is_active);
        assert_eq!((s.level, s.score, s.moves_made, s.start_time), (l, 0, 0, 7));
        for r in 0..c.rows {
            for col in 0..c.cols {
                assert!((1..=5).contains(&s.board.cell(r, col)));
            }
        }
    }
}

#[test]
fn start_game_invalid_level() {
    let p = profile_with(u64::MAX);
    assert_eq!(start_game(key(1), 0, &p, 1).unwrap_err(), CandyCrushError::InvalidLevel);
    assert_eq!(start_game(key(1), 11, &p, 1).unwrap_err(), CandyCrushError::InvalidLevel);
}

#[test]
fn start_game_seeds_from_time() {
    let s = started(1, 1000);
    assert_eq!(s.board.cells, generate_grid(1000, 6, 6).cells);
}

#[test]
fn make_move_not_adjacent() {
    let mut s = started(1, 3);
    let before = s.board.cells.clone();
    for (fr, fc, tr, tc) in [(0, 0, 2, 2), (0, 0, 1, 1), (0, 0, 0, 0), (3, 3, 3, 5), (1, 2, 3, 2)] {
        assert_eq!(make_move(&mut s, fr, fc, tr, tc), Err(CandyCrushError::NotAdjacent));
    }
    assert_eq!(s.board.cells, before);
    assert_eq!(s.moves_made, 0);
}

#[test]
fn make_move_invalid_position() {
    let mut s = started(2, 3);
    for (fr, fc, tr, tc) in [(5, 0, 4, 0), (0, 7, 0, 6), (4, 6, 5, 6), (0, 0, 0, 200)] {
        assert_eq!(make_move(&mut s, fr, fc, tr, tc), Err(CandyCrushError::InvalidPosition));
    }
    assert_eq!(s.moves_made, 0);
}

#[test]
fn make_move_on_ended_game() {
    let mut s = started(1, 3);
    let mut p = profile_with(1);
    end_game(&mut s, &mut p, 0).unwrap();
    assert_eq!(make_move(&mut s, 0, 0, 0, 1), Err(CandyCrushError::GameNotActive));
}

#[test]
fn make_move_swaps_and_counts() {
    let mut s = started(1, 1000);
    let a = s.board.cell(2, 3);
    let b = s.board.cell(3, 3);
    make_move(&mut s, 2, 3, 3, 3).unwrap();
    assert_eq!((s.board.cell(2, 3), s.board.cell(3, 3)), (b, a));
    assert_eq!(s.moves_made, 1);
}

#[test]
fn swap_back_restores_board() {
    let mut s = started(4, 99);
    let before = s.board.cells.clone();
    make_move(&mut s, 7, 6, 7, 5).unwrap();
    make_move(&mut s, 7, 5, 7, 6).unwrap();
    assert_eq!(s.board.cells, before);
    assert_eq!(s.moves_made, 2);
}

#[test]
fn authorized_moves() {
    let mut s = started(1, 5);
    assert_eq!(
        make_authorized_move(&mut s, &Credential::DirectIdentity, &key(2), 10, 0, 0, 0, 1),
        Err(CandyCrushError::InvalidAuth)
    );
    assert_eq!(s.moves_made, 0);
    make_authorized_move(&mut s, &Credential::DirectIdentity, &key(1), 10, 0, 0, 0, 1).unwrap();
    let grant = Credential::DelegatedCredential { authority: key(1), session_signer: key(9), valid_until: 100 };
    make_authorized_move(&mut s, &grant, &key(9), 99, 0, 0, 1, 0).unwrap();
    assert_eq!(
        make_authorized_move(&mut s, &grant, &key(9), 100, 0, 0, 1, 0),
        Err(CandyCrushError::InvalidAuth)
    );
    assert_eq!(s.moves_made, 2);
}

#[test]
fn authorize_decisions() {
    let grant = Credential::DelegatedCredential { authority: key(1), session_signer: key(9), valid_until: 100 };
    assert!(authorize(&Credential::DirectIdentity, &key(1), &key(1), 0));
    assert!(!authorize(&Credential::DirectIdentity, &key(9), &key(1), 0));
    assert!(authorize(&grant, &key(9), &key(1), 50));
    assert!(!authorize(&grant, &key(8), &key(1), 50));
    assert!(!authorize(&grant, &key(9), &key(2), 50));
    assert!(!authorize(&grant, &key(9), &key(1), 101));
}

#[test]
fn end_game_win_updates_profile() {
    let mut s = started(3, 5);
    let mut p = profile_with(0b111);
    p.highest_level = 2;
    end_game(&mut s, &mut p, 150).unwrap();
    assert!(!s.is_active);
    assert_eq!(s.score, 150);
    assert_eq!((p.total_games, p.total_wins, p.total_candies_collected), (1, 1, 150));
    assert_eq!(p.unlocked_levels.bits, 0b1111);
    assert!(p.unlocked_levels.is_unlocked(4));
    assert_eq!(p.highest_level, 3);
}

#[test]
fn end_game_win_keeps_higher_level() {
    let mut s = started(1, 5);
    let mut p = profile_with(0b1111);
    p.highest_level = 4;
    end_game(&mut s, &mut p, 80).unwrap();
    assert_eq!(p.highest_level, 4);
    assert_eq!(p.unlocked_levels.bits, 0b1111);
}

#[test]
fn end_game_win_last_level_unlocks_nothing() {
    let mut s = started(10, 5);
    let mut p = profile_with(0b11_1111_1111);
    end_game(&mut s, &mut p, 500).unwrap();
    assert_eq!(p.unlocked_levels.bits, 0b11_1111_1111);
    assert_eq!(p.highest_level, 10);
}

#[test]
fn end_game_loss_counts_game_only() {
    let mut s = started(2, 5);
    let mut p = profile_with(0b11);
    end_game(&mut s, &mut p, 119).unwrap();
    assert!(!s.is_active);
    assert_eq!(s.score, 119);
    assert_eq!((p.total_games, p.total_wins, p.total_candies_collected), (1, 0, 0));
    assert_eq!(p.unlocked_levels.bits, 0b11);
    assert_eq!(p.highest_level, 1);
}

#[test]
fn end_game_twice_fails() {
    let mut s = started(1, 5);
    let mut p = profile_with(1);
    end_game(&mut s, &mut p, 10).unwrap();
    assert_eq!(end_game(&mut s, &mut p, 10), Err(CandyCrushError::GameNotActive));
    assert_eq!(p.total_games, 1);
}

#[test]
fn apply_result_direct() {
    let mut p = initialize_player(key(3), 11);
    apply_result(&mut p, 5, 300, true);
    assert_eq!((p.total_games, p.total_wins, p.total_candies_collected, p.highest_level), (1, 1, 300, 5));
    assert_eq!(p.unlocked_levels.bits, 0b10_0001);
    apply_result(&mut p, 5, 10, false);
    assert_eq!((p.total_games, p.total_wins, p.total_candies_collected), (2, 1, 300));
}

#[test]
fn initialize_player_defaults() {
    let p = initialize_player(key(4), 1234);
    assert_eq!(p.authority.bytes, [4; 32]);
    assert_eq!((p.total_games, p.total_wins, p.highest_level), (0, 0, 1));
    assert_eq!(p.unlocked_levels.bits, 1);
    assert!(p.unlocked_levels.is_unlocked(1));
    assert!(!p.unlocked_levels.is_unlocked(2));
    assert_eq!((p.total_candies_collected, p.total_nfts_minted, p.created_at), (0, 0, 1234));
}

#[test]
fn rarity_tiers() {
    assert_eq!(rarity_tier(250, 100), RarityTier::Legendary);
    assert_eq!(rarity_tier(150, 100), RarityTier::Epic);
    assert_eq!(rarity_tier(120, 100), RarityTier::Rare);
    assert_eq!(rarity_tier(100, 100), RarityTier::Common);
    assert_eq!(rarity_tier(199, 100), RarityTier::Epic);
    assert_eq!(rarity_tier(200, 100), RarityTier::Legendary);
    assert_eq!(rarity_tier(95, 80), RarityTier::Common);
    assert_eq!(rarity_tier(96, 80), RarityTier::Rare);
    assert_eq!(rarity_tier(u64::MAX, 1), RarityTier::Legendary);
    assert_eq!(RarityTier::Epic.name(), "Epic");
}

#[test]
fn reward_for_won_session() {
    let mut s = started(1, 5);
    let mut p = profile_with(1);
    let mut c = initialize_collection(key(7));
    assert_eq!(mint_victory_nft(&s, &mut p, &mut c), Err(CandyCrushError::GameStillActive));
    end_game(&mut s, &mut p, 160).unwrap();
    assert_eq!(mint_victory_nft(&s, &mut p, &mut c), Ok(RarityTier::Legendary));
    assert_eq!((p.total_nfts_minted, c.total_victories), (1, 1));
}

#[test]
fn reward_refused_below_target() {
    let mut s = started(1, 5);
    let mut p = profile_with(1);
    let mut c = initialize_collection(key(7));
    end_game(&mut s, &mut p, 79).unwrap();
    assert_eq!(mint_victory_nft(&s, &mut p, &mut c), Err(CandyCrushError::InsufficientScore));
    assert_eq!((p.total_nfts_minted, c.total_victories), (0, 0));
}

#[test]
fn handoff_transitions() {
    assert_eq!(delegate_game(ExecutionContext::Local), Some(ExecutionContext::Delegated));
    assert_eq!(delegate_game(ExecutionContext::Delegated), None);
    assert_eq!(commit_game(ExecutionContext::Delegated), Some(ExecutionContext::Delegated));
    assert_eq!(commit_game(ExecutionContext::Local), None);
    assert_eq!(undelegate_game(ExecutionContext::Delegated), Some(ExecutionContext::Local));
    assert_eq!(undelegate_game(ExecutionContext::Local), None);
}

#[test]
fn error_messages() {
    assert_eq!(CandyCrushError::NotAdjacent.message(), "Candies are not adjacent");
    assert_eq!(CandyCrushError::LevelLocked.message(), "Level is locked");
}

#[test]
fn first_level_scenario() {
    let player = key(1);
    let mut p = initialize_player(player, 0);
    let c = level_config(1).unwrap();
    assert_eq!((c.rows, c.cols, c.target_score), (6, 6, 80));
    let mut s = start_game(player, 1, &p, 1000).unwrap();
    assert!(s.is_active);
    make_move(&mut s, 0, 0, 0, 1).unwrap();
    assert_eq!(make_move(&mut s, 0, 0, 2, 2), Err(CandyCrushError::NotAdjacent));
    end_game(&mut s, &mut p, 90).unwrap();
    assert!(90 >= c.target_score);
    assert!(p.unlocked_levels.is_unlocked(2));
    assert_eq!((p.total_wins, p.total_games, p.highest_level), (1, 1, 1));
}
