use mem4::deal::{cards_from_values, deal_deck, face_values_for_deal};
use mem4::divplayeractions::{div_player_actions_from_game_status, project, PlayerActions, RootView};
use mem4::gamedata::{is_game_over, next_player_turn, prepare_for_empty, GameData};
use mem4::playersandscores::PlayersAndScores;
use mem4::protocol::{Card, CardStatusCardFace, GameStatus, Player, Spelling, WsMessage};
use mem4::rootrenderingcomponent::RootRenderingComponent;
use mem4::statusinviteaskbegin::{div_invite_ask_begin_on_click, on_msg_invite};
use mem4::statusplaybefore1stcard::on_click_1st_card;
use mem4::statusplaybefore2ndcard::on_click_2nd_card;
use mem4::statustaketurnbegin::div_take_turn_begin_on_click;
use mem4::statuswanttoplayasked::{div_want_to_play_asked_on_click, on_msg_play_accept};
use mem4::websocketcommunication::{on_reconnect, on_ws_close, receive_ws_message, MsgOutcome};

fn config(names: usize) -> Spelling {
    let mut name = Vec::new();
    for i in 0..names {
        name.push(format!("n{}", i));
    }
    Spelling { name, card_width: 10, card_height: 20 }
}

fn value_counts(cards: &[Card]) -> std::collections::BTreeMap<usize, usize> {
    let mut counts = std::collections::BTreeMap::new();
    for c in &cards[1..] {
        *counts.entry(c.card_number_and_img_src).or_insert(0) += 1;
    }
    counts
}

/// A deck of 16 pairs laid out in order: positions 1 and 2 hold value 1,
/// 3 and 4 value 2, and so on.
fn ordered_deck() -> Vec<Card> {
    let mut values = Vec::new();
    for v in 1..=16 {
        values.push(v);
        values.push(v);
    }
    cards_from_values(&values)
}

fn players(uids: &[usize]) -> Vec<Player> {
    uids.iter().map(|u| Player { ws_uid: *u, points: 0 }).collect()
}

fn started(my_ws_uid: usize, uids: &[usize]) -> RootRenderingComponent {
    let mut rrc = RootRenderingComponent::new(my_ws_uid);
    rrc.on_msg_game_data_init(ordered_deck(), Some(config(27)), players(uids));
    rrc
}

fn deliver(to: &mut RootRenderingComponent, msgs: Vec<WsMessage>) {
    for m in msgs {
        let _ = receive_ws_message(to, Some(m));
    }
}

#[test]
fn deal_has_pairs_of_distinct_values() {
    for players_count in 1..=3 {
        let deck = deal_deck(players_count, 26);
        assert_eq!(deck.len(), 1 + 16 * players_count);
        assert_eq!(deck[0], Card { status: CardStatusCardFace::Down, card_number_and_img_src: 0, card_index_and_id: 0 });
        for (i, c) in deck.iter().enumerate() {
            assert_eq!(c.card_index_and_id, i);
            assert_eq!(c.status, CardStatusCardFace::Down);
        }
        for (v, n) in value_counts(&deck) {
            assert!(1 <= v && v <= 26);
            assert_eq!(n, 2);
        }
    }
}

#[test]
fn deal_with_few_values_repeats_rounds() {
    // 4 players need 32 pairs; 5 values give 6 full rounds and 2 extra pairs.
    let deck = deal_deck(4, 5);
    assert_eq!(deck.len(), 65);
    let counts = value_counts(&deck);
    assert_eq!(counts.len(), 5);
    let mut extra = 0;
    for (_, n) in counts {
        assert!(n == 12 || n == 14);
        if n == 14 {
            extra += 1;
        }
    }
    assert_eq!(extra, 2);
}

#[test]
fn face_values_before_shuffle() {
    let r = face_values_for_deal(&vec![3, 1], 2, 1);
    assert_eq!(r, vec![3, 3, 1, 1, 1, 1, 2, 2]);
    assert_eq!(face_values_for_deal(&vec![], 0, 5), Vec::<usize>::new());
}

#[test]
fn cards_from_values_lays_out_positions() {
    let deck = cards_from_values(&vec![7, 7]);
    assert_eq!(deck.len(), 3);
    assert_eq!(deck[2], Card { status: CardStatusCardFace::Down, card_number_and_img_src: 7, card_index_and_id: 2 });
}

#[test]
fn prepare_random_data_deals_for_the_players() {
    let mut gd = GameData::new(5);
    gd.players = players(&[5, 6]);
    gd.game_config = Some(config(27));
    gd.prepare_random_data();
    assert_eq!(gd.vec_cards.len(), 33);
    for (_, n) in value_counts(&gd.vec_cards) {
        assert_eq!(n, 2);
    }
    assert_eq!(gd.players, players(&[5, 6]));
}

#[test]
fn new_game_data_and_empty_deck() {
    let gd = GameData::new(42);
    assert_eq!(gd.my_ws_uid, 42);
    assert_eq!(gd.game_status, GameStatus::InviteAskBegin);
    assert_eq!(gd.content_folder_name, "alphabet");
    assert_eq!(gd.content_folders, vec!["alphabet", "animals", "playingcards", "triestine"]);
    assert_eq!(gd.players, vec![Player { ws_uid: 0, points: 0 }]);
    let empty = prepare_for_empty();
    assert_eq!(empty.len(), 33);
    assert_eq!(empty[32], Card { status: CardStatusCardFace::Down, card_number_and_img_src: 1, card_index_and_id: 32 });
}

#[test]
fn turn_rotation_wraps_after_last_player() {
    assert_eq!(next_player_turn(1, 3), 2);
    assert_eq!(next_player_turn(2, 3), 3);
    assert_eq!(next_player_turn(3, 3), 1);
    assert_eq!(next_player_turn(1, 1), 1);
}

#[test]
fn game_over_counts_found_pairs() {
    let deck = cards_from_values(&vec![1, 1, 2, 2]);
    assert!(!is_game_over(&vec![Player { ws_uid: 1, points: 1 }], &deck));
    assert!(is_game_over(&vec![Player { ws_uid: 1, points: 1 }, Player { ws_uid: 2, points: 1 }], &deck));
    assert!(!is_game_over(&vec![Player { ws_uid: 1, points: usize::MAX }, Player { ws_uid: 2, points: 5 }], &deck));
    assert!(!is_game_over(&vec![], &vec![]));
}

#[test]
fn two_player_full_game() {
    let mut a = started(10, &[10, 20]);
    let mut b = started(20, &[10, 20]);
    assert_eq!(a.game_data.my_player_number, 1);
    assert_eq!(b.game_data.my_player_number, 2);
    assert_eq!(a.game_data.vec_cards.len(), 33);

    // A finds the pair at positions 1 and 2.
    let m1 = on_click_1st_card(&mut a, 1);
    assert_eq!(a.game_data.game_status, GameStatus::PlayBefore2ndCard);
    let m2 = on_click_2nd_card(&mut a, 2);
    assert_eq!(m2.len(), 1);
    assert_eq!(a.game_data.players[0].points, 1);
    assert_eq!(a.game_data.game_status, GameStatus::PlayBefore1stCard);
    assert_eq!(a.game_data.player_turn, 1);
    assert_eq!(a.game_data.vec_cards[1].status, CardStatusCardFace::UpPermanently);
    assert_eq!(a.game_data.vec_cards[2].status, CardStatusCardFace::UpPermanently);
    deliver(&mut b, m1);
    deliver(&mut b, m2);
    assert_eq!(b.game_data.players[0].points, 1);
    assert_eq!(b.game_data.game_status, GameStatus::PlayBefore1stCard);

    // A misses with positions 3 (value 2) and 5 (value 3).
    let m3 = on_click_1st_card(&mut a, 3);
    let m4 = on_click_2nd_card(&mut a, 5);
    assert_eq!(a.game_data.game_status, GameStatus::TakeTurnBegin);
    assert_eq!(m4.len(), 2);
    assert!(matches!(m4[1], WsMessage::TakeTurnBegin { game_status: GameStatus::TakeTurnBegin, .. }));
    deliver(&mut b, m3);
    deliver(&mut b, m4);
    assert_eq!(b.game_data.game_status, GameStatus::TakeTurnBegin);

    // A may not claim the turn; B does.
    assert!(div_take_turn_begin_on_click(&mut a).is_empty());
    let m5 = div_take_turn_begin_on_click(&mut b);
    assert_eq!(b.game_data.player_turn, 2);
    assert_eq!(b.game_data.game_status, GameStatus::PlayBefore1stCard);
    assert_eq!(b.game_data.vec_cards[3].status, CardStatusCardFace::Down);
    assert_eq!(b.game_data.vec_cards[5].status, CardStatusCardFace::Down);
    deliver(&mut a, m5);
    assert_eq!(a.game_data.player_turn, 2);
    assert_eq!(a.game_data.game_status, GameStatus::PlayBefore1stCard);
    assert_eq!(a.game_data.vec_cards[3].status, CardStatusCardFace::Down);
    assert_eq!(a.game_data.vec_cards[5].status, CardStatusCardFace::Down);
    assert_eq!(a.game_data.players[0].points, 1);
}

#[test]
fn last_pair_ends_the_game() {
    let mut a = RootRenderingComponent::new(10);
    a.on_msg_game_data_init(cards_from_values(&vec![1, 2, 1, 2]), None, players(&[10, 20]));
    on_click_1st_card(&mut a, 1);
    on_click_2nd_card(&mut a, 3);
    assert_eq!(a.game_data.game_status, GameStatus::PlayBefore1stCard);
    on_click_1st_card(&mut a, 2);
    let m = on_click_2nd_card(&mut a, 4);
    assert_eq!(a.game_data.game_status, GameStatus::GameOverPlayAgainBegin);
    assert_eq!(m.len(), 2);
    assert!(matches!(m[1], WsMessage::GameOverPlayAgainBegin { .. }));
    a.reset();
    assert_eq!(a.game_data.game_status, GameStatus::InviteAskBegin);
    assert!(a.game_data.players.is_empty());
}

#[test]
fn clicks_that_are_no_pick_change_nothing() {
    let mut a = started(10, &[10, 20]);
    assert!(on_click_1st_card(&mut a, 0).is_empty());
    assert!(on_click_1st_card(&mut a, 33).is_empty());
    assert!(on_click_2nd_card(&mut a, 2).is_empty());
    on_click_1st_card(&mut a, 1);
    assert!(on_click_1st_card(&mut a, 2).is_empty());
    assert!(on_click_2nd_card(&mut a, 1).is_empty());
    assert_eq!(a.game_data.game_status, GameStatus::PlayBefore2ndCard);
    assert_eq!(a.game_data.card_index_of_second_click, 0);
}

#[test]
fn echo_is_dropped() {
    let mut a = started(10, &[10, 20]);
    let before_turn = a.game_data.player_turn;
    let outcome = receive_ws_message(&mut a, Some(WsMessage::Invite { my_ws_uid: 10, asked_folder_name: "animals".to_string() }));
    assert_eq!(outcome, MsgOutcome::Echo);
    assert_eq!(a.game_data.game_status, GameStatus::PlayBefore1stCard);
    assert_eq!(a.game_data.player_turn, before_turn);
    assert_eq!(a.game_data.players, players(&[10, 20]));
}

#[test]
fn malformed_message_changes_nothing() {
    let mut a = started(10, &[10, 20]);
    on_click_1st_card(&mut a, 1);
    let outcome = receive_ws_message(&mut a, None);
    assert_eq!(outcome, MsgOutcome::Malformed);
    assert_eq!(a.game_data.game_status, GameStatus::PlayBefore2ndCard);
    assert_eq!(a.game_data.card_index_of_first_click, 1);
    assert_eq!(a.game_data.vec_cards, {
        let mut d = ordered_deck();
        d[1].status = CardStatusCardFace::UpTemporary;
        d
    });
    let ignored = receive_ws_message(&mut a, Some(WsMessage::Dummy { dummy: "x".to_string() }));
    assert_eq!(ignored, MsgOutcome::Ignored);
}

#[test]
fn reconnect_keeps_the_game() {
    let mut a = started(10, &[10, 20]);
    assert_eq!(project(&a, true), RootView::Game { actions: PlayerActions::PlayCard { player_turn: 1, my_turn: true } });
    on_ws_close(&mut a);
    assert_eq!(project(&a, false), RootView::Game { actions: PlayerActions::Reconnect });
    on_reconnect(&mut a);
    assert_eq!(a.game_data.game_status, GameStatus::PlayBefore1stCard);
    assert_eq!(a.game_data.vec_cards, ordered_deck());
    assert_eq!(project(&a, true), RootView::Game { actions: PlayerActions::PlayCard { player_turn: 1, my_turn: true } });
    assert_eq!(project(&a, false), RootView::Game { actions: PlayerActions::Reconnect });
}

#[test]
fn invitation_round_trip() {
    let mut a = RootRenderingComponent::new(10);
    let mut b = RootRenderingComponent::new(20);
    let m = div_invite_ask_begin_on_click(&mut a, "animals");
    assert_eq!(a.game_data.game_status, GameStatus::InviteAsking);
    assert!(matches!(&m[0], WsMessage::Invite { my_ws_uid: 10, asked_folder_name } if asked_folder_name == "animals"));
    deliver(&mut b, m);
    assert_eq!(b.game_data.game_status, GameStatus::InviteAsked);
    assert_eq!(b.game_data.my_player_number, 2);
    assert_eq!(b.game_data.asked_folder_name, "animals");
    assert_eq!(b.game_data.players, players(&[10, 20]));
    let accept = div_want_to_play_asked_on_click(&mut b);
    assert_eq!(b.game_data.game_status, GameStatus::PlayAccepted);
    deliver(&mut a, accept);
    assert_eq!(a.game_data.players, players(&[10, 20]));
    assert_eq!(div_player_actions_from_game_status(&a, true), PlayerActions::InviteAsking { players_accepted: 1 });

    // No configuration yet: the game cannot start.
    assert!(a.game_data_init().is_empty());
    assert_eq!(a.game_data.game_status, GameStatus::InviteAsking);
    a.on_response_game_config_json(config(27));
    let init = a.game_data_init();
    assert_eq!(a.game_data.game_status, GameStatus::PlayBefore1stCard);
    assert_eq!(a.game_data.player_turn, 1);
    assert_eq!(a.game_data.content_folder_name, "animals");
    assert_eq!(a.game_data.vec_cards.len(), 33);
    deliver(&mut b, init);
    assert_eq!(b.game_data.vec_cards, a.game_data.vec_cards);
    assert_eq!(b.game_data.my_player_number, 2);
    assert_eq!(b.game_data.game_status, GameStatus::PlayBefore1stCard);
    assert_eq!(b.game_data.game_config.as_ref().map(|c| c.name.len()), Some(27));
}

#[test]
fn late_accept_does_not_join() {
    let mut a = started(10, &[10, 20]);
    on_msg_play_accept(&mut a, 30);
    assert_eq!(a.game_data.players.len(), 2);
    let mut b = RootRenderingComponent::new(20);
    on_msg_invite(&mut b, 10, "triestine".to_string());
    on_msg_play_accept(&mut b, 30);
    assert_eq!(b.game_data.players.len(), 2);
}

#[test]
fn wrong_ws_uid_is_an_error() {
    let mut a = RootRenderingComponent::new(10);
    a.on_response_ws_uid(10);
    assert_eq!(a.game_data.error_text, None);
    assert_eq!(project(&a, true), RootView::Game { actions: PlayerActions::InviteAskBegin });
    let outcome = receive_ws_message(&mut a, Some(WsMessage::ResponseWsUid { your_ws_uid: 11 }));
    assert_eq!(outcome, MsgOutcome::Applied);
    assert_eq!(a.game_data.error_text.as_deref(), Some("my_ws_uid is incorrect!"));
    assert_eq!(project(&a, true), RootView::ErrorText);
}

#[test]
fn score_panel_follows_the_data() {
    let mut a = started(10, &[10, 20]);
    assert_eq!(a.players_and_scores, PlayersAndScores::new());
    assert!(a.check_invalidate_for_all_components());
    assert_eq!(a.players_and_scores, PlayersAndScores { player_turn: 1, my_points: 0, my_player_number: 1 });
    assert!(!a.check_invalidate_for_all_components());
    on_click_1st_card(&mut a, 1);
    on_click_2nd_card(&mut a, 2);
    assert!(a.check_invalidate_for_all_components());
    assert_eq!(a.players_and_scores.my_points, 1);
}

#[test]
fn status_names() {
    assert_eq!(GameStatus::TakeTurnBegin.as_str(), "TakeTurnBegin");
    assert_eq!(GameStatus::PlayBefore1stCard.as_str(), "PlayBefore1stCard");
}

#[test]
fn deal_is_shuffled() {
    // Before shuffling, each pair lies at two neighbouring positions.
    let deck = deal_deck(4, 5);
    let mut all_pairs_adjacent = true;
    for k in 0..32 {
        if deck[2 * k + 1].card_number_and_img_src != deck[2 * k + 2].card_number_and_img_src {
            all_pairs_adjacent = false;
        }
    }
    assert!(!all_pairs_adjacent);
}

#[test]
fn missed_pair_stays_face_up_until_the_turn_passes() {
    let mut a = started(10, &[10, 20]);
    on_click_1st_card(&mut a, 1);
    on_click_2nd_card(&mut a, 3);
    assert_eq!(a.game_data.game_status, GameStatus::TakeTurnBegin);
    assert_eq!(a.game_data.vec_cards[1].status, CardStatusCardFace::UpTemporary);
    assert_eq!(a.game_data.vec_cards[3].status, CardStatusCardFace::UpTemporary);
    assert_eq!(a.game_data.card_index_of_first_click, 1);
    assert_eq!(a.game_data.card_index_of_second_click, 3);
    assert_eq!(a.game_data.players, players(&[10, 20]));
}

#[test]
fn peer_click_on_a_card_already_up_is_ignored() {
    let mut b = started(20, &[10, 20]);
    let mut a = started(10, &[10, 20]);
    let m1 = on_click_1st_card(&mut a, 1);
    let m2 = on_click_2nd_card(&mut a, 2);
    deliver(&mut b, m1);
    deliver(&mut b, m2);
    assert_eq!(b.game_data.vec_cards[1].status, CardStatusCardFace::UpPermanently);
    // A late repeat of the first pick must not turn the found card back.
    let replay = WsMessage::PlayerClick1stCard {
        my_ws_uid: 10,
        players: players(&[10, 20]),
        card_grid_data: ordered_deck(),
        game_status: GameStatus::PlayBefore1stCard,
        card_index_of_first_click: 1,
        card_index_of_second_click: 0,
    };
    deliver(&mut b, vec![replay]);
    assert_eq!(b.game_data.vec_cards[1].status, CardStatusCardFace::UpPermanently);
    assert_eq!(b.game_data.game_status, GameStatus::PlayBefore1stCard);
    assert_eq!(b.game_data.card_index_of_first_click, 0);
}

#[test]
fn own_invite_and_accept_change_nothing() {
    let mut a = RootRenderingComponent::new(10);
    div_invite_ask_begin_on_click(&mut a, "animals");
    on_msg_invite(&mut a, 10, "alphabet".to_string());
    assert_eq!(a.game_data.game_status, GameStatus::InviteAsking);
    assert_eq!(a.game_data.asked_folder_name, "animals");
    assert_eq!(a.game_data.players, players(&[10]));
    assert!(!on_msg_play_accept(&mut a, 10));
    assert_eq!(a.game_data.players, players(&[10]));
    assert!(on_msg_play_accept(&mut a, 20));
    assert_eq!(a.game_data.players, players(&[10, 20]));
}

#[test]
fn message_that_does_not_fit_is_rejected() {
    let mut b = started(10, &[10, 20]);
    let wrong_status = WsMessage::PlayerClick1stCard {
        my_ws_uid: 20,
        players: players(&[10, 20]),
        card_grid_data: ordered_deck(),
        game_status: GameStatus::TakeTurnBegin,
        card_index_of_first_click: 3,
        card_index_of_second_click: 0,
    };
    assert_eq!(receive_ws_message(&mut b, Some(wrong_status)), MsgOutcome::Rejected);
    assert_eq!(b.game_data.vec_cards, ordered_deck());
    assert_eq!(b.game_data.game_status, GameStatus::PlayBefore1stCard);
    let accept = WsMessage::PlayAccept { my_ws_uid: 30, players: players(&[30]) };
    assert_eq!(receive_ws_message(&mut b, Some(accept)), MsgOutcome::Rejected);
    assert_eq!(b.game_data.players, players(&[10, 20]));
}

#[test]
fn setup_actions_only_in_their_status() {
    let mut a = started(10, &[10, 20]);
    assert!(div_invite_ask_begin_on_click(&mut a, "animals").is_empty());
    assert!(div_want_to_play_asked_on_click(&mut a).is_empty());
    assert!(a.game_data_init().is_empty());
    assert_eq!(a.game_data.game_status, GameStatus::PlayBefore1stCard);
    assert_eq!(a.game_data.vec_cards, ordered_deck());
    assert_eq!(GameData::prepare_for_empty(), prepare_for_empty());
}
