use rustdemic::game::turn::Turn;

#[test]
fn fresh_turn_has_four_actions() {
    assert_eq!(Turn::new(), Turn::Action(4));
    assert_eq!(Turn::default(), Turn::Action(4));
}

#[test]
fn four_actions_lead_to_two_draws() {
    let mut turn = Turn::new();
    let expected = [Turn::Action(3), Turn::Action(2), Turn::Action(1), Turn::Draw(2)];
    for step in expected {
        turn = turn.play_action().unwrap();
        assert_eq!(turn, step);
    }
    assert_eq!(turn, Turn::Draw(2));
}

#[test]
fn action_table() {
    assert_eq!(Turn::Action(0).play_action(), None);
    assert_eq!(Turn::Action(1).play_action(), Some(Turn::Draw(2)));
    assert_eq!(Turn::Action(2).play_action(), Some(Turn::Action(1)));
    assert_eq!(Turn::Action(4).play_action(), Some(Turn::Action(3)));
    assert_eq!(Turn::Draw(2).play_action(), None);
    assert_eq!(Turn::Disease(2).play_action(), None);
    assert_eq!(Turn::PandemicInfect.play_action(), None);
    assert_eq!(Turn::PandemicIntensify.play_action(), None);
    assert_eq!(Turn::NextPlayer.play_action(), None);
}

#[test]
fn draw_table() {
    assert_eq!(Turn::Draw(0).draw_card(false), None);
    assert_eq!(Turn::Draw(0).draw_card(true), None);
    assert_eq!(Turn::Draw(2).draw_card(false), Some(Turn::Draw(1)));
    assert_eq!(Turn::Draw(2).draw_card(true), Some(Turn::PandemicInfect));
    assert_eq!(Turn::Action(4).draw_card(false), None);
    assert_eq!(Turn::Disease(1).draw_card(true), None);
    assert_eq!(Turn::NextPlayer.draw_card(false), None);
}

#[test]
fn last_draw_leads_to_infection_whatever_the_card() {
    assert_eq!(Turn::Draw(1).draw_card(false), Some(Turn::Disease(2)));
    assert_eq!(Turn::Draw(1).draw_card(true), Some(Turn::Disease(2)));
}

#[test]
fn pandemic_table() {
    assert_eq!(Turn::PandemicInfect.pandemic_infect(), Some(Turn::PandemicIntensify));
    assert_eq!(Turn::PandemicIntensify.pandemic_infect(), None);
    assert_eq!(Turn::Draw(2).pandemic_infect(), None);
    assert_eq!(Turn::PandemicIntensify.pandemic_intensify(), Some(Turn::Disease(2)));
    assert_eq!(Turn::PandemicInfect.pandemic_intensify(), None);
    assert_eq!(Turn::Action(1).pandemic_intensify(), None);
}

#[test]
fn disease_table() {
    assert_eq!(Turn::Disease(0).spread_disease(), None);
    assert_eq!(Turn::Disease(1).spread_disease(), Some(Turn::NextPlayer));
    assert_eq!(Turn::Disease(2).spread_disease(), Some(Turn::Disease(1)));
    assert_eq!(Turn::Action(2).spread_disease(), None);
    assert_eq!(Turn::Draw(2).spread_disease(), None);
    assert_eq!(Turn::NextPlayer.spread_disease(), None);
}

#[test]
fn next_player_table() {
    assert_eq!(Turn::NextPlayer.advance_next_player(), Some(Turn::Action(4)));
    assert_eq!(Turn::Action(4).advance_next_player(), None);
    assert_eq!(Turn::Disease(1).advance_next_player(), None);
    assert_eq!(Turn::PandemicInfect.advance_next_player(), None);
}

#[test]
fn counters_within_a_turn_are_well_formed() {
    assert!(Turn::Action(4).is_wf());
    assert!(Turn::Action(0).is_wf());
    assert!(!Turn::Action(5).is_wf());
    assert!(Turn::Draw(2).is_wf());
    assert!(!Turn::Draw(3).is_wf());
    assert!(Turn::Disease(2).is_wf());
    assert!(!Turn::Disease(3).is_wf());
    assert!(Turn::PandemicInfect.is_wf());
    assert!(Turn::PandemicIntensify.is_wf());
    assert!(Turn::NextPlayer.is_wf());
}
