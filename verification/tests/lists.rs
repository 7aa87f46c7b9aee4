//! Pending list-action application on animation collections.

use sparticles::animation::{GravityAnimation, GravityUniform, ParticleAnimation, StrayAnimation, StrayUniform};
use sparticles::list_action::ListAction;

fn gravity_with(action: ListAction) -> ParticleAnimation {
    let mut a = GravityAnimation::new(GravityUniform::default());
    a.selected_action = action;
    ParticleAnimation::Gravity(a)
}

fn stray_with(action: ListAction) -> ParticleAnimation {
    let mut a = StrayAnimation::new(StrayUniform::default());
    a.selected_action = action;
    ParticleAnimation::Stray(a)
}

fn action_of(a: &ParticleAnimation) -> ListAction {
    match a {
        ParticleAnimation::Gravity(g) => g.selected_action,
        ParticleAnimation::Stray(s) => s.selected_action,
    }
}

fn is_gravity(a: &ParticleAnimation) -> bool {
    matches!(a, ParticleAnimation::Gravity(_))
}

#[test]
fn idle_list_is_untouched() {
    let mut list = vec![gravity_with(ListAction::Idle), stray_with(ListAction::Idle)];
    ListAction::update_list(&mut list);
    assert_eq!(list.len(), 2);
    assert!(is_gravity(&list[0]));
    assert!(!is_gravity(&list[1]));
}

#[test]
fn delete_removes_the_flagged_element() {
    let mut list = vec![gravity_with(ListAction::Delete), stray_with(ListAction::Idle)];
    ListAction::update_list(&mut list);
    assert_eq!(list.len(), 1);
    assert!(!is_gravity(&list[0]));
}

#[test]
fn move_up_swaps_with_predecessor() {
    let mut list = vec![gravity_with(ListAction::Idle), stray_with(ListAction::MoveUp)];
    ListAction::update_list(&mut list);
    assert_eq!(list.len(), 2);
    assert!(!is_gravity(&list[0]));
    assert!(is_gravity(&list[1]));
}

#[test]
fn move_up_at_front_stays() {
    let mut list = vec![gravity_with(ListAction::MoveUp), stray_with(ListAction::Idle)];
    ListAction::update_list(&mut list);
    assert_eq!(list.len(), 2);
    assert!(is_gravity(&list[0]));
}

#[test]
fn move_down_swaps_with_successor() {
    let mut list = vec![gravity_with(ListAction::MoveDown), stray_with(ListAction::Idle)];
    ListAction::update_list(&mut list);
    assert_eq!(list.len(), 2);
    assert!(!is_gravity(&list[0]));
    assert!(is_gravity(&list[1]));
}

#[test]
fn move_down_at_back_stays() {
    let mut list = vec![gravity_with(ListAction::Idle), stray_with(ListAction::MoveDown)];
    ListAction::update_list(&mut list);
    assert_eq!(list.len(), 2);
    assert!(!is_gravity(&list[1]));
}

#[test]
fn all_actions_are_cleared_after_application() {
    let mut list = vec![
        gravity_with(ListAction::MoveDown),
        stray_with(ListAction::Idle),
        gravity_with(ListAction::MoveUp),
    ];
    ListAction::update_list(&mut list);
    for a in list.iter() {
        assert!(matches!(action_of(a), ListAction::Idle));
    }
}

#[test]
fn application_happens_once_per_call() {
    let mut list = vec![gravity_with(ListAction::MoveDown), stray_with(ListAction::Idle)];
    ListAction::update_list(&mut list);
    assert!(is_gravity(&list[1]));
    // The action was consumed: a second application does not move it back
    // or further.
    ListAction::update_list(&mut list);
    assert!(is_gravity(&list[1]));
}
