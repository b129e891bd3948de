use sneck::audio::HissSound;
use sneck::ui::button::{ButtonAction, ButtonActions, PointerButton};
use sneck::ui::menus::{MenuTree, OpenMenu};
use sneck::ui::slider::SliderActions;
use sneck::ui::{to_border_radius, BorderRadius, RoundedCorners};
use sneck::utils::{get_base_resolution, get_window_constraints, snap_resolution};
use sneck::math::UVec2;
use sneck::TimeFrozen;

#[test]
fn border_radius_per_corner() {
    let r = |c| to_border_radius(c, 5, 0);
    assert_eq!(r(RoundedCorners::NoCorners), BorderRadius { top_left: 0, top_right: 0, bottom_right: 0, bottom_left: 0 });
    assert_eq!(r(RoundedCorners::All), BorderRadius { top_left: 5, top_right: 5, bottom_right: 5, bottom_left: 5 });
    assert_eq!(r(RoundedCorners::Top), BorderRadius { top_left: 5, top_right: 5, bottom_right: 0, bottom_left: 0 });
    assert_eq!(r(RoundedCorners::Right), BorderRadius { top_left: 0, top_right: 5, bottom_right: 5, bottom_left: 0 });
    assert_eq!(r(RoundedCorners::Bottom), BorderRadius { top_left: 0, top_right: 0, bottom_right: 5, bottom_left: 5 });
    assert_eq!(r(RoundedCorners::Left), BorderRadius { top_left: 5, top_right: 0, bottom_right: 0, bottom_left: 5 });
    assert_eq!(r(RoundedCorners::TopLeft), BorderRadius { top_left: 5, top_right: 0, bottom_right: 0, bottom_left: 0 });
    assert_eq!(r(RoundedCorners::TopRight), BorderRadius { top_left: 0, top_right: 5, bottom_right: 0, bottom_left: 0 });
    assert_eq!(r(RoundedCorners::BottomRight), BorderRadius { top_left: 0, top_right: 0, bottom_right: 5, bottom_left: 0 });
    assert_eq!(r(RoundedCorners::BottomLeft), BorderRadius { top_left: 0, top_right: 0, bottom_right: 0, bottom_left: 5 });
}

#[test]
fn menu_trail_goes_back() {
    let mut tree = MenuTree::new();
    tree.update_tree(OpenMenu::Main, true);
    tree.update_tree(OpenMenu::Settings, true);
    tree.update_tree(OpenMenu::Settings, true);
    tree.update_tree(OpenMenu::Skins, false);
    assert_eq!(tree.0, vec![OpenMenu::Main, OpenMenu::Settings]);
    tree.update_tree(OpenMenu::Skins, true);
    assert_eq!(tree.go_back(), OpenMenu::Settings);
    assert_eq!(tree.0, vec![OpenMenu::Main, OpenMenu::Settings]);
    tree.update_tree(OpenMenu::Settings, true);
    assert_eq!(tree.0, vec![OpenMenu::Main, OpenMenu::Settings]);
    assert_eq!(tree.go_back(), OpenMenu::Main);
    assert_eq!(tree.go_back(), OpenMenu::Main);
    assert!(tree.0.is_empty());
    assert_eq!(tree.go_back(), OpenMenu::Main);
    tree.update_tree(OpenMenu::Pause, true);
    tree.clear_tree();
    assert!(tree.0.is_empty());
    assert_eq!(OpenMenu::default(), OpenMenu::Main);
}

#[test]
fn time_freezes_in_menus() {
    assert!(TimeFrozen::compute(OpenMenu::NoMenu).is_none());
    for m in [OpenMenu::Main, OpenMenu::Settings, OpenMenu::Pause, OpenMenu::Skins] {
        assert_eq!(TimeFrozen::compute(m), Some(TimeFrozen));
    }
}

#[test]
fn buttons_pick_their_action() {
    let a: ButtonActions<u8, u16> = ButtonActions::new();
    for b in [PointerButton::Primary, PointerButton::Middle, PointerButton::Secondary] {
        assert_eq!(*a.action_for(b), ButtonAction::NoAction);
    }
    let a = a.with_primary(ButtonAction::Global(1)).with_secondary(ButtonAction::Targeted(2));
    assert_eq!(*a.action_for(PointerButton::Primary), ButtonAction::Global(1));
    assert_eq!(*a.action_for(PointerButton::Middle), ButtonAction::NoAction);
    assert_eq!(*a.action_for(PointerButton::Secondary), ButtonAction::Targeted(2));
    let a = a.with_middle(ButtonAction::Global(3)).with_primary(ButtonAction::NoAction);
    assert_eq!(*a.action_for(PointerButton::Middle), ButtonAction::Global(3));
    assert_eq!(*a.action_for(PointerButton::Primary), ButtonAction::NoAction);
}

#[test]
fn sliders_keep_their_system() {
    let s: SliderActions<u8> = SliderActions::new();
    assert_eq!(s.on_change(), None);
    let s = s.with_on_change(4);
    assert_eq!(s.on_change(), Some(&4));
}

#[test]
fn hiss_picks_one_of_the_sounds() {
    let empty: HissSound<u8> = HissSound(vec![]);
    assert_eq!(empty.pick(), None);
    let h = HissSound(vec![10, 20, 30]);
    let mut seen = [false; 3];
    for _ in 0..300 {
        let x = *h.pick().unwrap();
        assert!(h.0.contains(&x));
        seen[(x / 10 - 1) as usize] = true;
    }
    assert!(seen.iter().all(|s| *s));
}

#[test]
fn window_sizes() {
    assert_eq!(get_base_resolution(), UVec2::new(1600, 1200));
    let c = get_window_constraints();
    assert_eq!((c.min_width, c.min_height, c.max_width, c.max_height), (128, 128, None, None));
    assert_eq!(snap_resolution(UVec2::new(1600, 1200)), None);
    assert_eq!(snap_resolution(UVec2::new(1615, 1200)), Some(UVec2::new(1600, 1200)));
    assert_eq!(snap_resolution(UVec2::new(15, 33)), Some(UVec2::new(0, 32)));
    assert_eq!(snap_resolution(UVec2::new(u32::MAX, 0)), Some(UVec2::new(u32::MAX / 16 * 16, 0)));
    if let Some(s) = snap_resolution(UVec2::new(1001, 777)) {
        assert_eq!(snap_resolution(s), None);
    }
}

#[test]
fn menu_trail_never_repeats_a_menu() {
    let mut tree = MenuTree::new();
    let seq = [
        OpenMenu::Main,
        OpenMenu::Main,
        OpenMenu::Settings,
        OpenMenu::Skins,
        OpenMenu::Skins,
        OpenMenu::Settings,
        OpenMenu::NoMenu,
    ];
    for m in seq {
        tree.update_tree(m, true);
        assert!(tree.0.windows(2).all(|w| w[0] != w[1]));
    }
    assert_eq!(
        tree.0,
        vec![OpenMenu::Main, OpenMenu::Settings, OpenMenu::Skins, OpenMenu::Settings, OpenMenu::NoMenu]
    );
    tree.go_back();
    assert!(tree.0.windows(2).all(|w| w[0] != w[1]));
}
