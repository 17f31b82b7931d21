use toy_game::geometry::Rect;
use toy_game::registry::Named;
use toy_game::texture_holder::TextureHolder;
use toy_game::window::{
    create_character_window, create_inventory_window, hit_test, AnyWidget, CharacterInfo, EventAction,
    GetDimension, InventoryCase, InventoryCases, Label, MouseButton, TitleBarButton, UpdateKind, Widgets,
    Window, WindowEvent, LABEL_FONT_SIZE, TITLE_BAR_HEIGHT,
};

fn holder(texture: u32, width: u32, height: u32) -> TextureHolder<u32> {
    TextureHolder { texture, width, height }
}

fn down(x: i32, y: i32) -> WindowEvent {
    WindowEvent::MouseButtonDown { button: MouseButton::Left, x, y }
}

fn up(x: i32, y: i32) -> WindowEvent {
    WindowEvent::MouseButtonUp { button: MouseButton::Left, x, y }
}

fn motion(x: i32, y: i32) -> WindowEvent {
    WindowEvent::MouseMotion { x, y }
}

#[test]
fn hit_test_includes_the_borders() {
    assert!(hit_test(10, 10, 5, 5, 10, 10));
    assert!(hit_test(10, 10, 5, 5, 15, 15));
    assert!(!hit_test(10, 10, 5, 5, 16, 12));
    assert!(!hit_test(10, 10, 5, 5, 12, 9));
}

#[test]
fn title_bar_button_press_and_release_closes() {
    let mut b = TitleBarButton::new(1u32, 2, 3, 4, 16, 100, 3);
    assert_eq!(b.handle_event(&down(105, 8), 0, 0), Some(EventAction::Nothing));
    assert!(b.is_pressed);
    assert_eq!(b.handle_event(&up(110, 10), 0, 0), Some(EventAction::Close));
    assert!(!b.is_pressed);
    assert!(b.is_hovered);
}

#[test]
fn title_bar_button_release_outside_does_nothing() {
    let mut b = TitleBarButton::new(1u32, 2, 3, 4, 16, 100, 3);
    b.handle_event(&down(105, 8), 0, 0);
    assert_eq!(b.handle_event(&up(200, 10), 0, 0), None);
    assert!(!b.is_pressed);
}

#[test]
fn title_bar_button_ignores_other_buttons() {
    let mut b = TitleBarButton::new(1u32, 2, 3, 4, 16, 100, 3);
    let ev = WindowEvent::MouseButtonDown { button: MouseButton::Right, x: 105, y: 8 };
    assert_eq!(b.handle_event(&ev, 0, 0), None);
    assert!(!b.is_pressed);
    assert_eq!(b.handle_event(&WindowEvent::MouseWheel, 0, 0), None);
}

#[test]
fn title_bar_button_hover_and_looks() {
    let mut b = TitleBarButton::new(1u32, 2, 3, 4, 16, 100, 3);
    // The window is at 50 / 60: the button is at 150 / 63 on the screen.
    assert_eq!(b.handle_event(&motion(155, 70), 50, 60), Some(EventAction::Nothing));
    assert!(b.is_hovered);
    let (t, r) = b.draw(50, 60);
    assert_eq!(*t, 3);
    assert_eq!(r, Rect { x: 150, y: 63, width: 16, height: 16 });
    b.handle_event(&down(155, 70), 50, 60);
    assert_eq!(*b.draw(50, 60).0, 4);
    assert_eq!(b.handle_event(&motion(0, 0), 50, 60), None);
    assert_eq!(*b.draw(0, 0).0, 2);
    assert_eq!(b.width(), 16);
    assert_eq!(b.height(), 16);
}

#[test]
fn cross_of_the_close_button() {
    let lines = TitleBarButton::<u32>::cross_lines(16);
    assert_eq!(lines[0], ((3, 3), (12, 12)));
    assert_eq!(lines[1], ((12, 3), (3, 12)));
}

#[test]
fn inventory_case_sizes() {
    assert_eq!(InventoryCases::<u32>::get_case_size(103), 25);
    assert_eq!(InventoryCase::<u32>::hover_size(105), 21);
}

#[test]
fn inventory_grid_layout_and_hover() {
    let mut textures: Named<TextureHolder<u32>> = Named::new();
    InventoryCase::init_textures(&mut textures, holder(9, 21, 21));
    let mut grid = InventoryCases::new(&textures, holder(8, 103, 157), 5, 22, 105, 200);
    assert_eq!(grid.widgets.len(), 24);
    // size 25: slots 26 pixels apart.
    assert_eq!((grid.widgets[0].x, grid.widgets[0].y), (5, 22));
    assert_eq!((grid.widgets[3].x, grid.widgets[3].y), (5 + 78, 22));
    assert_eq!((grid.widgets[5].x, grid.widgets[5].y), (5 + 26, 22 + 26));
    assert_eq!((grid.widgets[23].x, grid.widgets[23].y), (5 + 78, 22 + 130));
    assert_eq!(grid.handle_event(&motion(10, 30), 0, 0), Some(EventAction::Nothing));
    assert!(grid.widgets[0].is_hovered);
    assert!(!grid.widgets[1].is_hovered);
    assert_eq!(grid.handle_event(&WindowEvent::MouseWheel, 0, 0), None);
    assert!(grid.widgets[0].is_hovered);
    assert_eq!(grid.handle_event(&motion(1000, 1000), 0, 0), None);
    assert!(grid.widgets.iter().all(|c| !c.is_hovered));
    let (src, dst) = grid.draw(10, 20);
    assert_eq!(src, Rect { x: 0, y: 0, width: 103, height: 198 });
    assert_eq!(dst, Rect { x: 16, y: 43, width: 103, height: 198 });
}

#[test]
fn hovered_case_is_drawn() {
    let mut textures: Named<TextureHolder<u32>> = Named::new();
    InventoryCase::init_textures(&mut textures, holder(9, 21, 21));
    let mut case = InventoryCase::new(&textures, 4, 6);
    assert!(case.draw(0, 0).is_none());
    case.handle_event(&motion(5, 7), 0, 0);
    let (t, r) = case.draw(1, 1).unwrap();
    assert_eq!(t.texture, 9);
    assert_eq!(r, Rect { x: 7, y: 9, width: 21, height: 21 });
}

#[test]
fn label_shows_value_and_max() {
    let mut l = Label::new("", 3, 4, true);
    l.update_with(UpdateKind::Both(42, 100));
    assert_eq!(l.text, "42 / 100");
    l.update_with(UpdateKind::Value(7));
    assert_eq!(l.text, "7 / 100");
    l.update_with(UpdateKind::MaxValue(1234567));
    assert_eq!(l.text, "7 / 1234567");
}

#[test]
fn label_without_max_shows_the_value() {
    let mut l = Label::new("start", 0, 0, false);
    l.update_with(UpdateKind::Value(0));
    // Unchanged value: the text stays.
    assert_eq!(l.text, "start");
    l.update_with(UpdateKind::Value(18446744073709551615));
    assert_eq!(l.text, "18446744073709551615");
    l.update_with(UpdateKind::Value(10));
    assert_eq!(l.text, "10");
    assert_eq!(l.draw(2, 3), ("10", 2, 3));
    assert_eq!(l.height(), LABEL_FONT_SIZE as u32);
}

#[test]
fn same_update_twice_changes_nothing_more() {
    let mut l = Label::new("", 0, 0, true);
    l.update_with(UpdateKind::Both(1, 2));
    let text = l.text.clone();
    l.update_with(UpdateKind::Both(1, 2));
    assert_eq!(l.text, text);
    assert_eq!((l.current, l.max), (1, 2));
}

#[test]
fn character_information_lines() {
    let info = CharacterInfo::new(4, 22, 201);
    assert_eq!(info.widgets.len(), 5);
    let titles: Vec<&str> = info.widgets.iter().map(|w| w.0).collect();
    assert_eq!(titles, vec!["Level", "Experience", "Health", "Stamina", "Mana"]);
    assert_eq!(info.widgets[1].1.text, "Experience:");
    assert_eq!(info.widgets[1].1.x, 4);
    assert_eq!(info.widgets[1].1.y, 37);
    assert_eq!(info.widgets[4].2.y, 22 + 60);
    assert_eq!(info.widgets[4].2.x, 100);
    assert!(!info.widgets[0].2.has_max);
    assert!(info.widgets[2].2.has_max);
    assert_eq!(info.height(), 75);
}

#[test]
fn updating_a_character_line() {
    let mut info = CharacterInfo::new(4, 22, 200);
    assert!(info.update_label("Health", UpdateKind::Both(80, 114)));
    assert_eq!(info.widgets[2].2.text, "80 / 114");
    assert!(info.update_label("Level", UpdateKind::Value(3)));
    assert_eq!(info.widgets[0].2.text, "3");
    assert!(!info.update_label("Gold", UpdateKind::Value(3)));
}

fn new_window(widgets: &mut Widgets<'static, u32>) -> Window<u32> {
    Window::new(holder(1, 200, 150), 10, 11, 12, 13, 100, 50, "Test", 2, widgets)
}

#[test]
fn new_window_is_hidden_with_its_close_button() {
    let mut widgets: Widgets<u32> = Widgets::new();
    let w = new_window(&mut widgets);
    assert!(w.is_hidden());
    assert_eq!(w.widgets, vec![0]);
    assert_eq!(w.title_bar_height, TITLE_BAR_HEIGHT);
    match widgets.index(0) {
        AnyWidget::TitleBarButton(b) => {
            assert_eq!((b.x, b.y, b.size), (181, 3, 16));
        },
        _ => panic!("expected the close button"),
    }
    assert_eq!(Window::<u32>::background_rect(200, 150, 2), Rect { x: 2, y: 22, width: 196, height: 126 });
}

#[test]
fn hidden_window_ignores_events() {
    let mut widgets: Widgets<u32> = Widgets::new();
    let mut w = new_window(&mut widgets);
    assert!(!w.handle_event(&mut widgets, &down(110, 60)));
    assert!(w.is_dragging_window.is_none());
}

#[test]
fn dragging_a_window_by_its_title_bar() {
    let mut widgets: Widgets<u32> = Widgets::new();
    let mut w = new_window(&mut widgets);
    w.show();
    assert!(w.handle_event(&mut widgets, &down(110, 60)));
    assert_eq!(w.is_dragging_window, Some((10, 10)));
    assert!(w.handle_event(&mut widgets, &motion(300, 400)));
    assert_eq!((w.x, w.y), (290, 390));
    assert!(w.handle_event(&mut widgets, &up(300, 400)));
    assert!(w.is_dragging_window.is_none());
    assert!(!w.handle_event(&mut widgets, &motion(10, 10)));
}

#[test]
fn pressing_the_body_does_not_drag() {
    let mut widgets: Widgets<u32> = Widgets::new();
    let mut w = new_window(&mut widgets);
    w.show();
    assert!(w.handle_event(&mut widgets, &down(150, 150)));
    assert!(w.is_dragging_window.is_none());
    assert!(!w.handle_event(&mut widgets, &down(5, 5)));
}

#[test]
fn closing_a_window_with_its_button() {
    let mut widgets: Widgets<u32> = Widgets::new();
    let mut w = new_window(&mut widgets);
    w.show();
    // The button is at 181 / 3 in the window, at 100 / 50 on the screen.
    assert!(w.handle_event(&mut widgets, &down(285, 58)));
    assert!(w.is_dragging_window.is_none());
    assert!(w.handle_event(&mut widgets, &up(285, 58)));
    assert!(w.is_hidden());
}

#[test]
fn hiding_ends_a_drag() {
    let mut widgets: Widgets<u32> = Widgets::new();
    let mut w = new_window(&mut widgets);
    w.show();
    w.handle_event(&mut widgets, &down(110, 60));
    w.hide_window();
    assert!(w.is_hidden());
    assert!(w.is_dragging_window.is_none());
}

#[test]
fn window_drawing() {
    let mut widgets: Widgets<u32> = Widgets::new();
    let mut w = new_window(&mut widgets);
    assert!(w.draw().is_none());
    w.show();
    assert_eq!(w.draw(), Some((Rect { x: 100, y: 50, width: 200, height: 150 }, 200, 61)));
}

#[test]
fn character_window() {
    let mut widgets: Widgets<u32> = Widgets::new();
    let (w, id) = create_character_window(holder(1, 200, 300), 1, 2, 3, 4, 0, 0, 1, &mut widgets);
    assert_eq!(id, 1);
    assert_eq!(w.widgets, vec![0, 1]);
    assert_eq!(w.title, "Character");
    match widgets.index(1) {
        AnyWidget::CharacterInfo(info) => assert_eq!(info.widgets.len(), 5),
        _ => panic!("expected the character information"),
    }
}

#[test]
fn inventory_window() {
    let mut textures: Named<TextureHolder<u32>> = Named::new();
    Window::init_textures(&mut textures, holder(9, 21, 21));
    let mut widgets: Widgets<u32> = Widgets::new();
    let w = create_inventory_window(holder(1, 109, 300), 1, 2, 3, 4, &textures, holder(5, 103, 157), 0, 0, 2, &mut widgets);
    assert_eq!(w.title, "Inventory");
    assert_eq!(w.widgets, vec![0, 1]);
    match widgets.index(1) {
        AnyWidget::InventoryCases(g) => {
            assert_eq!(g.widgets.len(), 24);
            assert_eq!((g.x, g.y, g.width, g.height), (2, 22, 105, 276));
        },
        _ => panic!("expected the inventory grid"),
    }
}

#[test]
fn hover_texture_can_be_registered_again() {
    let mut textures: Named<TextureHolder<u32>> = Named::new();
    InventoryCase::init_textures(&mut textures, holder(9, 21, 21));
    InventoryCase::init_textures(&mut textures, holder(10, 17, 17));
    let case = InventoryCase::new(&textures, 0, 0);
    assert_eq!(case.texture_hovered.texture, 10);
    assert_eq!(case.width(), 17);
}

#[test]
fn the_last_visibility_call_decides() {
    let mut widgets: Widgets<u32> = Widgets::new();
    let mut w = new_window(&mut widgets);
    assert!(w.is_hidden());
    w.show();
    assert!(!w.is_hidden());
    w.show();
    assert!(!w.is_hidden());
    w.hide_window();
    assert!(w.is_hidden());
    w.hide_window();
    assert!(w.is_hidden());
    w.show();
    assert!(!w.is_hidden());
    assert_eq!((w.x, w.y), (100, 50));
}
