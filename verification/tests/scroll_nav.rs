use emux::navigation::{ListsView, Navigation};
use emux::scroll::Scroll;
use emux::ui::{ActivePopup, ListSelection, Popup, UiState, InputActive};

fn window(selected: usize, visible: usize, start: usize, total: usize) -> Scroll {
    Scroll { selected, visible, start, end: start + visible, total }
}

#[test]
fn move_down_moves_highlight_then_scrolls() {
    let mut s = window(3, 5, 0, 20);
    s.move_down();
    assert_eq!((s.selected, s.start, s.end), (4, 0, 5));
    s.move_down();
    assert_eq!((s.selected, s.start, s.end), (4, 1, 6));
    assert_eq!(s.index_in_list(), 5);
}

#[test]
fn move_down_stops_on_last_item() {
    let mut s = window(4, 5, 15, 20);
    s.move_down();
    assert_eq!(s, window(4, 5, 15, 20));
    let mut small = window(1, 5, 0, 3);
    small.move_down();
    assert_eq!(small.selected, 2);
    small.move_down();
    assert_eq!(small.selected, 2);
}

#[test]
fn move_up_moves_highlight_then_scrolls() {
    let mut s = window(0, 5, 3, 20);
    s.move_up();
    assert_eq!((s.selected, s.start, s.end), (0, 2, 7));
    let mut top = window(0, 5, 0, 20);
    top.move_up();
    assert_eq!(top, window(0, 5, 0, 20));
    let mut mid = window(2, 5, 0, 20);
    mid.move_up();
    assert_eq!(mid.selected, 1);
}

#[test]
fn move_down_then_up_comes_back() {
    for (sel, start) in [(0usize, 0usize), (4, 0), (2, 7), (4, 14)] {
        let s0 = window(sel, 5, start, 20);
        let mut s = s0;
        s.move_down();
        s.move_up();
        assert_eq!(s.index_in_list(), s0.index_in_list());
    }
}

#[test]
fn select_first_and_last() {
    let mut s = window(3, 5, 8, 20);
    s.select_first();
    assert_eq!((s.start, s.selected, s.end, s.index_in_list()), (0, 0, 5, 0));
    s.select_last();
    assert_eq!((s.start, s.selected, s.end, s.index_in_list()), (15, 4, 20, 19));
}

#[test]
fn select_at_lands_by_region() {
    let mut a = window(0, 5, 0, 20);
    a.select_at(2);
    assert_eq!((a.start, a.end, a.selected), (0, 5, 2));
    let mut b = window(0, 5, 0, 20);
    b.select_at(18);
    assert_eq!((b.start, b.end, b.selected), (15, 20, 3));
    assert_eq!(b.index_in_list(), 18);
    let mut c = window(0, 5, 0, 20);
    c.select_at(10);
    assert_eq!((c.start, c.end, c.selected), (5, 10, 2));
    assert_eq!(c.index_in_list(), 7);
}

#[test]
fn select_random_stays_in_list() {
    for _ in 0..50 {
        let mut s = window(0, 5, 0, 12);
        s.select_random();
        assert!(s.index_in_list() < 12);
        assert_eq!(s.end, s.start + s.visible);
    }
    let mut empty = Scroll { selected: 0, visible: 5, start: 0, end: 5, total: 0 };
    empty.select_random();
    assert_eq!(empty, Scroll { selected: 0, visible: 5, start: 0, end: 5, total: 0 });
}

#[test]
fn restore_index_centres_on_saved_item() {
    let mut s = window(0, 5, 0, 20);
    s.restore_index(10);
    assert_eq!((s.start, s.end, s.selected), (7, 12, 3));
    assert_eq!(s.index_in_list(), 10);
    let mut e = window(0, 4, 0, 20);
    e.restore_index(10);
    assert_eq!((e.start, e.end, e.selected), (8, 12, 2));
    let mut near_end = window(0, 5, 0, 20);
    near_end.restore_index(17);
    assert_eq!((near_end.start, near_end.end, near_end.selected), (15, 20, 2));
    let mut near_top = window(3, 5, 9, 20);
    near_top.restore_index(3);
    assert_eq!((near_top.start, near_top.end, near_top.selected), (0, 5, 3));
}

#[test]
fn views_switch_back_and_forth() {
    let mut n = Navigation::new();
    assert_eq!(n.list_view, ListsView::Lists);
    n.next_view();
    assert_eq!(n.list_view, ListsView::LocalLists);
    n.next_view();
    assert_eq!(n.list_view, ListsView::Lists);
    n.next_view();
    n.prev_view();
    assert_eq!(n.list_view, ListsView::Lists);
}

#[test]
fn list_selection_moves_like_a_list_widget() {
    let mut l = ListSelection::new();
    l.select_next();
    assert_eq!(l.selected, Some(0));
    l.select_next();
    assert_eq!(l.selected, Some(1));
    let mut p = ListSelection::new();
    p.select_previous();
    assert_eq!(p.selected, Some(usize::MAX));
    let mut z = ListSelection { offset: 3, selected: Some(0) };
    z.select_previous();
    assert_eq!(z, ListSelection { offset: 3, selected: Some(0) });
    z.select(None);
    assert_eq!(z, ListSelection { offset: 0, selected: None });
    let mut m = ListSelection { offset: 0, selected: Some(usize::MAX) };
    m.select_next();
    assert_eq!(m.selected, Some(usize::MAX));
}

#[test]
fn popups_open_and_close() {
    let mut p = Popup::new();
    p.open(ActivePopup::Downloading);
    assert_eq!(p.active, ActivePopup::Downloading);
    p.close();
    assert_eq!(p.active, ActivePopup::Closed);
    let mut ui = UiState::new();
    ui.popup.open(ActivePopup::NewList);
    ui.input.active = InputActive::NewListUrl;
    ui.input.new_list_name = "n".to_string();
    ui.input.new_list_url = "u".to_string();
    ui.input.search = "s".to_string();
    ui.close_new_list_popup();
    assert_eq!(ui.popup.active, ActivePopup::Closed);
    assert_eq!(ui.input.active, InputActive::Idle);
    assert_eq!(ui.input.new_list_name, "");
    assert_eq!(ui.input.new_list_url, "");
    assert_eq!(ui.input.search, "s");
}
