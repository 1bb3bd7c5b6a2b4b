use bpfmaps::maps::{Action, Key, Maps, Screen, ITEM_HEIGHT};
use bpfmaps::record::MapRecord;

fn record(id: u32) -> MapRecord {
    MapRecord {
        id,
        name: vec![b'm', 0],
        type_: 1,
        key_size: 4,
        value_size: 8,
        max_entries: 16,
        map_flags: 0,
        map_extra: 0,
        btf_id: 0,
        btf_key_type_id: 0,
        btf_value_type_id: 0,
        btf_vmlinux_value_type_id: 0,
        btf_vmlinux_id: 0,
        ifindex: 0,
        netns_dev: 0,
        netns_ino: 0,
    }
}

fn snapshot(ids: &[u32]) -> Vec<MapRecord> {
    ids.iter().map(|&id| record(id)).collect()
}

fn selected_id(m: &Maps) -> u32 {
    m.selected_record().expect("a row is selected").id
}

#[test]
fn new_selects_first_row() {
    let m = Maps::new(snapshot(&[3, 7, 9]));
    assert_eq!(m.selected(), Some(0));
    assert_eq!(m.scroll_position(), 0);
    assert!(matches!(m.screen(), Screen::MapsList));
    assert_eq!(m.scroll_content_length(), 2 * ITEM_HEIGHT);
}

#[test]
fn down_twice_then_wraps() {
    let mut m = Maps::new(snapshot(&[3, 7, 9]));
    assert_eq!(selected_id(&m), 3);
    assert_eq!(m.handle_key(Key::Down, true), Action::Continue);
    assert_eq!(m.handle_key(Key::Down, true), Action::Continue);
    assert_eq!(selected_id(&m), 9);
    assert_eq!(m.handle_key(Key::Down, true), Action::Continue);
    assert_eq!(selected_id(&m), 3);
    assert_eq!(m.selected(), Some(0));
}

#[test]
fn up_from_first_wraps_to_last() {
    let mut m = Maps::new(snapshot(&[3, 7, 9]));
    m.handle_key(Key::Char('k'), true);
    assert_eq!(m.selected(), Some(2));
    assert_eq!(m.scroll_position(), 2 * ITEM_HEIGHT);
    m.handle_key(Key::Up, true);
    assert_eq!(m.selected(), Some(1));
}

#[test]
fn next_row_cycles_back_for_every_start() {
    for n in 1..6usize {
        let ids: Vec<u32> = (0..n as u32).collect();
        for start in 0..n {
            let mut m = Maps::new(snapshot(&ids));
            for _ in 0..start {
                m.next_row();
            }
            assert_eq!(m.selected(), Some(start));
            for _ in 0..n {
                m.next_row();
            }
            assert_eq!(m.selected(), Some(start));
            for _ in 0..n {
                m.previous_row();
            }
            assert_eq!(m.selected(), Some(start));
            assert_eq!(m.scroll_position(), start * ITEM_HEIGHT);
        }
    }
}

#[test]
fn scroll_follows_selection() {
    let mut m = Maps::new(snapshot(&[1, 2, 3, 4, 5]));
    m.next_row();
    assert_eq!(m.scroll_position(), 4);
    m.next_row();
    assert_eq!(m.scroll_position(), 8);
    m.previous_row();
    m.previous_row();
    m.previous_row();
    assert_eq!(m.selected(), Some(4));
    assert_eq!(m.scroll_position(), 16);
}

#[test]
fn empty_snapshot_selects_row_zero() {
    let mut m = Maps::new(Vec::new());
    m.next_row();
    assert_eq!(m.selected(), Some(0));
    assert_eq!(m.scroll_position(), 0);
    m.previous_row();
    assert_eq!(m.selected(), Some(0));
    assert!(m.selected_record().is_none());
    assert_eq!(m.handle_key(Key::Enter, true), Action::Continue);
    assert_eq!(m.scroll_content_length(), 0);
}

#[test]
fn shrinking_snapshot_clamps_selection() {
    let mut m = Maps::new(snapshot(&[1, 2, 3, 4, 5]));
    m.previous_row();
    assert_eq!(m.selected(), Some(4));
    m.refresh(snapshot(&[1, 2]));
    assert_eq!(m.selected(), Some(1));
    assert_eq!(m.scroll_position(), ITEM_HEIGHT);
    m.refresh(Vec::new());
    assert_eq!(m.selected(), Some(0));
    assert_eq!(m.scroll_position(), 0);
}

#[test]
fn growing_snapshot_keeps_selection() {
    let mut m = Maps::new(snapshot(&[1, 2]));
    m.next_row();
    m.refresh(snapshot(&[1, 2, 3, 4]));
    assert_eq!(m.selected(), Some(1));
    assert_eq!(m.items().len(), 4);
    assert_eq!(m.scroll_content_length(), 3 * ITEM_HEIGHT);
}

#[test]
fn confirm_opens_detail_when_found() {
    let mut m = Maps::new(snapshot(&[3, 7, 9]));
    m.handle_key(Key::Down, true);
    let action = m.handle_key(Key::Enter, true);
    assert_eq!(action, Action::FetchById(7));
    m.open_detail(7, Some(record(7)));
    match m.screen() {
        Screen::MapInfo(info) => {
            assert_eq!(info.map_id, 7);
            assert_eq!(info.item.id, 7);
        }
        Screen::MapsList => panic!("detail screen expected"),
    }
}

#[test]
fn confirm_stays_on_list_when_absent() {
    let mut m = Maps::new(snapshot(&[3, 7, 9]));
    m.handle_key(Key::Down, true);
    assert_eq!(m.handle_key(Key::Enter, true), Action::FetchById(7));
    m.open_detail(7, None);
    assert!(matches!(m.screen(), Screen::MapsList));
    assert_eq!(m.selected(), Some(1));
}

#[test]
fn detail_ignores_navigation_keys() {
    let mut m = Maps::new(snapshot(&[3, 7, 9]));
    m.handle_key(Key::Down, true);
    m.open_detail(7, Some(record(7)));
    for key in [Key::Down, Key::Up, Key::Left, Key::Right, Key::Enter, Key::Char('j')] {
        assert_eq!(m.handle_key(key, true), Action::Continue);
        assert_eq!(m.selected(), Some(1));
        assert_eq!(m.scroll_position(), ITEM_HEIGHT);
        match m.screen() {
            Screen::MapInfo(info) => assert_eq!(info.map_id, 7),
            Screen::MapsList => panic!("detail screen expected"),
        }
    }
}

#[test]
fn detail_and_back_restores_navigation() {
    for back in [Key::Esc, Key::Char('q'), Key::Char('b')] {
        let mut m = Maps::new(snapshot(&[3, 7, 9]));
        m.previous_row();
        let before = (m.selected(), m.scroll_position());
        assert_eq!(m.handle_key(Key::Enter, true), Action::FetchById(9));
        m.open_detail(9, Some(record(9)));
        assert!(matches!(m.screen(), Screen::MapInfo(_)));
        assert_eq!(m.handle_key(back, true), Action::Continue);
        assert!(matches!(m.screen(), Screen::MapsList));
        assert_eq!((m.selected(), m.scroll_position()), before);
    }
}

#[test]
fn quit_keys_only_on_list() {
    let mut m = Maps::new(snapshot(&[3]));
    assert_eq!(m.handle_key(Key::Esc, true), Action::Quit);
    assert_eq!(m.handle_key(Key::Char('q'), true), Action::Quit);
    assert_eq!(m.handle_key(Key::Char('b'), true), Action::Continue);
}

#[test]
fn released_keys_change_nothing() {
    let mut m = Maps::new(snapshot(&[3, 7, 9]));
    assert_eq!(m.handle_key(Key::Down, false), Action::Continue);
    assert_eq!(m.handle_key(Key::Esc, false), Action::Continue);
    assert_eq!(m.selected(), Some(0));
}

#[test]
fn footer_follows_screen() {
    let mut m = Maps::new(snapshot(&[3]));
    assert!(m.footer_text().starts_with("(Esc) quit"));
    m.open_detail(3, Some(record(3)));
    assert_eq!(m.footer_text(), "(Esc/q/b) back | (↑/↓) n/a | (←/→) n/a");
}
