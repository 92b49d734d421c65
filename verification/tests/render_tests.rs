use spotterm::art::{art_placeholder, check_art_url, MAX_IMAGE_DIM};
use spotterm::browse::{BrowseItem, LibraryRow, PlayTarget};
use spotterm::devices::DeviceEntry;
use spotterm::search::{search_tab_header, SearchTab};
use spotterm::theme::MUSIC;
use spotterm::view::{device_lines, device_row, help_entries, help_lines, list_lines, search_row};

#[test]
fn search_tab_header_brackets_the_current_tab() {
    assert_eq!(search_tab_header(SearchTab::Top), "[Top] Songs  Artists  Albums ");
    assert_eq!(search_tab_header(SearchTab::Albums), " Top  Songs  Artists [Albums]");
}

#[test]
fn list_lines_show_headers_and_item_rows() {
    let rows = vec![
        LibraryRow::Header("SONGS".to_string()),
        LibraryRow::Item(BrowseItem {
            title: "Song".to_string(),
            subtitle: "Artist".to_string(),
            target: PlayTarget::Track("spotify:track:1".to_string()),
        }),
    ];
    let lines = list_lines(&rows, 80);
    assert_eq!(lines, vec!["SONGS".to_string(), search_row("Song", "Artist", 80)]);
    assert_eq!(lines[1], "Song — Artist");
}

#[test]
fn device_lines_format_each_device() {
    let items = vec![
        DeviceEntry {
            name: "Speaker".to_string(),
            id: Some("abc".to_string()),
            type_label: "Speaker".to_string(),
            volume: None,
            is_active: false,
            is_restricted: false,
        },
        DeviceEntry {
            name: "MacBook Pro".to_string(),
            id: None,
            type_label: "Computer".to_string(),
            volume: Some(65),
            is_active: true,
            is_restricted: false,
        },
    ];
    let lines = device_lines(&items, 80);
    assert_eq!(lines.len(), 2);
    assert_eq!(lines[0], device_row("Speaker", "Speaker", None, false, false, 80));
    assert!(lines[1].starts_with("● MacBook Pro [Computer]"));
}

#[test]
fn help_lines_align_descriptions() {
    let lines = help_lines();
    assert_eq!(lines.len(), help_entries().len());
    assert_eq!(lines[0], "  space     play / pause");
    assert_eq!(lines[14], "  Ctrl-C    quit (from any screen)");
    let col = lines[0].find("play").unwrap();
    assert_eq!(lines[1].find("next").unwrap(), col);
}

#[test]
fn check_art_url_refuses_other_hosts() {
    assert_eq!(check_art_url("https://i.scdn.co/image/abc"), Ok(()));
    assert_eq!(
        check_art_url("http://i.scdn.co/image/abc"),
        Err("cover-art URL is not allowed".to_string())
    );
    assert_eq!(
        check_art_url("https://evil.example.com/a.jpg"),
        Err("cover-art URL is not allowed".to_string())
    );
}

#[test]
fn art_placeholder_shows_the_note() {
    assert_eq!(art_placeholder(), format!("{}\n\n(no art)", MUSIC));
    assert!(MAX_IMAGE_DIM >= 640);
}
