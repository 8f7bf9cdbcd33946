use znicz_tui::keys::{devices, global, hints, library, navigation, playlists, queue};

#[test]
fn every_binding_documents_both_a_key_and_an_action() {
    let tables = [global(), navigation(), queue(), library(), devices(), playlists()];
    for table in tables.iter() {
        for binding in table.iter() {
            assert!(!binding.keys.is_empty());
            assert!(!binding.action.is_empty());
        }
    }
}

#[test]
fn each_pane_has_its_own_hint_line() {
    for pane in ["Queue", "Library", "Devices"] {
        assert!(hints(pane).contains("?"), "{pane} hints should mention help");
    }
    assert!(hints("Queue") != hints("Library"));
    assert!(
        hints("Library").contains("Alt-→"),
        "library hints should show Alt-arrow pan, got {}",
        hints("Library")
    );
    let global = global();
    assert!(
        global.iter().any(|b| b.keys.contains("Alt-→")),
        "global help should document Alt-arrow pan"
    );
    assert!(global.iter().any(|b| b.keys == "i"), "global help should document the signal inspector");
    assert!(global.iter().any(|b| b.keys == "P"), "global help should document playlists as P, not p");
    assert!(
        global.iter().any(|b| b.keys.contains("p") && b.action.contains("previous")),
        "global help should document p as previous"
    );
    assert!(
        hints("Library").contains("i inspect"),
        "library hints should mention inspect, got {}",
        hints("Library")
    );
    assert!(hints("Library").contains('P'), "library hints should mention P, got {}", hints("Library"));
    assert!(
        global.iter().all(|b| !b.keys.contains('<') && !b.keys.contains('>')),
        "< and > must not appear in the keymap"
    );
}

#[test]
fn an_unknown_pane_gets_the_fallback_hints() {
    assert_eq!(hints("Nowhere"), "] queue · ? help · q quit");
    assert_eq!(hints("Playlists"), "Enter play · a add · w save · Esc close · ? help");
}

#[test]
fn the_tables_hold_every_documented_row() {
    assert_eq!(global().len(), 19);
    assert_eq!(navigation().len(), 4);
    assert_eq!(queue().len(), 4);
    assert_eq!(library().len(), 6);
    assert_eq!(devices().len(), 3);
    assert_eq!(playlists().len(), 4);
    assert_eq!(global()[0].keys, "Space");
    assert_eq!(global()[0].action, "play / pause");
}

#[test]
fn every_footer_segment_starts_with_a_documented_key() {
    let tables = [
        znicz_tui::keys::global(),
        znicz_tui::keys::navigation(),
        znicz_tui::keys::queue(),
        znicz_tui::keys::library(),
        znicz_tui::keys::devices(),
        znicz_tui::keys::playlists(),
    ];
    let documented: Vec<&str> = tables.iter().flatten().flat_map(|b| b.keys.split(" / ")).collect();
    for pane in ["Queue", "Library", "Devices", "Inspector", "Playlists", "Radio", "anything"] {
        let line = znicz_tui::keys::hints(pane);
        assert!(line.contains("? help"), "{pane}: {line}");
        for segment in line.split(" · ") {
            let word = segment.trim().split_whitespace().next().unwrap_or("");
            assert!(documented.contains(&word), "{pane}: `{word}` is not in the keymap");
        }
    }
}
