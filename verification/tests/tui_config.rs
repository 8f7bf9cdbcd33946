use znicz_tui::tui_config::{config_from_table, CoverProtocol, LibraryLayout, TuiConfig};

#[test]
fn unknown_protocol_is_auto() {
    assert_eq!(CoverProtocol::parse("nope"), CoverProtocol::Auto);
    assert_eq!(CoverProtocol::parse("KITTY"), CoverProtocol::Kitty);
    assert_eq!(CoverProtocol::parse("off"), CoverProtocol::Off);
}

#[test]
fn library_layout_defaults_to_columns() {
    assert_eq!(LibraryLayout::parse("columns"), LibraryLayout::Columns);
    assert_eq!(LibraryLayout::parse(""), LibraryLayout::Columns);
    assert_eq!(LibraryLayout::parse("nope"), LibraryLayout::Columns);
    assert_eq!(LibraryLayout::parse("TREE"), LibraryLayout::Tree);
    assert_eq!(LibraryLayout::parse("tree"), LibraryLayout::Tree);
}

#[test]
fn settings_ignore_surrounding_spaces() {
    assert_eq!(CoverProtocol::parse("  Sixel "), CoverProtocol::Sixel);
    assert_eq!(CoverProtocol::parse("halfblocks"), CoverProtocol::Halfblocks);
    assert_eq!(LibraryLayout::parse("\ttree\n"), LibraryLayout::Tree);
}

#[test]
fn a_missing_table_gives_the_defaults() {
    let config = config_from_table(None, None, None);
    assert_eq!(config, TuiConfig::default());
    assert!(config.show_cover);
    let config = config_from_table(Some(false), Some("kitty"), Some("tree"));
    assert!(!config.show_cover);
    assert_eq!(config.cover_protocol, CoverProtocol::Kitty);
    assert_eq!(config.library_layout, LibraryLayout::Tree);
}

#[test]
fn capitals_and_padding_never_matter() {
    for name in ["kitty", "sixel", "halfblocks", "off", "auto", "nope"] {
        let padded = format!(" {}\t", name.to_ascii_uppercase());
        assert_eq!(CoverProtocol::parse(&padded), CoverProtocol::parse(name), "{padded:?}");
    }
    assert_eq!(CoverProtocol::parse("\t HalfBlocks  "), CoverProtocol::Halfblocks);
    assert_eq!(LibraryLayout::parse("  TREE\t"), LibraryLayout::Tree);
}
