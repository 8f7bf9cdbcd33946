//! Interface settings read from the `[tui]` table of the config file.

use vstd::prelude::*;
use crate::text::{
    all_spaces, chars_equal, chars_of, lemma_lower_of_upper, lemma_trim_ignores_surrounding_spaces,
    lemma_trim_lower_commute, lower_chars, lowered, trim_chars, trimmed, uppercased,
};

verus! {

#[derive(Debug, Clone, Copy, PartialEq, Eq, Structural)]
pub enum CoverProtocol {
    Auto,
    Kitty,
    Sixel,
    Halfblocks,
    Off,
}

/// A setting value as it is compared: trimmed and ASCII lower-cased.
pub open spec fn normalized(value: Seq<char>) -> Seq<char> {
    lowered(trimmed(value))
}

pub open spec fn cover_protocol_of(value: Seq<char>) -> CoverProtocol {
    let v = normalized(value);
    if v == "kitty"@ {
        CoverProtocol::Kitty
    } else if v == "sixel"@ {
        CoverProtocol::Sixel
    } else if v == "halfblocks"@ {
        CoverProtocol::Halfblocks
    } else if v == "off"@ {
        CoverProtocol::Off
    } else {
        CoverProtocol::Auto
    }
}

fn normalize(value: &str) -> (r: Vec<char>)
    ensures
        r@ == normalized(value@),
{
    let chars = chars_of(value);
    let trimmed_chars = trim_chars(chars.as_slice());
    lower_chars(trimmed_chars.as_slice())
}

impl CoverProtocol {
    pub fn parse(value: &str) -> (r: Self)
        ensures
            r == cover_protocol_of(value@),
    {
        let v = normalize(value);
        if chars_equal(v.as_slice(), "kitty") {
            CoverProtocol::Kitty
        } else if chars_equal(v.as_slice(), "sixel") {
            CoverProtocol::Sixel
        } else if chars_equal(v.as_slice(), "halfblocks") {
            CoverProtocol::Halfblocks
        } else if chars_equal(v.as_slice(), "off") {
            CoverProtocol::Off
        } else {
            CoverProtocol::Auto
        }
    }
}

/// Preferred library browse layout. Width still gates three-column.
#[derive(Debug, Clone, Copy, PartialEq, Eq, Structural)]
pub enum LibraryLayout {
    Columns,
    Tree,
}

pub open spec fn library_layout_of(value: Seq<char>) -> LibraryLayout {
    if normalized(value) == "tree"@ {
        LibraryLayout::Tree
    } else {
        LibraryLayout::Columns
    }
}

impl LibraryLayout {
    pub fn parse(value: &str) -> (r: Self)
        ensures
            r == library_layout_of(value@),
    {
        let v = normalize(value);
        if chars_equal(v.as_slice(), "tree") {
            LibraryLayout::Tree
        } else {
            LibraryLayout::Columns
        }
    }
}

#[derive(Debug, Clone, Copy, PartialEq, Eq, Structural)]
pub struct TuiConfig {
    pub show_cover: bool,
    pub cover_protocol: CoverProtocol,
    pub library_layout: LibraryLayout,
}

impl Default for TuiConfig {
    fn default() -> (r: Self)
        ensures
            r.show_cover,
            r.cover_protocol == CoverProtocol::Auto,
            r.library_layout == LibraryLayout::Columns,
    {
        TuiConfig {
            show_cover: true,
            cover_protocol: CoverProtocol::Auto,
            library_layout: LibraryLayout::Columns,
        }
    }
}

/// The settings a `[tui]` table yields, with the documented defaults for
/// anything left out: cover on, protocol `auto`, layout `columns`.
pub fn config_from_table(show_cover: Option<bool>, cover_protocol: Option<&str>, library_layout: Option<&str>) -> (r: TuiConfig)
    ensures
        r.show_cover == match show_cover { Some(b) => b, None => true },
        r.cover_protocol == match cover_protocol { Some(v) => cover_protocol_of(v@), None => cover_protocol_of("auto"@) },
        r.library_layout == match library_layout { Some(v) => library_layout_of(v@), None => library_layout_of("columns"@) },
{
    TuiConfig {
        show_cover: match show_cover { Some(b) => b, None => true },
        cover_protocol: CoverProtocol::parse(match cover_protocol { Some(v) => v, None => "auto" }),
        library_layout: LibraryLayout::parse(match library_layout { Some(v) => v, None => "columns" }),
    }
}

/// Any unknown protocol name falls back to automatic detection.
pub proof fn unknown_protocols_are_auto(value: Seq<char>)
    requires
        normalized(value) != "kitty"@,
        normalized(value) != "sixel"@,
        normalized(value) != "halfblocks"@,
        normalized(value) != "off"@,
    ensures
        cover_protocol_of(value) == CoverProtocol::Auto,
{
}

/// Parsing ignores ASCII case and surrounding spaces.
pub proof fn parsing_ignores_case_and_spaces(a: Seq<char>, b: Seq<char>)
    requires
        normalized(a) == normalized(b),
    ensures
        cover_protocol_of(a) == cover_protocol_of(b),
        library_layout_of(a) == library_layout_of(b),
{
}

/// Case and surrounding whitespace never matter: a value written in capitals
/// and padded with spaces or tabs parses as the value itself, and only the
/// four protocol names pick anything but automatic detection.
pub proof fn case_and_padding_never_matter(value: Seq<char>, before: Seq<char>, after: Seq<char>)
    requires
        all_spaces(before),
        all_spaces(after),
    ensures
        normalized(before + uppercased(value) + after) == normalized(value),
        cover_protocol_of(before + uppercased(value) + after) == cover_protocol_of(value),
        library_layout_of(before + uppercased(value) + after) == library_layout_of(value),
        (cover_protocol_of(value) != CoverProtocol::Auto) <==> (normalized(value) == "kitty"@
            || normalized(value) == "sixel"@ || normalized(value) == "halfblocks"@ || normalized(value) == "off"@),
{
    let u = uppercased(value);
    let t = before + u + after;
    lemma_trim_lower_commute(t);
    assert(lowered(t) =~= lowered(before) + lowered(u) + lowered(after));
    lemma_lower_of_upper(value);
    assert(lowered(before) =~= before) by {
        assert forall|i: int| 0 <= i < before.len() implies lowered(before)[i] == before[i] by {
            assert(crate::text::is_space(before[i]));
        }
    }
    assert(lowered(after) =~= after) by {
        assert forall|i: int| 0 <= i < after.len() implies lowered(after)[i] == after[i] by {
            assert(crate::text::is_space(after[i]));
        }
    }
    lemma_trim_ignores_surrounding_spaces(before, lowered(value), after);
    lemma_trim_lower_commute(value);
    assert(normalized(value) == lowered(trimmed(value)));
    reveal_strlit("kitty");
    reveal_strlit("sixel");
    reveal_strlit("halfblocks");
    reveal_strlit("off");
}

} // verus!
