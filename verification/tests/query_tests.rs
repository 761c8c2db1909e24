use orbfont::query::FontQuery;
use orbfont::search::{embedded_font_path, Next, Search, FALLBACK_FONT};
use orbfont::substr::contains;
use orbfont::Font;

#[test]
fn bold_italic_sets_both_flags() {
    let q = Font::build_fontproperty(None, None, Some("Bold Italic"));
    assert!(q.bold);
    assert!(q.italic);
    assert!(!q.oblique);
    assert!(!q.monospace);
    assert_eq!(q.family, "");
}

#[test]
fn oblique_in_any_case_sets_only_oblique() {
    for style in ["oblique", "OBLIQUE", "Oblique", "oBlIqUe"] {
        let q = Font::build_fontproperty(None, None, Some(style));
        assert!(q.oblique);
        assert!(!q.italic);
        assert!(!q.bold);
        assert!(!q.monospace);
    }
}

#[test]
fn no_style_sets_no_flags() {
    let q = Font::build_fontproperty(Some("Sans"), Some("Arial"), None);
    assert!(!q.bold);
    assert!(!q.italic);
    assert!(!q.oblique);
}

#[test]
fn regular_style_sets_no_flags() {
    let q = Font::build_fontproperty(None, None, Some("Regular"));
    assert!(!q.bold);
    assert!(!q.italic);
    assert!(!q.oblique);
}

#[test]
fn italic_and_oblique_are_both_recorded() {
    let q = Font::build_fontproperty(None, None, Some("italic oblique"));
    assert!(q.italic);
    assert!(q.oblique);
    assert!(!q.bold);
}

#[test]
fn style_is_compared_in_unicode_upper_case() {
    // U+0131, the dotless i, has the upper case "I".
    let q = Font::build_fontproperty(None, None, Some("\u{131}talic"));
    assert!(q.italic);
    // The caller of `from_caps` upper-cases; a lower-case style matches nothing there.
    let raw = FontQuery::from_caps(None, None, Some("bold italic"));
    assert!(!raw.bold);
    assert!(!raw.italic);
}

#[test]
fn mono_typeface_sets_monospace() {
    let q = Font::build_fontproperty(Some("Mono"), None, None);
    assert!(q.monospace);
    assert_eq!(q.family, "");
    let q = Font::build_fontproperty(Some("monospace"), None, None);
    assert!(q.monospace);
    let q = Font::build_fontproperty(Some("Serif"), None, None);
    assert!(!q.monospace);
}

#[test]
fn family_alone_is_used_verbatim() {
    let q = Font::build_fontproperty(None, Some("Fira"), None);
    assert_eq!(q.family, "Fira");
    assert!(!q.monospace);
}

#[test]
fn serif_and_sans_extend_the_family() {
    let q = Font::build_fontproperty(Some("Serif"), Some("Arial"), None);
    assert_eq!(q.family, "ArialSerif");
    let q = Font::build_fontproperty(Some("sans"), Some("Deja Vu "), None);
    assert_eq!(q.family, "Deja Vu Sans");
    // Serif is looked for first.
    let q = Font::build_fontproperty(Some("Sans Serif"), Some("Noto"), None);
    assert_eq!(q.family, "NotoSerif");
}

#[test]
fn typeface_without_serif_or_sans_keeps_the_family() {
    let q = Font::build_fontproperty(Some("Mono"), Some("Fira"), Some("Regular"));
    assert!(q.monospace);
    assert_eq!(q.family, "Fira");
    let q = Font::build_fontproperty(Some("Mono"), Some("Fira"), None);
    assert!(q.monospace);
    assert_eq!(q.family, "Fira");
    let q = FontQuery::from_caps(Some("MONO"), Some("Fira"), None);
    assert!(q.monospace);
    assert_eq!(q.family, "Fira");
    let q = FontQuery::from_caps(Some(""), Some("Fira"), None);
    assert!(!q.monospace);
    assert_eq!(q.family, "Fira");
}

#[test]
fn hint_alone_names_no_family() {
    let q = Font::build_fontproperty(Some("Serif"), None, None);
    assert_eq!(q.family, "");
    let q = Font::build_fontproperty(Some("Sans"), None, Some("Bold"));
    assert_eq!(q.family, "");
}

#[test]
fn no_query_of_a_search_loses_the_family() {
    for typeface in [None, Some("Mono"), Some("Serif"), Some("Sans"), Some("Display")] {
        let first = Search::begin(typeface, Some("Fira"), Some("Regular"));
        assert!(first.query.family.starts_with("Fira"));
        match first.on_matches(&Vec::new()) {
            Next::Ask(second) => assert_eq!(second.query.family, "Fira"),
            other => panic!("expected a second query, got {:?}", other),
        }
    }
}

#[test]
fn from_caps_maps_every_word() {
    let q = FontQuery::from_caps(Some("MONO SANS"), Some("Fira"), Some("BOLD ITALIC OBLIQUE"));
    assert!(q.bold && q.italic && q.oblique && q.monospace);
    assert_eq!(q.family, "FiraSans");
    let q = FontQuery::from_caps(None, None, None);
    assert!(!q.bold && !q.italic && !q.oblique && !q.monospace);
    assert_eq!(q.family, "");
}

#[test]
fn contains_finds_runs_of_characters() {
    assert!(contains("SEMIBOLD", "BOLD"));
    assert!(contains("BOLD", "BOLD"));
    assert!(contains("BOLD", ""));
    assert!(contains("", ""));
    assert!(!contains("", "BOLD"));
    assert!(!contains("BOL", "BOLD"));
    assert!(!contains("B OLD", "BOLD"));
    assert!(contains("\u{e9}t\u{e9} BOLD", "\u{e9} B"));
    assert!(!contains("BOLBOLBOL", "BOLD"));
    assert!(contains("BOLBOLBOLD", "BOLD"));
}

#[test]
fn embedded_target_resolves_to_exact_path() {
    assert_eq!(
        embedded_font_path(Some("Mono"), Some("Fira"), Some("Regular")),
        "/ui/fonts/Mono/Fira/Regular.ttf"
    );
}

#[test]
fn embedded_path_defaults() {
    assert_eq!(embedded_font_path(None, None, None), "/ui/fonts/Mono/Fira/Regular.ttf");
    assert_eq!(
        embedded_font_path(Some("Sans"), None, Some("Bold")),
        "/ui/fonts/Sans/Fira/Bold.ttf"
    );
    assert_eq!(embedded_font_path(None, Some("Noto"), None), "/ui/fonts/Mono/Noto/Regular.ttf");
}

#[test]
fn search_retries_without_typeface() {
    let first = Search::begin(Some("Serif"), Some("Arial"), None);
    assert_eq!(first.query.family, "ArialSerif");
    assert!(!first.retried);
    match first.on_matches(&Vec::new()) {
        Next::Ask(second) => {
            assert_eq!(second.query.family, "Arial");
            assert!(second.retried);
            assert!(!second.query.monospace);
            match second.on_matches(&Vec::new()) {
                Next::Load(path) => {
                    assert_eq!(path, FALLBACK_FONT);
                    assert_eq!(
                        path,
                        "/usr/share/fonts/truetype/liberation/LiberationMono-Regular.ttf"
                    );
                }
                other => panic!("expected the fallback, got {:?}", other),
            }
        }
        other => panic!("expected a second query, got {:?}", other),
    }
}

#[test]
fn search_keeps_style_on_retry() {
    let first = Search::begin(Some("Mono"), Some("Fira"), Some("bold"));
    assert!(first.query.monospace);
    assert!(first.query.bold);
    assert_eq!(first.query.family, "Fira");
    match first.on_matches(&Vec::new()) {
        Next::Ask(second) => {
            assert!(second.query.bold);
            assert!(!second.query.monospace);
            assert_eq!(second.query.family, "Fira");
        }
        other => panic!("expected a second query, got {:?}", other),
    }
}

#[test]
fn search_fetches_the_first_match() {
    let names = vec![String::from("Arial"), String::from("Arial Black")];
    let first = Search::begin(None, Some("Arial"), Some("Bold"));
    match first.on_matches(&names) {
        Next::Fetch { query, name } => {
            assert_eq!(name, "Arial");
            assert_eq!(query.family, "Arial");
            assert!(query.bold);
        }
        other => panic!("expected a fetch, got {:?}", other),
    }
    let second = match Search::begin(Some("Serif"), Some("Arial"), None).on_matches(&Vec::new()) {
        Next::Ask(second) => second,
        other => panic!("expected a second query, got {:?}", other),
    };
    match second.on_matches(&names) {
        Next::Fetch { query, name } => {
            assert_eq!(name, "Arial");
            assert_eq!(query.family, "Arial");
        }
        other => panic!("expected a fetch, got {:?}", other),
    }
}
