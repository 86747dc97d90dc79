use sc_rs::radii::element_char;
use sc_rs::radii::find_generic_entry;
use sc_rs::radii::find_radius_entry;
use sc_rs::radii::resolve_radius_entry;
use sc_rs::radii::wildcard_match;
use sc_rs::radii::RadiusPattern;

fn pat(residue: &str, atom: &str) -> RadiusPattern {
    RadiusPattern { residue: residue.to_string(), atom: atom.to_string() }
}

#[test]
fn wildcard_exact_match() {
    assert!(wildcard_match("GLY", "GLY"));
    assert!(!wildcard_match("GLY", "ALA"));
    assert!(!wildcard_match("GL", "GLY"));
    assert!(!wildcard_match("GLYX", "GLY"));
}

#[test]
fn wildcard_trailing_spaces_ignored() {
    assert!(wildcard_match("N  ", "N"));
    assert!(wildcard_match("N", "N   "));
    assert!(wildcard_match("  N", "  N"));
    assert!(!wildcard_match("N ", " N"));
}

#[test]
fn wildcard_leading_star_matches_anything() {
    assert!(wildcard_match("GLY", "*"));
    assert!(wildcard_match("", "*"));
    assert!(wildcard_match("anything at all", "***"));
    assert!(wildcard_match("X", "*X"));
}

#[test]
fn wildcard_inner_star_is_prefix_match() {
    assert!(wildcard_match("CA", "C*"));
    assert!(wildcard_match("CB", "C*"));
    assert!(wildcard_match("OG1", "OG*"));
    assert!(!wildcard_match("CA", "OG*"));
    assert!(!wildcard_match("O", "OG*"));
}

#[test]
fn wildcard_empty_cases() {
    assert!(wildcard_match("", ""));
    assert!(wildcard_match("   ", ""));
    assert!(wildcard_match("", "   "));
    assert!(!wildcard_match("A", ""));
    assert!(!wildcard_match("", "A"));
}

#[test]
fn element_first_letter_uppercased() {
    assert_eq!(element_char("CA"), Some('C'));
    assert_eq!(element_char("1HB"), Some('H'));
    assert_eq!(element_char("ca"), Some('C'));
    assert_eq!(element_char("123"), None);
    assert_eq!(element_char(""), None);
}

#[test]
fn direct_lookup_takes_first_matching_record() {
    let table = vec![pat("GLY", "N"), pat("GLY", "*"), pat("***", "C")];
    assert_eq!(find_radius_entry("GLY", "N", &table), Some(0));
    assert_eq!(find_radius_entry("GLY", "CA", &table), Some(1));
    assert_eq!(find_radius_entry("ALA", "N", &table), None);
}

#[test]
fn generic_lookup_needs_triple_star_and_single_letter() {
    let table = vec![pat("GLY", "N"), pat("**", "C"), pat("***", "C"), pat("***", "N")];
    assert_eq!(find_generic_entry('C', &table), Some(2));
    assert_eq!(find_generic_entry('N', &table), Some(3));
    assert_eq!(find_generic_entry('O', &table), None);
}

#[test]
fn resolve_prefers_direct_match() {
    let table = vec![pat("***", "C"), pat("GLY", "CA")];
    // the generic record sits first, but a direct pattern match anywhere
    // in the table wins over the element fallback
    assert_eq!(resolve_radius_entry("GLY", "CA", &table), Some(1));
}

#[test]
fn resolve_falls_back_to_element_record() {
    let table = vec![pat("ALA", "CB"), pat("***", "C"), pat("***", "N")];
    assert_eq!(resolve_radius_entry("GLY", "CG2", &table), Some(1));
    assert_eq!(resolve_radius_entry("GLY", "ND1", &table), Some(2));
    assert_eq!(resolve_radius_entry("GLY", "OXT", &table), None);
}

#[test]
fn resolve_uppercases_element_for_fallback() {
    let table = vec![pat("***", "C")];
    assert_eq!(resolve_radius_entry("xyz", "ca", &table), Some(0));
}

#[test]
fn resolve_without_any_letter_in_name() {
    let table = vec![pat("***", "C")];
    assert_eq!(resolve_radius_entry("GLY", "123", &table), None);
}

#[test]
fn wildcard_star_beyond_query_length() {
    // prefix before the star is three characters; a two-character query
    // cannot carry it
    assert!(!wildcard_match("CA", "CAG*"));
    assert!(wildcard_match("CAG", "CAG*"));
    assert!(wildcard_match("CAGX", "CAG*"));
}

#[test]
fn wildcard_star_with_trailing_spaces() {
    assert!(wildcard_match("anything", "*  "));
    assert!(wildcard_match("OG1", "OG*   "));
}

#[test]
fn generic_entry_tolerates_padded_fields() {
    let table = vec![pat(" *** ", " C ")];
    assert_eq!(find_generic_entry('C', &table), Some(0));
    let table2 = vec![pat("***", "C ")];
    assert_eq!(find_generic_entry('C', &table2), Some(0));
}

#[test]
fn direct_match_ignores_padding_in_query_tail() {
    let table = vec![pat("GLY", "CA")];
    assert_eq!(find_radius_entry("GLY  ", "CA ", &table), Some(0));
}
