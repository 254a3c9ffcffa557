use bem::config::resolve_credential;
use bem::errors::ClientError;
use bem::refs::{clean_references, resolve_references};
use bem::strutil::{join_commas, split_lines, starts_with, trim, u16_to_dec};

#[test]
fn positional_trimmed_and_empties_dropped() {
    let refs = vec!["a".to_string(), " b ".to_string(), "".to_string()];
    let r = resolve_references(&refs, &None);
    assert_eq!(r, Ok(vec!["a".to_string(), "b".to_string()]));
}

#[test]
fn empty_sources_fail() {
    let r = resolve_references(&vec![], &None);
    assert_eq!(r, Err(ClientError::NoReferencesProvided));
    let r = resolve_references(&vec!["  ".to_string()], &Some("\n \n".to_string()));
    assert_eq!(r, Err(ClientError::NoReferencesProvided));
}

#[test]
fn file_lines_appended_after_positional() {
    let refs = vec!["p1".to_string(), "p2".to_string()];
    let contents = " f1 \n\nf2\n".to_string();
    let r = resolve_references(&refs, &Some(contents)).unwrap();
    assert_eq!(
        r,
        vec!["p1".to_string(), "p2".to_string(), "f1".to_string(), "f2".to_string()]
    );
}

#[test]
fn source_exchange_keeps_contents() {
    let a = vec!["a1".to_string(), "a2".to_string()];
    let b_file = "b1\nb2".to_string();
    let one = resolve_references(&a, &Some(b_file)).unwrap();
    let b = vec!["b1".to_string(), "b2".to_string()];
    let a_file = "a1\na2".to_string();
    let two = resolve_references(&b, &Some(a_file)).unwrap();
    assert_eq!(one, vec!["a1", "a2", "b1", "b2"]);
    assert_eq!(two, vec!["b1", "b2", "a1", "a2"]);
    let mut one_sorted = one.clone();
    one_sorted.sort();
    let mut two_sorted = two.clone();
    two_sorted.sort();
    assert_eq!(one_sorted, two_sorted);
}

#[test]
fn duplicates_are_kept() {
    let refs = vec!["x".to_string(), "x".to_string()];
    let r = resolve_references(&refs, &Some("x".to_string())).unwrap();
    assert_eq!(r, vec!["x".to_string(), "x".to_string(), "x".to_string()]);
}

#[test]
fn trim_removes_surrounding_whitespace() {
    assert_eq!(trim(" \t a b \r\n"), "a b");
    assert_eq!(trim(""), "");
    assert_eq!(trim("   "), "");
    assert_eq!(trim("x"), "x");
}

#[test]
fn split_lines_counts_separators() {
    let lines = split_lines("a\nb\nc");
    assert_eq!(lines, vec!["a".to_string(), "b".to_string(), "c".to_string()]);
    let lines = split_lines("a\n");
    assert_eq!(lines, vec!["a".to_string(), "".to_string()]);
    let lines = split_lines("");
    assert_eq!(lines, vec!["".to_string()]);
}

#[test]
fn clean_preserves_order() {
    let items = vec![" z ".to_string(), "".to_string(), "a".to_string()];
    assert_eq!(clean_references(&items), vec!["z".to_string(), "a".to_string()]);
}

#[test]
fn join_commas_forms() {
    assert_eq!(join_commas(&vec![]), "");
    assert_eq!(join_commas(&vec!["a".to_string()]), "a");
    assert_eq!(join_commas(&vec!["a".to_string(), "b".to_string()]), "a,b");
}

#[test]
fn starts_with_prefixes() {
    assert!(starts_with("evt_1", "evt_"));
    assert!(!starts_with("ev", "evt_"));
    assert!(starts_with("anything", ""));
}

#[test]
fn decimal_rendering() {
    assert_eq!(u16_to_dec(0), "0");
    assert_eq!(u16_to_dec(7), "7");
    assert_eq!(u16_to_dec(404), "404");
    assert_eq!(u16_to_dec(65535), "65535");
}

#[test]
fn credential_env_wins() {
    let r = resolve_credential(&Some("tok-env".to_string()), &Some("BEM_API_TOKEN=tok-file".to_string()));
    assert_eq!(r, Ok("tok-env".to_string()));
}

#[test]
fn credential_dotfile_fallback() {
    let contents = "# comment\nOTHER=1\nBEM_API_TOKEN=tok-file \n".to_string();
    let r = resolve_credential(&None, &Some(contents));
    assert_eq!(r, Ok("tok-file".to_string()));
}

#[test]
fn credential_missing() {
    assert_eq!(resolve_credential(&None, &None), Err(ClientError::MissingCredential));
    let r = resolve_credential(&None, &Some("OTHER=1".to_string()));
    assert_eq!(r, Err(ClientError::MissingCredential));
}
