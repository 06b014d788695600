use ui_kit::crate_path::{
    check_ascii_ident, error_message, found_crate_path, gpui, gpui_candidates, gpui_from_lookups,
    select_path, CratePathError, FoundCrate,
};

#[test]
fn identifiers() {
    assert!(check_ascii_ident("gpui_kit"));
    assert!(check_ascii_ident("gpui"));
    assert!(check_ascii_ident("_"));
    assert!(check_ascii_ident("Gpui2"));
    assert!(!check_ascii_ident(""));
    assert!(!check_ascii_ident("9lives"));
    assert!(!check_ascii_ident("gpui-kit"));
    assert!(!check_ascii_ident("two words"));
    assert!(!check_ascii_ident("héllo"));
    assert!(!check_ascii_ident("日本"));
    assert!(check_ascii_ident("crate"));
    assert!(!check_ascii_ident("٣x"));
    assert!(!check_ascii_ident("a.b"));
}

#[test]
fn path_to_the_crate_itself() {
    assert_eq!(found_crate_path(FoundCrate::Itself).to_string(), "crate");
}

#[test]
fn path_to_a_dependency() {
    let path = found_crate_path(FoundCrate::Name("gpui_kit".to_string()));
    assert_eq!(path.to_string(), ":: gpui_kit");
    assert_eq!(path.into_iter().count(), 3);
}

#[test]
fn most_preferred_found_candidate_wins() {
    let lookups = vec![
        None,
        Some(FoundCrate::Name("gpui_pre".to_string())),
        Some(FoundCrate::Itself),
    ];
    assert_eq!(select_path(&lookups).unwrap().to_string(), ":: gpui_pre");
    let lookups = vec![Some(FoundCrate::Name("kit".to_string())), Some(FoundCrate::Itself)];
    assert_eq!(select_path(&lookups).unwrap().to_string(), ":: kit");
    let lookups = vec![None, None, Some(FoundCrate::Itself)];
    assert_eq!(select_path(&lookups).unwrap().to_string(), "crate");
}

#[test]
fn nothing_found_is_an_error() {
    assert_eq!(select_path(&vec![None, None, None]).unwrap_err(), CratePathError::NotFound);
    assert_eq!(select_path(&vec![]).unwrap_err(), CratePathError::NotFound);
}

#[test]
fn a_name_that_is_not_an_identifier_is_an_error() {
    let lookups = vec![Some(FoundCrate::Name("9kit".to_string())), Some(FoundCrate::Itself)];
    assert_eq!(select_path(&lookups).unwrap_err(), CratePathError::NotAnIdentifier);
}

#[test]
fn error_messages() {
    assert_eq!(
        error_message(CratePathError::NotFound),
        "IntoPlot requires a direct dependency on `gpui-kit`, `gpui-pre` or `gpui`"
    );
    assert_eq!(
        error_message(CratePathError::NotAnIdentifier),
        "IntoPlot requires the GPUI dependency to be named by an ASCII identifier"
    );
}

#[test]
fn gpui_is_not_found_from_a_crate_without_it() {
    let err = gpui().unwrap_err();
    assert_eq!(
        err.to_string(),
        "IntoPlot requires a direct dependency on `gpui-kit`, `gpui-pre` or `gpui`"
    );
}

#[test]
fn a_dependency_with_a_non_ascii_name_is_not_written() {
    let lookups = vec![Some(FoundCrate::Name("gpüi".to_string())), Some(FoundCrate::Itself)];
    assert_eq!(select_path(&lookups).unwrap_err(), CratePathError::NotAnIdentifier);
}

#[test]
fn candidates_in_order_of_preference() {
    assert_eq!(gpui_candidates(), vec!["gpui-kit", "gpui-pre", "gpui"]);
}

#[test]
fn gpui_pre_renamed_to_gpui_gives_its_new_name() {
    let lookups = vec![None, Some(FoundCrate::Name("gpui".to_string()))];
    assert_eq!(gpui_from_lookups(&lookups).unwrap().to_string(), ":: gpui");
}

#[test]
fn gpui_kit_wins_over_the_others() {
    let lookups = vec![
        Some(FoundCrate::Name("gpui_kit".to_string())),
        Some(FoundCrate::Name("gpui_pre".to_string())),
        Some(FoundCrate::Name("gpui".to_string())),
    ];
    assert_eq!(gpui_from_lookups(&lookups).unwrap().to_string(), ":: gpui_kit");
}

#[test]
fn errors_of_gpui_from_lookups_carry_their_message() {
    let err = gpui_from_lookups(&vec![None, None, None]).unwrap_err();
    assert_eq!(
        err.to_string(),
        "IntoPlot requires a direct dependency on `gpui-kit`, `gpui-pre` or `gpui`"
    );
    assert_eq!(err.into_iter().count(), 1);
    let err = gpui_from_lookups(&vec![Some(FoundCrate::Name("1x".to_string()))]).unwrap_err();
    assert_eq!(
        err.to_string(),
        "IntoPlot requires the GPUI dependency to be named by an ASCII identifier"
    );
}
