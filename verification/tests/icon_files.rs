use fullscreenizer::icon_files::family_name_from_app_id;
use fullscreenizer::icon_files::select_icon_candidate;

fn names(list: &[&str]) -> Vec<String> {
    list.iter().map(|s| s.to_string()).collect()
}

#[test]
fn largest_target_size_wins() {
    // Among icon-targetsize-16.png, icon-targetsize-32.png and
    // icon-targetsize-256.png, the 256 variant is selected.
    let files = names(&[
        "icon-targetsize-16.png",
        "icon-targetsize-32.png",
        "icon-targetsize-256.png",
    ]);
    let r = select_icon_candidate(&files, "icon");
    assert_eq!(r.as_deref(), Some("icon-targetsize-256.png"));
}

#[test]
fn dotted_suffix_names_are_selected() {
    // The usual packaged-application shape: stem, a dot, the size word.
    let files = names(&[
        "logo.targetsize-24.png",
        "logo.targetsize-48.png",
        "logo.scale-200.png",
    ]);
    let r = select_icon_candidate(&files, "logo");
    assert_eq!(r.as_deref(), Some("logo.scale-200.png"));
}

#[test]
fn other_stems_are_ignored() {
    let files = names(&[
        "other-targetsize-512.png",
        "logo-targetsize-16.png",
    ]);
    let r = select_icon_candidate(&files, "logo");
    assert_eq!(r.as_deref(), Some("logo-targetsize-16.png"));
}

#[test]
fn non_image_files_are_ignored() {
    let files = names(&["logo-targetsize-256.txt", "logo-targetsize-16.png"]);
    let r = select_icon_candidate(&files, "logo");
    assert_eq!(r.as_deref(), Some("logo-targetsize-16.png"));
}

#[test]
fn names_without_numeric_suffix_are_ignored() {
    let files = names(&["logo.png", "logo-plain.png"]);
    assert_eq!(select_icon_candidate(&files, "logo"), None);
}

#[test]
fn empty_directory_selects_nothing() {
    assert_eq!(select_icon_candidate(&Vec::new(), "logo"), None);
}

#[test]
fn overflowing_suffix_is_ignored() {
    let files = names(&["logo-99999999999.png", "logo-8.png"]);
    let r = select_icon_candidate(&files, "logo");
    assert_eq!(r.as_deref(), Some("logo-8.png"));
}

#[test]
fn tie_picks_the_earliest() {
    let files = names(&["logo-a-32.png", "logo-b-32.png"]);
    let r = select_icon_candidate(&files, "logo");
    assert_eq!(r.as_deref(), Some("logo-a-32.png"));
}

#[test]
fn jpg_and_ico_extensions_count() {
    let files = names(&["logo-16.jpg", "logo-32.ico"]);
    let r = select_icon_candidate(&files, "logo");
    assert_eq!(r.as_deref(), Some("logo-32.ico"));
}

#[test]
fn family_name_is_the_prefix_before_the_bang() {
    assert_eq!(
        family_name_from_app_id("Microsoft.WindowsCalculator_8wekyb3d8bbwe!App"),
        "Microsoft.WindowsCalculator_8wekyb3d8bbwe"
    );
}

#[test]
fn family_name_without_bang_is_the_whole_id() {
    assert_eq!(family_name_from_app_id("PlainName"), "PlainName");
}

#[test]
fn family_name_of_empty_id_is_empty() {
    assert_eq!(family_name_from_app_id(""), "");
}
