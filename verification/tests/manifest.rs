use fullscreenizer::manifest::parse_manifest_for_icon_path;

#[test]
fn prefers_the_square_logo() {
    let xml = "<Package><uap:VisualElements DisplayName=\"App\" \
               Square44x44Logo=\"Assets\\Square44x44Logo.png\" \
               Logo=\"Assets\\StoreLogo.png\"></uap:VisualElements></Package>";
    assert_eq!(
        parse_manifest_for_icon_path(xml).as_deref(),
        Some("Assets\\Square44x44Logo.png")
    );
}

#[test]
fn falls_back_to_the_visual_elements_logo() {
    let xml = "<uap:VisualElements Logo=\"Assets\\StoreLogo.png\">";
    assert_eq!(
        parse_manifest_for_icon_path(xml).as_deref(),
        Some("Assets\\StoreLogo.png")
    );
}

#[test]
fn falls_back_to_the_application_logo() {
    let xml = "<Applications><uap:Application Id=\"App\" \
               Logo=\"Assets\\AppLogo.png\"></uap:Application></Applications>";
    assert_eq!(
        parse_manifest_for_icon_path(xml).as_deref(),
        Some("Assets\\AppLogo.png")
    );
}

#[test]
fn no_recognized_element_yields_none() {
    let xml = "<Package><Properties><Logo>Assets\\StoreLogo.png</Logo></Properties></Package>";
    assert_eq!(parse_manifest_for_icon_path(xml), None);
}

#[test]
fn empty_manifest_yields_none() {
    assert_eq!(parse_manifest_for_icon_path(""), None);
}

#[test]
fn element_text_runs_to_the_next_close() {
    // The visual-elements opening has no `>` of its own, so the element
    // text runs to the first `>` that follows — and the square logo is
    // found inside that stretch.
    let xml = "<uap:VisualElements Square44x44Logo=\"a.png\"\
               <uap:Application Logo=\"b.png\">";
    assert_eq!(parse_manifest_for_icon_path(xml).as_deref(), Some("a.png"));
}

#[test]
fn attribute_outside_the_element_is_not_used() {
    let xml = "<uap:VisualElements DisplayName=\"App\"> Square44x44Logo=\"late.png\"";
    assert_eq!(parse_manifest_for_icon_path(xml), None);
}

#[test]
fn empty_attribute_value_is_kept() {
    let xml = "<uap:VisualElements Square44x44Logo=\"\">";
    assert_eq!(parse_manifest_for_icon_path(xml).as_deref(), Some(""));
}
