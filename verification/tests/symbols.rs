use luminance_surfman::surface::is_function_name;

#[test]
fn ordinary_names_are_function_names() {
    assert!(is_function_name("glClear"));
    assert!(is_function_name("eglSwapBuffers"));
    assert!(is_function_name(""));
    assert!(is_function_name("gl\u{e9}t\u{e9}"));
}

#[test]
fn names_with_nul_are_not_function_names() {
    assert!(!is_function_name("\0"));
    assert!(!is_function_name("gl\0Clear"));
    assert!(!is_function_name("glClear\0"));
    assert!(!is_function_name("\u{e9}\0"));
}
