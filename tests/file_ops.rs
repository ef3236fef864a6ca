use resume_ide::file_ops::{get_file_name, is_tex_extension, is_tex_file, name_or_untitled};

#[test]
fn test_is_tex_file_true() {
    let path = "resume.tex";
    assert!(is_tex_file(path));
}

#[test]
fn test_is_tex_file_false() {
    let path = "resume.pdf";
    assert!(!is_tex_file(path));
}

#[test]
fn test_is_tex_file_case_insensitive() {
    let path = "resume.TEX";
    assert!(is_tex_file(path));
}

#[test]
fn test_get_file_name() {
    let path = "/some/path/resume.tex";
    assert_eq!(get_file_name(path), "resume.tex");
}

#[test]
fn tex_extension_in_any_case() {
    assert!(is_tex_extension(Some("TeX")));
    assert!(!is_tex_extension(Some("tex2")));
    assert!(!is_tex_extension(Some("te")));
    assert!(!is_tex_extension(None));
    assert!(!is_tex_file("tex"));
    assert!(!is_tex_file(".tex"));
    assert!(!is_tex_file("a.tex.bak"));
    assert!(is_tex_file("a.Tex"));
}

#[test]
fn path_without_file_name_is_untitled() {
    assert_eq!(get_file_name("/"), "Untitled");
    assert_eq!(get_file_name(".."), "Untitled");
    assert_eq!(name_or_untitled(None), "Untitled");
    assert_eq!(name_or_untitled(Some("cv.tex".to_string())), "cv.tex");
}
