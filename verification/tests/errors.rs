use wallpaper_render::error::{
    check_compile_status, check_error_code, check_link_status, RenderError, NO_ERROR,
};

#[test]
fn no_error_code_is_success() {
    assert_eq!(check_error_code("clearing the screen", NO_ERROR, None), Ok(()));
    assert_eq!(check_error_code("clearing the screen", 0, Some(String::from("none"))), Ok(()));
}

#[test]
fn error_code_carries_platform_text() {
    let r = check_error_code("binding textures", 0x0502, Some(String::from("invalid operation")));
    assert_eq!(
        r,
        Err(RenderError::Graphics {
            when: String::from("binding textures"),
            code: 0x0502,
            text: Some(String::from("invalid operation")),
        })
    );
}

#[test]
fn error_code_without_platform_text() {
    let r = check_error_code("drawing the triangles", 0x0505, None);
    assert_eq!(
        r,
        Err(RenderError::Graphics {
            when: String::from("drawing the triangles"),
            code: 0x0505,
            text: None,
        })
    );
}

#[test]
fn compile_status_zero_fails_with_log() {
    assert_eq!(
        check_compile_status(0, String::from("0:3 syntax error")),
        Err(RenderError::ShaderCompilation { log: String::from("0:3 syntax error") })
    );
    assert_eq!(check_compile_status(1, String::new()), Ok(()));
}

#[test]
fn link_status_must_be_one() {
    assert_eq!(check_link_status(1), Ok(()));
    assert_eq!(check_link_status(0), Err(RenderError::ProgramNotLinked));
    assert_eq!(check_link_status(2), Err(RenderError::ProgramNotLinked));
}
