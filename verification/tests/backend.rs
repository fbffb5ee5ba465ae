use rust_embedded_wgpu::backend::{backend_request, BackendRequest, Backends};

fn allowed(value: Option<&str>) -> (bool, bool) {
    let backends: Backends = backend_request(value).allowed_backends();
    (backends.vulkan, backends.gl)
}

#[test]
fn unset_allows_both_backends() {
    assert_eq!(backend_request(None), BackendRequest::Unset);
    assert_eq!(allowed(None), (true, true));
}

#[test]
fn gl_allows_gl_only() {
    assert_eq!(backend_request(Some("gl")), BackendRequest::Gl);
    assert_eq!(allowed(Some("gl")), (false, true));
    assert_eq!(backend_request(Some("opengl")), BackendRequest::Gl);
    assert_eq!(backend_request(Some("gles")), BackendRequest::Gl);
}

#[test]
fn vulkan_allows_vulkan_only() {
    assert_eq!(backend_request(Some("vulkan")), BackendRequest::Vulkan);
    assert_eq!(allowed(Some("vulkan")), (true, false));
    assert_eq!(backend_request(Some("vk")), BackendRequest::Vulkan);
}

#[test]
fn both_names_are_settled() {
    assert_eq!(backend_request(Some("vulkan,gl")), BackendRequest::Vulkan);
    assert_eq!(backend_request(Some("gl,vulkan")), BackendRequest::Vulkan);
    assert_eq!(backend_request(Some("gl,vk")), BackendRequest::Gl);
}

#[test]
fn unrecognised_values_allow_both_backends() {
    assert_eq!(backend_request(Some("metal")), BackendRequest::Unrecognised);
    assert_eq!(backend_request(Some("")), BackendRequest::Unrecognised);
    assert_eq!(backend_request(Some("g l")), BackendRequest::Unrecognised);
    assert_eq!(allowed(Some("dx12")), (true, true));
}

#[test]
fn letter_case_does_not_matter() {
    assert_eq!(backend_request(Some("GL")), BackendRequest::Gl);
    assert_eq!(backend_request(Some("VulKan")), BackendRequest::Vulkan);
    assert_eq!(backend_request(Some("VK")), BackendRequest::Vulkan);
}

#[test]
fn only_ascii_letters_are_lowered() {
    // The Kelvin sign lower-cases to "k" in Unicode, but is no ASCII letter.
    assert_eq!(backend_request(Some("V\u{212A}")), BackendRequest::Unrecognised);
    assert_eq!(backend_request(Some("\u{e9}gl\u{e9}")), BackendRequest::Gl);
}
