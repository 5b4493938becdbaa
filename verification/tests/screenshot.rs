use roura_desktop::screenshot::{
    after_attempt, build_region_text, build_temp_file_name, capture_plan, capture_region,
    capture_screenshot, finish_capture, screenshot_result, Attempt, CaptureError, CaptureRegion,
    CaptureStep, Invocation, Platform, ScreenshotResult,
};

const ONE_PIXEL_PNG: &str =
    "iVBORw0KGgoAAAANSUhEUgAAAAEAAAABCAYAAAAfFcSJAAAACklEQVR4nGMAAQAABQABDQottAAAAABJRU5ErkJggg==";

fn invocation(program: &str, arguments: &[&str]) -> Invocation {
    Invocation {
        program: program.to_string(),
        arguments: arguments.iter().map(|a| a.to_string()).collect(),
    }
}

fn png(width: u32, height: u32) -> Vec<u8> {
    let picture = image::RgbaImage::new(width, height);
    let mut bytes = std::io::Cursor::new(Vec::new());
    picture.write_to(&mut bytes, image::ImageFormat::Png).unwrap();
    bytes.into_inner()
}

#[test]
fn region_text_is_comma_separated() {
    let region = CaptureRegion { x: 10, y: 20, width: 300, height: 400 };
    assert_eq!(build_region_text(&region), "10,20,300,400");
    let corner = CaptureRegion { x: -5, y: 0, width: 0, height: u32::MAX };
    assert_eq!(build_region_text(&corner), "-5,0,0,4294967295");
    let far = CaptureRegion { x: i32::MIN, y: i32::MAX, width: 1, height: 1 };
    assert_eq!(build_region_text(&far), "-2147483648,2147483647,1,1");
}

#[test]
fn temp_file_name_holds_the_id() {
    assert_eq!(
        build_temp_file_name("6f1c2a9e-0000-4000-8000-000000000001"),
        "roura_screenshot_6f1c2a9e-0000-4000-8000-000000000001.png"
    );
}

#[test]
fn macos_plan() {
    assert_eq!(
        capture_screenshot(Platform::MacOs, "/tmp/shot.png"),
        Ok(vec![invocation("screencapture", &["-x", "/tmp/shot.png"])])
    );
    let region = CaptureRegion { x: 1, y: 2, width: 3, height: 4 };
    assert_eq!(
        capture_region(Platform::MacOs, region, "/tmp/shot.png"),
        Ok(vec![invocation("screencapture", &["-x", "-R", "1,2,3,4", "/tmp/shot.png"])])
    );
}

#[test]
fn linux_plan() {
    assert_eq!(
        capture_screenshot(Platform::Linux, "out.png"),
        Ok(vec![
            invocation("gnome-screenshot", &["-f", "out.png"]),
            invocation("scrot", &["out.png"]),
        ])
    );
    let region = CaptureRegion { x: -1, y: 2, width: 30, height: 40 };
    assert_eq!(
        capture_region(Platform::Linux, region, "out.png"),
        Ok(vec![invocation("scrot", &["-a", "-1,2,30,40", "out.png"])])
    );
    assert_eq!(
        capture_plan(Platform::Linux, Some(&region), "out.png"),
        capture_region(Platform::Linux, region, "out.png")
    );
}

#[test]
fn windows_is_unsupported() {
    let region = CaptureRegion { x: 0, y: 0, width: 1, height: 1 };
    assert_eq!(capture_screenshot(Platform::Windows, "x.png"), Err(CaptureError::Unsupported));
    assert_eq!(capture_region(Platform::Windows, region, "x.png"), Err(CaptureError::Unsupported));
    assert_eq!(
        CaptureError::Unsupported.message(),
        "Screenshot capture on Windows requires additional setup. Use Snipping Tool or Win+Shift+S."
    );
}

#[test]
fn successful_attempt_is_captured() {
    let done = Attempt::Finished { success: true, stderr: "warning".to_string() };
    assert_eq!(after_attempt(Platform::Linux, 2, 0, done.clone()), CaptureStep::Captured);
    assert_eq!(after_attempt(Platform::MacOs, 1, 0, done), CaptureStep::Captured);
}

#[test]
fn failed_first_tool_leads_to_the_second() {
    let missing = Attempt::NotRun { cause: "No such file or directory".to_string() };
    assert_eq!(after_attempt(Platform::Linux, 2, 0, missing), CaptureStep::Retry(1));
    let failed = Attempt::Finished { success: false, stderr: "no display".to_string() };
    assert_eq!(after_attempt(Platform::Linux, 2, 0, failed), CaptureStep::Retry(1));
}

#[test]
fn failed_last_tool_fails_the_capture() {
    let missing = Attempt::NotRun { cause: "No such file or directory".to_string() };
    assert_eq!(
        after_attempt(Platform::Linux, 2, 1, missing.clone()),
        CaptureStep::Failed(CaptureError::Launch {
            platform: Platform::Linux,
            cause: "No such file or directory".to_string()
        })
    );
    assert_eq!(
        after_attempt(Platform::MacOs, 1, 0, missing.clone()),
        CaptureStep::Failed(CaptureError::Launch {
            platform: Platform::MacOs,
            cause: "No such file or directory".to_string()
        })
    );
    let failed = Attempt::Finished { success: false, stderr: "no display".to_string() };
    assert_eq!(
        after_attempt(Platform::Linux, 1, 0, failed.clone()),
        CaptureStep::Failed(CaptureError::ToolFailed("no display".to_string()))
    );
    assert_eq!(
        after_attempt(Platform::Linux, 2, usize::MAX, failed),
        CaptureStep::Failed(CaptureError::ToolFailed("no display".to_string()))
    );
    assert_eq!(
        after_attempt(Platform::Linux, 0, 0, missing),
        CaptureStep::Failed(CaptureError::Launch {
            platform: Platform::Linux,
            cause: "No such file or directory".to_string()
        })
    );
}

#[test]
fn capture_error_messages() {
    assert_eq!(
        CaptureError::Launch { platform: Platform::MacOs, cause: "gone".to_string() }.message(),
        "Failed to run screencapture: gone"
    );
    assert_eq!(
        CaptureError::Launch { platform: Platform::Linux, cause: "gone".to_string() }.message(),
        "Failed to run screenshot tool: gone"
    );
    assert_eq!(
        CaptureError::ToolFailed("no display".to_string()).message(),
        "Screenshot failed: no display"
    );
    assert_eq!(
        CaptureError::Read("denied".to_string()).message(),
        "Failed to read screenshot: denied"
    );
    assert_eq!(
        CaptureError::Decode("bad magic".to_string()).message(),
        "Failed to decode image: bad magic"
    );
    assert_eq!(CaptureError::TooLarge.message(), "Screenshot is too large to encode");
}

#[test]
fn screenshot_result_is_always_png() {
    assert_eq!(
        screenshot_result("QUJD".to_string(), (640, 480), Some("/tmp/a.png".to_string())),
        ScreenshotResult {
            data: "QUJD".to_string(),
            format: "png".to_string(),
            width: 640,
            height: 480,
            path: Some("/tmp/a.png".to_string()),
        }
    );
}

#[test]
fn finish_capture_encodes_and_measures() {
    let bytes = png(3, 2);
    let shot = finish_capture(&bytes, None).unwrap();
    assert_eq!(shot.width, 3);
    assert_eq!(shot.height, 2);
    assert_eq!(shot.format, "png");
    assert_eq!(shot.path, None);
    assert_eq!(shot.data.len(), (bytes.len() + 2) / 3 * 4);
    let decoded = base64::Engine::decode(&base64::engine::general_purpose::STANDARD, &shot.data);
    assert_eq!(decoded.unwrap(), bytes);
}

#[test]
fn finish_capture_of_a_known_image() {
    let bytes =
        base64::Engine::decode(&base64::engine::general_purpose::STANDARD, ONE_PIXEL_PNG).unwrap();
    let shot = finish_capture(&bytes, Some("/tmp/one.png".to_string())).unwrap();
    assert_eq!(
        shot,
        ScreenshotResult {
            data: ONE_PIXEL_PNG.to_string(),
            format: "png".to_string(),
            width: 1,
            height: 1,
            path: Some("/tmp/one.png".to_string()),
        }
    );
}

#[test]
fn finish_capture_refuses_what_is_no_image() {
    assert!(matches!(finish_capture(b"", None), Err(CaptureError::Decode(_))));
    assert!(matches!(finish_capture(b"plain text", None), Err(CaptureError::Decode(_))));
    let mut cut = png(4, 4);
    cut.truncate(20);
    let error = finish_capture(&cut, Some("x".to_string())).unwrap_err();
    assert!(matches!(error, CaptureError::Decode(_)));
    assert!(error.message().starts_with("Failed to decode image: "));
}
