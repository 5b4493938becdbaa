//! Screenshots: which tool to run on which host, what to make of how it
//! went, and how the captured image is handed to the caller.
//!
//! Running the tools and reading the image file is the caller's. The image
//! is measured with `image` and encoded with `base64`.

use vstd::prelude::*;
use vstd::string::StringExecFns;
use base64::Engine;
use crate::text::{decimal, decimal_string, signed_decimal, signed_decimal_string};

verus! {

/// Makes `image::ImageError` known as a type whose inside is not looked into.
#[verifier::external_type_specification]
#[verifier::external_body]
pub struct ExImageError(image::ImageError);

/// A captured image.
#[derive(Debug, Clone, PartialEq, Eq)]
pub struct ScreenshotResult {
    /// The image file's bytes in base64.
    pub data: String,
    /// The image's format.
    pub format: String,
    /// Width in pixels.
    pub width: u32,
    /// Height in pixels.
    pub height: u32,
    /// Where the image was saved, if the caller asked for that.
    pub path: Option<String>,
}

/// A part of the screen.
#[derive(Debug, Clone, Copy, PartialEq, Eq)]
pub struct CaptureRegion {
    pub x: i32,
    pub y: i32,
    pub width: u32,
    pub height: u32,
}

/// The host's kind.
#[derive(Debug, Clone, Copy, PartialEq, Eq, Structural)]
pub enum Platform {
    MacOs,
    Windows,
    Linux,
}

/// A program to run, with its arguments.
#[derive(Debug, Clone, PartialEq, Eq)]
pub struct Invocation {
    pub program: String,
    pub arguments: Vec<String>,
}

/// A program to run, as characters.
pub struct InvocationModel {
    pub program: Seq<char>,
    pub arguments: Seq<Seq<char>>,
}

/// How the run of a capture tool went.
#[derive(Debug, Clone, PartialEq, Eq)]
pub enum Attempt {
    /// The tool could not be run; holds the system's words.
    NotRun { cause: String },
    /// The tool ran; `success` is its verdict, `stderr` what it wrote to its
    /// standard error.
    Finished { success: bool, stderr: String },
}

/// Why no screenshot was taken.
#[derive(Debug, Clone, PartialEq, Eq)]
pub enum CaptureError {
    /// The host has no capture tool that this library drives.
    Unsupported,
    /// The last tool tried could not be run.
    Launch { platform: Platform, cause: String },
    /// The last tool tried reported failure; holds its standard error.
    ToolFailed(String),
    /// The image file could not be read; holds the system's words.
    Read(String),
    /// The image file holds no image that can be decoded.
    Decode(String),
    /// The image is too large to encode on this machine.
    TooLarge,
}

/// What follows an attempt.
#[derive(Debug, Clone, PartialEq, Eq)]
pub enum CaptureStep {
    /// Run the attempt with this index next.
    Retry(usize),
    /// The image was written; read it.
    Captured,
    /// Give up.
    Failed(CaptureError),
}

/// The bytes `bytes` in base64 with the standard alphabet and padding, as
/// `base64` encodes them.
pub uninterp spec fn base64_standard(bytes: Seq<u8>) -> Seq<char>;

/// Width and height of the image that `image` decodes from `bytes`; none
/// where it decodes none.
pub uninterp spec fn image_dimensions(bytes: Seq<u8>) -> Option<(u32, u32)>;

impl View for Invocation {
    type V = InvocationModel;

    open spec fn view(&self) -> InvocationModel {
        InvocationModel { program: self.program@, arguments: self.arguments.deep_view() }
    }
}

/// The invocations of `plan`, each as characters.
pub open spec fn invocation_models(plan: Seq<Invocation>) -> Seq<InvocationModel> {
    plan.map_values(|invocation: Invocation| invocation@)
}

/// A region as the capture tools take it: left, top, width and height in
/// decimal, parted by commas.
pub open spec fn region_text(region: CaptureRegion) -> Seq<char> {
    signed_decimal(region.x as int) + ","@ + signed_decimal(region.y as int) + ","@ + decimal(
        region.width as nat,
    ) + ","@ + decimal(region.height as nat)
}

/// The name of the temporary image file for the capture `id`.
pub open spec fn temp_file_name(id: Seq<char>) -> Seq<char> {
    "roura_screenshot_"@ + id + ".png"@
}

/// The tools to try, in order, to capture `region` (the whole screen where
/// there is none) into the file `target`. A host without a tool has none.
pub open spec fn attempts(
    platform: Platform,
    region: Option<CaptureRegion>,
    target: Seq<char>,
) -> Seq<InvocationModel> {
    match platform {
        Platform::MacOs => seq![
            InvocationModel {
                program: "screencapture"@,
                arguments: match region {
                    Some(r) => seq!["-x"@, "-R"@, region_text(r), target],
                    None => seq!["-x"@, target],
                },
            },
        ],
        Platform::Windows => Seq::empty(),
        Platform::Linux => match region {
            Some(r) => seq![
                InvocationModel {
                    program: "scrot"@,
                    arguments: seq!["-a"@, region_text(r), target],
                },
            ],
            None => seq![
                InvocationModel { program: "gnome-screenshot"@, arguments: seq!["-f"@, target] },
                InvocationModel { program: "scrot"@, arguments: seq![target] },
            ],
        },
    }
}

/// Whether an attempt produced the image.
pub open spec fn succeeded(outcome: Attempt) -> bool {
    outcome matches Attempt::Finished { success, .. } && success
}

impl CaptureError {
    /// The text that describes this failure.
    pub open spec fn spec_message(self) -> Seq<char> {
        match self {
            CaptureError::Unsupported =>
                "Screenshot capture on Windows requires additional setup. Use Snipping Tool or Win+Shift+S."@,
            CaptureError::Launch { platform, cause } => match platform {
                Platform::MacOs => "Failed to run screencapture: "@ + cause@,
                _ => "Failed to run screenshot tool: "@ + cause@,
            },
            CaptureError::ToolFailed(stderr) => "Screenshot failed: "@ + stderr@,
            CaptureError::Read(cause) => "Failed to read screenshot: "@ + cause@,
            CaptureError::Decode(cause) => "Failed to decode image: "@ + cause@,
            CaptureError::TooLarge => "Screenshot is too large to encode"@,
        }
    }

    /// Renders the failure as a descriptive message.
    pub fn message(&self) -> (text: String)
        ensures
            text@ == self.spec_message(),
    {
        match self {
            CaptureError::Unsupported => String::from_str(
                "Screenshot capture on Windows requires additional setup. Use Snipping Tool or Win+Shift+S.",
            ),
            CaptureError::Launch { platform, cause } => match platform {
                Platform::MacOs => String::from_str("Failed to run screencapture: ").concat(
                    cause.as_str(),
                ),
                _ => String::from_str("Failed to run screenshot tool: ").concat(cause.as_str()),
            },
            CaptureError::ToolFailed(stderr) => String::from_str("Screenshot failed: ").concat(
                stderr.as_str(),
            ),
            CaptureError::Read(cause) => String::from_str("Failed to read screenshot: ").concat(
                cause.as_str(),
            ),
            CaptureError::Decode(cause) => String::from_str("Failed to decode image: ").concat(
                cause.as_str(),
            ),
            CaptureError::TooLarge => String::from_str("Screenshot is too large to encode"),
        }
    }
}

/// Calls `Engine::encode` on `base64`'s `STANDARD` engine. Believed: the
/// result is `base64_standard` of the bytes. The call panics where the
/// encoded length does not fit the machine's word, which `requires` rules out.
#[verifier::external_body]
fn encode_base64(bytes: &[u8]) -> (text: String)
    requires
        bytes@.len() / 3 * 4 + 4 <= usize::MAX,
    ensures
        text@ == base64_standard(bytes@),
{
    base64::engine::general_purpose::STANDARD.encode(bytes)
}

/// Calls `image::load_from_memory` and hands on the image's width and
/// height. Believed: the call succeeds exactly on the bytes for which
/// `image_dimensions` names a size, and that size is the image's.
#[verifier::external_body]
fn measure_image(bytes: &[u8]) -> (r: Result<(u32, u32), image::ImageError>)
    ensures
        match r {
            Ok(size) => image_dimensions(bytes@) == Some(size),
            Err(_) => image_dimensions(bytes@).is_none(),
        },
{
    match image::load_from_memory(bytes) {
        Ok(decoded) => Ok((decoded.width(), decoded.height())),
        Err(error) => Err(error),
    }
}

/// Renders an `image::ImageError` through its `Display` form. Nothing is
/// claimed of the text.
#[verifier::external_body]
fn image_error_text(error: &image::ImageError) -> (text: String) {
    error.to_string()
}

/// Writes a region as the capture tools take it.
pub fn build_region_text(region: &CaptureRegion) -> (text: String)
    ensures
        text@ == region_text(*region),
{
    let mut text = signed_decimal_string(region.x as i64);
    text.append(",");
    text.append(signed_decimal_string(region.y as i64).as_str());
    text.append(",");
    text.append(decimal_string(region.width as u64).as_str());
    text.append(",");
    text.append(decimal_string(region.height as u64).as_str());
    text
}

/// The name of the temporary image file for the capture `id`.
pub fn build_temp_file_name(id: &str) -> (name: String)
    ensures
        name@ == temp_file_name(id@),
{
    let mut name = String::from_str("roura_screenshot_");
    name.append(id);
    name.append(".png");
    name
}

fn invocation1(program: &str, a: &str) -> (r: Invocation)
    ensures
        r@ == (InvocationModel { program: program@, arguments: seq![a@] }),
{
    let mut arguments: Vec<String> = Vec::new();
    arguments.push(String::from_str(a));
    assert(arguments.deep_view() =~= seq![a@]);
    Invocation { program: String::from_str(program), arguments }
}

fn invocation2(program: &str, a: &str, b: &str) -> (r: Invocation)
    ensures
        r@ == (InvocationModel { program: program@, arguments: seq![a@, b@] }),
{
    let mut arguments: Vec<String> = Vec::new();
    arguments.push(String::from_str(a));
    arguments.push(String::from_str(b));
    assert(arguments.deep_view() =~= seq![a@, b@]);
    Invocation { program: String::from_str(program), arguments }
}

fn invocation3(program: &str, a: &str, b: &str, c: &str) -> (r: Invocation)
    ensures
        r@ == (InvocationModel { program: program@, arguments: seq![a@, b@, c@] }),
{
    let mut arguments: Vec<String> = Vec::new();
    arguments.push(String::from_str(a));
    arguments.push(String::from_str(b));
    arguments.push(String::from_str(c));
    assert(arguments.deep_view() =~= seq![a@, b@, c@]);
    Invocation { program: String::from_str(program), arguments }
}

fn invocation4(program: &str, a: &str, b: &str, c: &str, d: &str) -> (r: Invocation)
    ensures
        r@ == (InvocationModel { program: program@, arguments: seq![a@, b@, c@, d@] }),
{
    let mut arguments: Vec<String> = Vec::new();
    arguments.push(String::from_str(a));
    arguments.push(String::from_str(b));
    arguments.push(String::from_str(c));
    arguments.push(String::from_str(d));
    assert(arguments.deep_view() =~= seq![a@, b@, c@, d@]);
    Invocation { program: String::from_str(program), arguments }
}

/// Plans a capture of `region`, or of the whole screen where there is none,
/// into the file `target`. The plan lists the tools to try in order; a host
/// without a tool is refused.
pub fn capture_plan(platform: Platform, region: Option<&CaptureRegion>, target: &str) -> (r: Result<
    Vec<Invocation>,
    CaptureError,
>)
    ensures
        platform == Platform::Windows ==> r == Err::<Vec<Invocation>, CaptureError>(
            CaptureError::Unsupported,
        ),
        platform != Platform::Windows ==> r is Ok && invocation_models(r->Ok_0@) == attempts(
            platform,
            match region {
                Some(found) => Some(*found),
                None => None,
            },
            target@,
        ),
{
    let mut plan: Vec<Invocation> = Vec::new();
    match platform {
        Platform::Windows => {
            return Err(CaptureError::Unsupported);
        },
        Platform::MacOs => {
            let only = match region {
                Some(found) => {
                    let area = build_region_text(found);
                    invocation4("screencapture", "-x", "-R", area.as_str(), target)
                },
                None => invocation2("screencapture", "-x", target),
            };
            let ghost model = only@;
            plan.push(only);
            assert(invocation_models(plan@) =~= seq![model]);
        },
        Platform::Linux => match region {
            Some(found) => {
                let area = build_region_text(found);
                let only = invocation3("scrot", "-a", area.as_str(), target);
                let ghost model = only@;
                plan.push(only);
                assert(invocation_models(plan@) =~= seq![model]);
            },
            None => {
                let first = invocation2("gnome-screenshot", "-f", target);
                let second = invocation1("scrot", target);
                let ghost models = seq![first@, second@];
                plan.push(first);
                plan.push(second);
                assert(invocation_models(plan@) =~= models);
            },
        },
    }
    Ok(plan)
}

/// Plans a capture of the whole screen into the file `target`.
pub fn capture_screenshot(platform: Platform, target: &str) -> (r: Result<
    Vec<Invocation>,
    CaptureError,
>)
    ensures
        platform == Platform::Windows ==> r == Err::<Vec<Invocation>, CaptureError>(
            CaptureError::Unsupported,
        ),
        platform != Platform::Windows ==> r is Ok && invocation_models(r->Ok_0@) == attempts(
            platform,
            None,
            target@,
        ),
{
    capture_plan(platform, None, target)
}

/// Plans a capture of `region` into the file `target`.
pub fn capture_region(platform: Platform, region: CaptureRegion, target: &str) -> (r: Result<
    Vec<Invocation>,
    CaptureError,
>)
    ensures
        platform == Platform::Windows ==> r == Err::<Vec<Invocation>, CaptureError>(
            CaptureError::Unsupported,
        ),
        platform != Platform::Windows ==> r is Ok && invocation_models(r->Ok_0@) == attempts(
            platform,
            Some(region),
            target@,
        ),
{
    capture_plan(platform, Some(&region), target)
}

/// Decides what follows the attempt `index` of a plan of `planned` attempts.
/// A tool that ran and reported success has written the image. After any
/// other outcome the next tool is tried; after the last one the capture has
/// failed, with the words of that last tool alone.
pub fn after_attempt(platform: Platform, planned: usize, index: usize, outcome: Attempt) -> (r:
    CaptureStep)
    ensures
        succeeded(outcome) ==> r == CaptureStep::Captured,
        !succeeded(outcome) && index + 1 < planned ==> r == CaptureStep::Retry(
            (index + 1) as usize,
        ),
        !succeeded(outcome) && index + 1 >= planned ==> r == CaptureStep::Failed(
            match outcome {
                Attempt::NotRun { cause } => CaptureError::Launch { platform, cause },
                Attempt::Finished { stderr, .. } => CaptureError::ToolFailed(stderr),
            },
        ),
{
    match outcome {
        Attempt::Finished { success, stderr } => {
            if success {
                CaptureStep::Captured
            } else if index < planned && index + 1 < planned {
                CaptureStep::Retry(index + 1)
            } else {
                CaptureStep::Failed(CaptureError::ToolFailed(stderr))
            }
        },
        Attempt::NotRun { cause } => {
            if index < planned && index + 1 < planned {
                CaptureStep::Retry(index + 1)
            } else {
                CaptureStep::Failed(CaptureError::Launch { platform, cause })
            }
        },
    }
}

/// Puts a screenshot together from the encoded image and its size. The
/// format is always `png`; the path is the one the caller asked to save to.
pub fn screenshot_result(data: String, size: (u32, u32), save_path: Option<String>) -> (r:
    ScreenshotResult)
    ensures
        r.data == data,
        r.format@ == "png"@,
        r.width == size.0,
        r.height == size.1,
        r.path == save_path,
{
    ScreenshotResult {
        data,
        format: String::from_str("png"),
        width: size.0,
        height: size.1,
        path: save_path,
    }
}

/// Turns the bytes of the image file into the screenshot handed to the
/// caller. Bytes that hold no decodable image are refused; otherwise the
/// screenshot holds the bytes in base64 and the image's size.
pub fn finish_capture(image: &[u8], save_path: Option<String>) -> (r: Result<
    ScreenshotResult,
    CaptureError,
>)
    ensures
        match image_dimensions(image@) {
            None => r is Err && r->Err_0 is Decode,
            Some(size) => if image@.len() / 3 * 4 + 4 <= usize::MAX {
                &&& r is Ok
                &&& r->Ok_0.data@ == base64_standard(image@)
                &&& r->Ok_0.format@ == "png"@
                &&& r->Ok_0.width == size.0
                &&& r->Ok_0.height == size.1
                &&& r->Ok_0.path == save_path
            } else {
                r == Err::<ScreenshotResult, CaptureError>(CaptureError::TooLarge)
            },
        },
{
    let size = match measure_image(image) {
        Ok(size) => size,
        Err(error) => {
            return Err(CaptureError::Decode(image_error_text(&error)));
        },
    };
    if image.len() / 3 > (usize::MAX - 4) / 4 {
        return Err(CaptureError::TooLarge);
    }
    let data = encode_base64(image);
    Ok(screenshot_result(data, size, save_path))
}

} // verus!
