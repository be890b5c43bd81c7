//! The capture of an Android web-view, as it runs on the UI thread: the
//! web-view is drawn into an off-screen bitmap through JNI, and the bitmap
//! is compressed to PNG.

use crate::capture::{
    capture_failed, check_dimensions, failure_text, invalid_dimensions_text, unsigned_bytes,
    Screenshot, ScreenshotError, ScreenshotErrorSpec,
};
use vstd::prelude::*;

verus! {

/// `jni::JNIEnv`, the handle through which Java is called.
#[verifier::external_type_specification]
#[verifier::external_body]
pub struct ExJniEnv<'local>(jni::JNIEnv<'local>);

/// `jni::sys::_jobject`, what a Java reference points to.
#[verifier::external_type_specification]
#[verifier::external_body]
pub struct ExJavaObjectTarget(jni::sys::_jobject);

/// `jni::objects::JObject`, a reference to a Java object.
#[verifier::external_type_specification]
#[verifier::external_body]
pub struct ExJavaObject<'local>(jni::objects::JObject<'local>);

/// `jni::objects::JClass`, a reference to a Java class.
#[verifier::external_type_specification]
#[verifier::external_body]
pub struct ExJavaClass<'local>(jni::objects::JClass<'local>);

/// `jni::objects::JValueGen`, a value that is passed to Java or comes back
/// from it.
#[verifier::external_type_specification]
#[verifier::external_body]
#[verifier::reject_recursive_types(O)]
pub struct ExJavaValue<O>(jni::objects::JValueGen<O>);

/// `jni::errors::Error`, why a call into Java failed.
#[verifier::external_type_specification]
#[verifier::external_body]
pub struct ExJniError(jni::errors::Error);

/// An argument of a Java call.
pub enum CallArg<'a, 'local> {
    /// A Java `int`.
    Int(i32),
    /// A reference to a Java object.
    Object(&'a jni::objects::JObject<'local>),
}

/// `JNIEnv::find_class`: looks a class up by its name. What comes back
/// depends on the Java side; nothing is claimed of it.
#[verifier::external_body]
fn find_class<'local>(env: &mut jni::JNIEnv<'local>, name: &str) -> (found: Result<
    jni::objects::JClass<'local>,
    jni::errors::Error,
>) {
    env.find_class(name)
}

/// Whether a type signature opens no bracket but its first: no argument
/// of it is itself the type of a method.
pub open spec fn flat_signature(signature: Seq<char>) -> bool {
    forall|i: int| 1 <= i < signature.len() ==> signature[i] != '('
}

/// `JNIEnv::call_method`: calls the method `name` with the signature
/// `signature` on `target`. A signature with a method type among its
/// arguments, on which the call panics, is left out. What comes back
/// depends on the Java side; nothing is claimed of it.
#[verifier::external_body]
fn call_method<'local>(
    env: &mut jni::JNIEnv<'local>,
    target: &jni::objects::JObject<'_>,
    name: &str,
    signature: &str,
    args: &Vec<CallArg<'_, '_>>,
) -> (returned: Result<jni::objects::JValueGen<jni::objects::JObject<'local>>, jni::errors::Error>)
    requires
        flat_signature(signature@),
{
    let values: Vec<jni::objects::JValue> = args.iter().map(
        |arg| match arg {
            CallArg::Int(number) => jni::objects::JValue::Int(*number),
            CallArg::Object(object) => jni::objects::JValue::Object(*object),
        },
    ).collect();
    env.call_method(target, name, signature, &values)
}

/// `JNIEnv::call_static_method`: calls the static method `name` with the
/// signature `signature` of `class`. A signature with a method type among
/// its arguments, on which the call panics, is left out. What comes back
/// depends on the Java side; nothing is claimed of it.
#[verifier::external_body]
fn call_static_method<'local>(
    env: &mut jni::JNIEnv<'local>,
    class: &jni::objects::JClass<'_>,
    name: &str,
    signature: &str,
    args: &Vec<CallArg<'_, '_>>,
) -> (returned: Result<jni::objects::JValueGen<jni::objects::JObject<'local>>, jni::errors::Error>)
    requires
        flat_signature(signature@),
{
    let values: Vec<jni::objects::JValue> = args.iter().map(
        |arg| match arg {
            CallArg::Int(number) => jni::objects::JValue::Int(*number),
            CallArg::Object(object) => jni::objects::JValue::Object(*object),
        },
    ).collect();
    env.call_static_method(class, name, signature, &values)
}

/// `JNIEnv::get_static_field`: reads the static field `name` of the type
/// `signature` from `class`. What comes back depends on the Java side;
/// nothing is claimed of it.
#[verifier::external_body]
fn get_static_field<'local>(
    env: &mut jni::JNIEnv<'local>,
    class: &jni::objects::JClass<'_>,
    name: &str,
    signature: &str,
) -> (value: Result<jni::objects::JValueGen<jni::objects::JObject<'local>>, jni::errors::Error>) {
    env.get_static_field(class, name, signature)
}

/// `JNIEnv::new_object`: constructs an object of `class` with the
/// constructor of the signature `signature`. A signature with a method type
/// among its arguments, on which the call panics, is left out. What comes
/// back depends on the Java side; nothing is claimed of it.
#[verifier::external_body]
fn new_object<'local>(
    env: &mut jni::JNIEnv<'local>,
    class: &jni::objects::JClass<'_>,
    signature: &str,
    args: &Vec<CallArg<'_, '_>>,
) -> (created: Result<jni::objects::JObject<'local>, jni::errors::Error>)
    requires
        flat_signature(signature@),
{
    let values: Vec<jni::objects::JValue> = args.iter().map(
        |arg| match arg {
            CallArg::Int(number) => jni::objects::JValue::Int(*number),
            CallArg::Object(object) => jni::objects::JValue::Object(*object),
        },
    ).collect();
    env.new_object(class, signature, &values)
}

/// `JValueGen::i`: the `int` that a Java value holds, or an error where it
/// holds something else. Nothing is claimed of which it is.
#[verifier::external_body]
fn int_value(value: jni::objects::JValueGen<jni::objects::JObject<'_>>) -> (number: Result<
    i32,
    jni::errors::Error,
>) {
    value.i()
}

/// `JValueGen::l`: the object that a Java value holds, or an error where it
/// holds something else. Nothing is claimed of which it is.
#[verifier::external_body]
fn object_value<'local>(value: jni::objects::JValueGen<jni::objects::JObject<'local>>) -> (object:
    Result<jni::objects::JObject<'local>, jni::errors::Error>) {
    value.l()
}

/// `JNIEnv::get_array_length` on `array`, which is taken for a reference to
/// a Java `byte[]` as `jni`'s own conversion takes it, unchecked. What
/// comes back depends on the Java side; nothing is claimed of it.
#[verifier::external_body]
fn byte_array_length(env: &jni::JNIEnv<'_>, array: &jni::objects::JObject<'_>) -> (length: Result<
    i32,
    jni::errors::Error,
>) {
    env.get_array_length(<&jni::objects::JByteArray>::from(array))
}

/// `JNIEnv::get_byte_array_region` on `array`, which is taken for a
/// reference to a Java `byte[]` as `jni`'s own conversion takes it,
/// unchecked: copies from the position `start` of the array into `buffer`,
/// as many bytes as the buffer holds. What the buffer holds afterwards depends on
/// the Java side; nothing is claimed of it.
#[verifier::external_body]
fn copy_byte_array(
    env: &jni::JNIEnv<'_>,
    array: &jni::objects::JObject<'_>,
    start: i32,
    buffer: &mut Vec<i8>,
) -> (copied: Result<(), jni::errors::Error>) {
    env.get_byte_array_region(<&jni::objects::JByteArray>::from(array), start, buffer)
}

/// The Java classes that a capture looks up.
#[derive(Debug, Clone, Copy, PartialEq, Eq, Structural)]
pub enum JavaClass {
    Bitmap,
    BitmapConfig,
    Canvas,
    ByteArrayOutputStream,
    CompressFormat,
}

/// The name under which a class is looked up.
pub open spec fn class_name(class: JavaClass) -> Seq<char> {
    match class {
        JavaClass::Bitmap => "android/graphics/Bitmap"@,
        JavaClass::BitmapConfig => "android/graphics/Bitmap$Config"@,
        JavaClass::Canvas => "android/graphics/Canvas"@,
        JavaClass::ByteArrayOutputStream => "java/io/ByteArrayOutputStream"@,
        JavaClass::CompressFormat => "android/graphics/Bitmap$CompressFormat"@,
    }
}

impl JavaClass {
    /// The name under which the class is looked up.
    pub fn name(self) -> (text: &'static str)
        ensures
            text@ == class_name(self),
    {
        match self {
            JavaClass::Bitmap => "android/graphics/Bitmap",
            JavaClass::BitmapConfig => "android/graphics/Bitmap$Config",
            JavaClass::Canvas => "android/graphics/Canvas",
            JavaClass::ByteArrayOutputStream => "java/io/ByteArrayOutputStream",
            JavaClass::CompressFormat => "android/graphics/Bitmap$CompressFormat",
        }
    }
}

/// The methods, constructors and static fields of Java that a capture
/// uses, in the order in which it comes to them.
#[derive(Debug, Clone, Copy, PartialEq, Eq, Structural)]
pub enum JavaCall {
    /// `WebView.getWidth()`.
    GetWidth,
    /// `WebView.getHeight()`.
    GetHeight,
    /// The static field `Bitmap.Config.ARGB_8888`.
    Argb8888,
    /// The static method `Bitmap.createBitmap(int, int, Bitmap.Config)`.
    CreateBitmap,
    /// The constructor `Canvas(Bitmap)`.
    NewCanvas,
    /// `WebView.draw(Canvas)`.
    Draw,
    /// The constructor `ByteArrayOutputStream()`.
    NewStream,
    /// The static field `Bitmap.CompressFormat.PNG`.
    PngFormat,
    /// `Bitmap.compress(Bitmap.CompressFormat, int, OutputStream)`.
    Compress,
    /// `ByteArrayOutputStream.toByteArray()`.
    ToByteArray,
    /// `Bitmap.recycle()`.
    Recycle,
}

/// The name of the method or field that is used; `<init>` stands for a
/// constructor, as it does in Java.
pub open spec fn call_name(call: JavaCall) -> Seq<char> {
    match call {
        JavaCall::GetWidth => "getWidth"@,
        JavaCall::GetHeight => "getHeight"@,
        JavaCall::Argb8888 => "ARGB_8888"@,
        JavaCall::CreateBitmap => "createBitmap"@,
        JavaCall::NewCanvas => "<init>"@,
        JavaCall::Draw => "draw"@,
        JavaCall::NewStream => "<init>"@,
        JavaCall::PngFormat => "PNG"@,
        JavaCall::Compress => "compress"@,
        JavaCall::ToByteArray => "toByteArray"@,
        JavaCall::Recycle => "recycle"@,
    }
}

/// The type signature of the method or field that is used.
pub open spec fn call_signature(call: JavaCall) -> Seq<char> {
    match call {
        JavaCall::GetWidth => "()I"@,
        JavaCall::GetHeight => "()I"@,
        JavaCall::Argb8888 => "Landroid/graphics/Bitmap$Config;"@,
        JavaCall::CreateBitmap => "(IILandroid/graphics/Bitmap$Config;)Landroid/graphics/Bitmap;"@,
        JavaCall::NewCanvas => "(Landroid/graphics/Bitmap;)V"@,
        JavaCall::Draw => "(Landroid/graphics/Canvas;)V"@,
        JavaCall::NewStream => "()V"@,
        JavaCall::PngFormat => "Landroid/graphics/Bitmap$CompressFormat;"@,
        JavaCall::Compress => "(Landroid/graphics/Bitmap$CompressFormat;ILjava/io/OutputStream;)Z"@,
        JavaCall::ToByteArray => "()[B"@,
        JavaCall::Recycle => "()V"@,
    }
}

impl JavaCall {
    /// The name of the method or field that is used.
    pub fn name(self) -> (text: &'static str)
        ensures
            text@ == call_name(self),
    {
        match self {
            JavaCall::GetWidth => "getWidth",
            JavaCall::GetHeight => "getHeight",
            JavaCall::Argb8888 => "ARGB_8888",
            JavaCall::CreateBitmap => "createBitmap",
            JavaCall::NewCanvas => "<init>",
            JavaCall::Draw => "draw",
            JavaCall::NewStream => "<init>",
            JavaCall::PngFormat => "PNG",
            JavaCall::Compress => "compress",
            JavaCall::ToByteArray => "toByteArray",
            JavaCall::Recycle => "recycle",
        }
    }

    /// The type signature of the method or field that is used. None of the
    /// signatures has a method type among its arguments.
    pub fn signature(self) -> (text: &'static str)
        ensures
            text@ == call_signature(self),
            flat_signature(text@),
    {
        proof {
            lemma_signatures_are_flat(self);
        }
        match self {
            JavaCall::GetWidth => "()I",
            JavaCall::GetHeight => "()I",
            JavaCall::Argb8888 => "Landroid/graphics/Bitmap$Config;",
            JavaCall::CreateBitmap => "(IILandroid/graphics/Bitmap$Config;)Landroid/graphics/Bitmap;",
            JavaCall::NewCanvas => "(Landroid/graphics/Bitmap;)V",
            JavaCall::Draw => "(Landroid/graphics/Canvas;)V",
            JavaCall::NewStream => "()V",
            JavaCall::PngFormat => "Landroid/graphics/Bitmap$CompressFormat;",
            JavaCall::Compress => "(Landroid/graphics/Bitmap$CompressFormat;ILjava/io/OutputStream;)Z",
            JavaCall::ToByteArray => "()[B",
            JavaCall::Recycle => "()V",
        }
    }
}

/// No signature that a capture uses has a method type among its arguments.
pub proof fn lemma_signatures_are_flat(call: JavaCall)
    ensures
        flat_signature(call_signature(call)),
{
    reveal_strlit("()I");
    reveal_strlit("()V");
    reveal_strlit("()[B");
    reveal_strlit("Landroid/graphics/Bitmap$Config;");
    reveal_strlit("(IILandroid/graphics/Bitmap$Config;)Landroid/graphics/Bitmap;");
    reveal_strlit("(Landroid/graphics/Bitmap;)V");
    reveal_strlit("(Landroid/graphics/Canvas;)V");
    reveal_strlit("Landroid/graphics/Bitmap$CompressFormat;");
    reveal_strlit("(Landroid/graphics/Bitmap$CompressFormat;ILjava/io/OutputStream;)Z");
}

/// The arguments of `createBitmap`: the width, the height and the pixel
/// format, in that order.
pub fn bitmap_args<'a, 'local>(
    width: i32,
    height: i32,
    config: &'a jni::objects::JObject<'local>,
) -> (args: Vec<CallArg<'a, 'local>>)
    ensures
        args@ == seq![CallArg::Int(width), CallArg::Int(height), CallArg::Object(config)],
{
    let args = vec![CallArg::Int(width), CallArg::Int(height), CallArg::Object(config)];
    assert(args@ =~= seq![CallArg::Int(width), CallArg::Int(height), CallArg::Object(config)]);
    args
}

/// The arguments of `compress`: the format, the quality of 100 and the
/// stream that takes the bytes, in that order.
pub fn compress_args<'a, 'local>(
    format: &'a jni::objects::JObject<'local>,
    stream: &'a jni::objects::JObject<'local>,
) -> (args: Vec<CallArg<'a, 'local>>)
    ensures
        args@ == seq![CallArg::Object(format), CallArg::Int(100), CallArg::Object(stream)],
{
    let args = vec![CallArg::Object(format), CallArg::Int(100), CallArg::Object(stream)];
    assert(args@ =~= seq![CallArg::Object(format), CallArg::Int(100), CallArg::Object(stream)]);
    args
}

/// The arguments of a call that takes one object and nothing else.
pub fn object_arg<'a, 'local>(object: &'a jni::objects::JObject<'local>) -> (args: Vec<
    CallArg<'a, 'local>,
>)
    ensures
        args@ == seq![CallArg::Object(object)],
{
    let args = vec![CallArg::Object(object)];
    assert(args@ =~= seq![CallArg::Object(object)]);
    args
}

/// The steps of a capture that can fail, in the order in which they are
/// taken.
#[derive(Debug, Clone, Copy, PartialEq, Eq, Structural)]
pub enum CaptureStep {
    ReadWidth,
    WidthValue,
    ReadHeight,
    HeightValue,
    FindBitmapClass,
    FindConfigClass,
    ReadArgb8888,
    Argb8888Value,
    CreateBitmap,
    BitmapValue,
    FindCanvasClass,
    CreateCanvas,
    DrawWebView,
    FindStreamClass,
    CreateStream,
    FindFormatClass,
    ReadPngFormat,
    PngFormatValue,
    CompressBitmap,
    ReadByteArray,
    ByteArrayValue,
    ReadArrayLength,
    CopyByteArray,
}

/// What a step was about, for the reason of its failure.
pub open spec fn step_context(step: CaptureStep) -> Seq<char> {
    match step {
        CaptureStep::ReadWidth => "Failed to get width"@,
        CaptureStep::WidthValue => "Invalid width"@,
        CaptureStep::ReadHeight => "Failed to get height"@,
        CaptureStep::HeightValue => "Invalid height"@,
        CaptureStep::FindBitmapClass => "Failed to find Bitmap class"@,
        CaptureStep::FindConfigClass => "Failed to find Bitmap.Config class"@,
        CaptureStep::ReadArgb8888 => "Failed to get ARGB_8888"@,
        CaptureStep::Argb8888Value => "Invalid ARGB_8888"@,
        CaptureStep::CreateBitmap => "Failed to create Bitmap"@,
        CaptureStep::BitmapValue => "Invalid Bitmap"@,
        CaptureStep::FindCanvasClass => "Failed to find Canvas class"@,
        CaptureStep::CreateCanvas => "Failed to create Canvas"@,
        CaptureStep::DrawWebView => "Failed to draw WebView"@,
        CaptureStep::FindStreamClass => "Failed to find ByteArrayOutputStream class"@,
        CaptureStep::CreateStream => "Failed to create ByteArrayOutputStream"@,
        CaptureStep::FindFormatClass => "Failed to find CompressFormat class"@,
        CaptureStep::ReadPngFormat => "Failed to get PNG format"@,
        CaptureStep::PngFormatValue => "Invalid PNG format"@,
        CaptureStep::CompressBitmap => "Failed to compress Bitmap"@,
        CaptureStep::ReadByteArray => "Failed to get byte array"@,
        CaptureStep::ByteArrayValue => "Invalid byte array"@,
        CaptureStep::ReadArrayLength => "Failed to get array length"@,
        CaptureStep::CopyByteArray => "Failed to copy byte array"@,
    }
}

impl CaptureStep {
    /// What the step was about, for the reason of its failure.
    pub fn context(self) -> (text: &'static str)
        ensures
            text@ == step_context(self),
    {
        match self {
            CaptureStep::ReadWidth => "Failed to get width",
            CaptureStep::WidthValue => "Invalid width",
            CaptureStep::ReadHeight => "Failed to get height",
            CaptureStep::HeightValue => "Invalid height",
            CaptureStep::FindBitmapClass => "Failed to find Bitmap class",
            CaptureStep::FindConfigClass => "Failed to find Bitmap.Config class",
            CaptureStep::ReadArgb8888 => "Failed to get ARGB_8888",
            CaptureStep::Argb8888Value => "Invalid ARGB_8888",
            CaptureStep::CreateBitmap => "Failed to create Bitmap",
            CaptureStep::BitmapValue => "Invalid Bitmap",
            CaptureStep::FindCanvasClass => "Failed to find Canvas class",
            CaptureStep::CreateCanvas => "Failed to create Canvas",
            CaptureStep::DrawWebView => "Failed to draw WebView",
            CaptureStep::FindStreamClass => "Failed to find ByteArrayOutputStream class",
            CaptureStep::CreateStream => "Failed to create ByteArrayOutputStream",
            CaptureStep::FindFormatClass => "Failed to find CompressFormat class",
            CaptureStep::ReadPngFormat => "Failed to get PNG format",
            CaptureStep::PngFormatValue => "Invalid PNG format",
            CaptureStep::CompressBitmap => "Failed to compress Bitmap",
            CaptureStep::ReadByteArray => "Failed to get byte array",
            CaptureStep::ByteArrayValue => "Invalid byte array",
            CaptureStep::ReadArrayLength => "Failed to get array length",
            CaptureStep::CopyByteArray => "Failed to copy byte array",
        }
    }
}

/// Whether `error` is the failure of `step`, for some cause.
pub open spec fn is_step_failure(error: ScreenshotErrorSpec, step: CaptureStep) -> bool {
    exists|cause: Seq<char>|
        error == ScreenshotErrorSpec::CaptureFailed(
            #[trigger] failure_text(step_context(step), cause),
        )
}

/// Whether `error` says that a web-view of these dimensions has no area.
pub open spec fn is_dimension_failure(error: ScreenshotErrorSpec, width: i32, height: i32) -> bool {
    &&& width <= 0 || height <= 0
    &&& error == ScreenshotErrorSpec::CaptureFailed(
        invalid_dimensions_text(width as int, height as int),
    )
}

/// Whether `error` is one that a capture on the UI thread can end with: the
/// failure of one of its steps, or a web-view without area.
pub open spec fn is_frame_failure(error: ScreenshotErrorSpec) -> bool {
    ||| exists|step: CaptureStep| #[trigger] is_step_failure(error, step)
    ||| exists|width: i32, height: i32| #[trigger] is_dimension_failure(error, width, height)
}

/// The failure of `step` for `cause`.
pub fn step_failed(step: CaptureStep, cause: &str) -> (error: ScreenshotError)
    ensures
        error@ == ScreenshotErrorSpec::CaptureFailed(failure_text(step_context(step), cause@)),
        is_step_failure(error@, step),
        is_frame_failure(error@),
{
    let error = capture_failed(step.context(), cause);
    assert(is_step_failure(error@, step)) by {
        assert(error@ == ScreenshotErrorSpec::CaptureFailed(
            failure_text(step_context(step), cause@),
        ));
    }
    error
}

/// Whether `error` is the failure of `step` with the text of `failure` as
/// its cause.
pub open spec fn is_failure_from(
    error: ScreenshotErrorSpec,
    step: CaptureStep,
    failure: jni::errors::Error,
) -> bool {
    exists|cause: String|
        #![trigger vstd::string::to_string_from_display_ensures::<jni::errors::Error>(&failure, cause)]
        {
            &&& vstd::string::to_string_from_display_ensures::<jni::errors::Error>(&failure, cause)
            &&& error == ScreenshotErrorSpec::CaptureFailed(
                failure_text(step_context(step), cause@),
            )
        }
}

/// Lets what a Java call returned through, and turns its error into the
/// failure of `step`, with the text of the error as the cause.
pub fn checked<T>(returned: Result<T, jni::errors::Error>, step: CaptureStep) -> (outcome: Result<
    T,
    ScreenshotError,
>)
    ensures
        match returned {
            Ok(value) => outcome == Ok::<T, ScreenshotError>(value),
            Err(failure) => outcome matches Err(error) && is_failure_from(error@, step, failure)
                && is_step_failure(error@, step) && is_frame_failure(error@),
        },
{
    match returned {
        Ok(value) => Ok(value),
        Err(failure) => {
            let cause = failure.to_string();
            let error = step_failed(step, cause.as_str());
            assert(is_failure_from(error@, step, failure)) by {
                assert(vstd::string::to_string_from_display_ensures::<jni::errors::Error>(
                    &failure,
                    cause,
                ));
            }
            Err(error)
        },
    }
}

/// Accepts the dimensions of a web-view where both are positive.
fn checked_dimensions(width: i32, height: i32) -> (outcome: Result<(), ScreenshotError>)
    ensures
        outcome is Ok <==> (width > 0 && height > 0),
        outcome matches Err(error) ==> is_frame_failure(error@),
{
    let outcome = check_dimensions(width, height);
    proof {
        if outcome is Err {
            assert(is_dimension_failure(outcome->Err_0@, width, height));
        }
    }
    outcome
}

/// The cause given where Java reports an array of negative length.
pub open spec fn negative_length_text() -> Seq<char> {
    "negative length"@
}

/// The size of the buffer for a Java array of the length `length`: the
/// length itself, or the failure of the step where Java reports a negative
/// one.
pub fn buffer_length(length: i32) -> (outcome: Result<usize, ScreenshotError>)
    ensures
        match outcome {
            Ok(size) => length >= 0 && size == length,
            Err(error) => length < 0 && error@ == ScreenshotErrorSpec::CaptureFailed(
                failure_text(step_context(CaptureStep::ReadArrayLength), negative_length_text()),
            ) && is_frame_failure(error@),
        },
{
    if length < 0 {
        Err(step_failed(CaptureStep::ReadArrayLength, "negative length"))
    } else {
        Ok(length as usize)
    }
}

/// Ends a capture whose bytes are out: the screenshot holds the bytes,
/// whether or not the bitmap could be released.
pub fn finish_capture<T>(data: Vec<u8>, released: Result<T, jni::errors::Error>) -> (outcome: Result<
    Screenshot,
    ScreenshotError,
>)
    ensures
        outcome matches Ok(screenshot) && screenshot.data == data,
{
    let _ = released;
    Ok(Screenshot { data })
}

/// Reads the dimensions of `webview`, in pixels, and accepts them where
/// both are positive.
pub fn read_dimensions<'local>(
    env: &mut jni::JNIEnv<'local>,
    webview: &jni::objects::JObject<'_>,
) -> (outcome: Result<(i32, i32), ScreenshotError>)
    ensures
        match outcome {
            Ok((width, height)) => width > 0 && height > 0,
            Err(error) => is_frame_failure(error@),
        },
{
    let no_args: Vec<CallArg<'_, '_>> = Vec::new();
    let width_value = checked(
        call_method(
            env,
            webview,
            JavaCall::GetWidth.name(),
            JavaCall::GetWidth.signature(),
            &no_args,
        ),
        CaptureStep::ReadWidth,
    )?;
    let width = checked(int_value(width_value), CaptureStep::WidthValue)?;
    let height_value = checked(
        call_method(
            env,
            webview,
            JavaCall::GetHeight.name(),
            JavaCall::GetHeight.signature(),
            &no_args,
        ),
        CaptureStep::ReadHeight,
    )?;
    let height = checked(int_value(height_value), CaptureStep::HeightValue)?;
    checked_dimensions(width, height)?;
    Ok((width, height))
}

/// Draws `webview` into a new bitmap of the given size, with four bytes
/// to the pixel, and hands the bitmap out.
fn draw_into_bitmap<'local>(
    env: &mut jni::JNIEnv<'local>,
    webview: &jni::objects::JObject<'_>,
    width: i32,
    height: i32,
) -> (outcome: Result<jni::objects::JObject<'local>, ScreenshotError>)
    requires
        width > 0,
        height > 0,
    ensures
        outcome matches Err(error) ==> is_frame_failure(error@),
{
    let bitmap_class = checked(
        find_class(env, JavaClass::Bitmap.name()),
        CaptureStep::FindBitmapClass,
    )?;
    let config_class = checked(
        find_class(env, JavaClass::BitmapConfig.name()),
        CaptureStep::FindConfigClass,
    )?;
    let argb_value = checked(
        get_static_field(
            env,
            &config_class,
            JavaCall::Argb8888.name(),
            JavaCall::Argb8888.signature(),
        ),
        CaptureStep::ReadArgb8888,
    )?;
    let argb_8888 = checked(object_value(argb_value), CaptureStep::Argb8888Value)?;
    let create_args = bitmap_args(width, height, &argb_8888);
    let bitmap_value = checked(
        call_static_method(
            env,
            &bitmap_class,
            JavaCall::CreateBitmap.name(),
            JavaCall::CreateBitmap.signature(),
            &create_args,
        ),
        CaptureStep::CreateBitmap,
    )?;
    let bitmap = checked(object_value(bitmap_value), CaptureStep::BitmapValue)?;

    let canvas_class = checked(
        find_class(env, JavaClass::Canvas.name()),
        CaptureStep::FindCanvasClass,
    )?;
    let canvas_args = object_arg(&bitmap);
    let canvas = checked(
        new_object(env, &canvas_class, JavaCall::NewCanvas.signature(), &canvas_args),
        CaptureStep::CreateCanvas,
    )?;
    let draw_args = object_arg(&canvas);
    checked(
        call_method(env, webview, JavaCall::Draw.name(), JavaCall::Draw.signature(), &draw_args),
        CaptureStep::DrawWebView,
    )?;
    Ok(bitmap)
}

/// Compresses `bitmap` to PNG and copies the bytes out of Java.
fn compress_to_png<'local>(
    env: &mut jni::JNIEnv<'local>,
    bitmap: &jni::objects::JObject<'_>,
) -> (outcome: Result<Vec<u8>, ScreenshotError>)
    ensures
        outcome matches Err(error) ==> is_frame_failure(error@),
{
    let no_args: Vec<CallArg<'_, '_>> = Vec::new();
    let stream_class = checked(
        find_class(env, JavaClass::ByteArrayOutputStream.name()),
        CaptureStep::FindStreamClass,
    )?;
    let stream = checked(
        new_object(env, &stream_class, JavaCall::NewStream.signature(), &no_args),
        CaptureStep::CreateStream,
    )?;
    let format_class = checked(
        find_class(env, JavaClass::CompressFormat.name()),
        CaptureStep::FindFormatClass,
    )?;
    let png_value = checked(
        get_static_field(
            env,
            &format_class,
            JavaCall::PngFormat.name(),
            JavaCall::PngFormat.signature(),
        ),
        CaptureStep::ReadPngFormat,
    )?;
    let png_format = checked(object_value(png_value), CaptureStep::PngFormatValue)?;
    let png_args = compress_args(&png_format, &stream);
    checked(
        call_method(
            env,
            bitmap,
            JavaCall::Compress.name(),
            JavaCall::Compress.signature(),
            &png_args,
        ),
        CaptureStep::CompressBitmap,
    )?;

    let array_value = checked(
        call_method(
            env,
            &stream,
            JavaCall::ToByteArray.name(),
            JavaCall::ToByteArray.signature(),
            &no_args,
        ),
        CaptureStep::ReadByteArray,
    )?;
    let byte_array = checked(object_value(array_value), CaptureStep::ByteArrayValue)?;
    let length = checked(byte_array_length(env, &byte_array), CaptureStep::ReadArrayLength)?;
    let size = buffer_length(length)?;
    let mut signed: Vec<i8> = vec![0i8; size];
    checked(copy_byte_array(env, &byte_array, 0, &mut signed), CaptureStep::CopyByteArray)?;
    Ok(unsigned_bytes(&signed))
}

/// Captures what `webview` shows, on the UI thread: reads its dimensions,
/// draws it into a bitmap of that size, compresses the bitmap to PNG and
/// copies the bytes out. The first step that fails ends the capture with
/// `CaptureFailed`, and so does a web-view without area. Once the bytes are
/// out the bitmap is recycled, and the capture has succeeded whether or not
/// that did.
pub fn capture_frame<'local>(
    env: &mut jni::JNIEnv<'local>,
    webview: &jni::objects::JObject<'_>,
) -> (outcome: Result<Screenshot, ScreenshotError>)
    ensures
        outcome matches Err(error) ==> is_frame_failure(error@),
{
    let (width, height) = read_dimensions(env, webview)?;
    let bitmap = draw_into_bitmap(env, webview, width, height)?;
    let data = compress_to_png(env, &bitmap)?;

    let no_args: Vec<CallArg<'_, '_>> = Vec::new();
    let released = call_method(
        env,
        &bitmap,
        JavaCall::Recycle.name(),
        JavaCall::Recycle.signature(),
        &no_args,
    );
    finish_capture(data, released)
}

} // verus!
