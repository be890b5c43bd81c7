//! The capture sequence run against a desktop Java VM. The Android classes
//! that the sequence calls are stood in for by small classes of the same
//! names, which keep the pixels in a `BufferedImage` and write PNG through
//! `ImageIO`; their class files are held below as bytes and defined in the
//! VM before the sequence runs. One VM serves all the scenarios, which is
//! why they run in a row in a single test.

use jni::objects::{JObject, JValue};
use jni::{InitArgsBuilder, JNIEnv, JNIVersion, JavaVM};
use mcp_bridge::android::{capture_frame, read_dimensions};
use mcp_bridge::capture::ScreenshotError;

// android/webkit/WebView.java
//
// package android.webkit;
//
// import android.graphics.Canvas;
//
// public final class WebView {
//     private final int width;
//     private final int height;
//     private final boolean broken;
//
//     public WebView(int width, int height, boolean broken) {
//         this.width = width;
//         this.height = height;
//         this.broken = broken;
//     }
//
//     public int getWidth() {
//         return width;
//     }
//
//     public int getHeight() {
//         return height;
//     }
//
//     public void draw(Canvas canvas) {
//         if (broken) {
//             throw new IllegalStateException("renderer gone");
//         }
//         canvas.fill(0xff3366cc);
//     }
// }

// android/graphics/Bitmap.java
//
// package android.graphics;
//
// import java.awt.image.BufferedImage;
// import java.io.IOException;
// import java.io.OutputStream;
// import javax.imageio.ImageIO;
//
// public final class Bitmap {
//     public static final class Config {
//         public static final Config ARGB_8888 = new Config();
//     }
//
//     public static final class CompressFormat {
//         public static final CompressFormat PNG = new CompressFormat();
//     }
//
//     public static int recycled = 0;
//
//     final BufferedImage image;
//
//     private Bitmap(int width, int height) {
//         image = new BufferedImage(width, height, BufferedImage.TYPE_INT_ARGB);
//     }
//
//     public static Bitmap createBitmap(int width, int height, Config config) {
//         return new Bitmap(width, height);
//     }
//
//     public boolean compress(CompressFormat format, int quality, OutputStream stream) throws IOException {
//         return ImageIO.write(image, "png", stream);
//     }
//
//     public void recycle() {
//         recycled = recycled + 1;
//     }
// }

// android/graphics/Canvas.java
//
// package android.graphics;
//
// public final class Canvas {
//     final Bitmap bitmap;
//
//     public Canvas(Bitmap bitmap) {
//         this.bitmap = bitmap;
//     }
//
//     public void fill(int argb) {
//         for (int y = 0; y < bitmap.image.getHeight(); y++) {
//             for (int x = 0; x < bitmap.image.getWidth(); x++) {
//                 bitmap.image.setRGB(x, y, argb);
//             }
//         }
//     }
// }

const WEB_VIEW_CLASS: [u8; 601] = [
    202, 254, 186, 190, 0, 0, 0, 52, 0, 42, 10, 0, 2, 0, 3, 7, 0, 4, 12, 0, 5, 0, 6, 1, 0, 16,
    106, 97, 118, 97, 47, 108, 97, 110, 103, 47, 79, 98, 106, 101, 99, 116, 1, 0, 6, 60, 105, 110,
    105, 116, 62, 1, 0, 3, 40, 41, 86, 9, 0, 8, 0, 9, 7, 0, 10, 12, 0, 11, 0, 12, 1, 0, 22, 97,
    110, 100, 114, 111, 105, 100, 47, 119, 101, 98, 107, 105, 116, 47, 87, 101, 98, 86, 105, 101,
    119, 1, 0, 5, 119, 105, 100, 116, 104, 1, 0, 1, 73, 9, 0, 8, 0, 14, 12, 0, 15, 0, 12, 1, 0, 6,
    104, 101, 105, 103, 104, 116, 9, 0, 8, 0, 17, 12, 0, 18, 0, 19, 1, 0, 6, 98, 114, 111, 107,
    101, 110, 1, 0, 1, 90, 7, 0, 21, 1, 0, 31, 106, 97, 118, 97, 47, 108, 97, 110, 103, 47, 73,
    108, 108, 101, 103, 97, 108, 83, 116, 97, 116, 101, 69, 120, 99, 101, 112, 116, 105, 111, 110,
    8, 0, 23, 1, 0, 13, 114, 101, 110, 100, 101, 114, 101, 114, 32, 103, 111, 110, 101, 10, 0, 20,
    0, 25, 12, 0, 5, 0, 26, 1, 0, 21, 40, 76, 106, 97, 118, 97, 47, 108, 97, 110, 103, 47, 83,
    116, 114, 105, 110, 103, 59, 41, 86, 3, 255, 51, 102, 204, 10, 0, 29, 0, 30, 7, 0, 31, 12, 0,
    32, 0, 33, 1, 0, 23, 97, 110, 100, 114, 111, 105, 100, 47, 103, 114, 97, 112, 104, 105, 99,
    115, 47, 67, 97, 110, 118, 97, 115, 1, 0, 4, 102, 105, 108, 108, 1, 0, 4, 40, 73, 41, 86, 1,
    0, 6, 40, 73, 73, 90, 41, 86, 1, 0, 4, 67, 111, 100, 101, 1, 0, 8, 103, 101, 116, 87, 105,
    100, 116, 104, 1, 0, 3, 40, 41, 73, 1, 0, 9, 103, 101, 116, 72, 101, 105, 103, 104, 116, 1, 0,
    4, 100, 114, 97, 119, 1, 0, 28, 40, 76, 97, 110, 100, 114, 111, 105, 100, 47, 103, 114, 97,
    112, 104, 105, 99, 115, 47, 67, 97, 110, 118, 97, 115, 59, 41, 86, 1, 0, 13, 83, 116, 97, 99,
    107, 77, 97, 112, 84, 97, 98, 108, 101, 0, 49, 0, 8, 0, 2, 0, 0, 0, 3, 0, 18, 0, 11, 0, 12, 0,
    0, 0, 18, 0, 15, 0, 12, 0, 0, 0, 18, 0, 18, 0, 19, 0, 0, 0, 4, 0, 1, 0, 5, 0, 34, 0, 1, 0, 35,
    0, 0, 0, 32, 0, 2, 0, 4, 0, 0, 0, 20, 42, 183, 0, 1, 42, 27, 181, 0, 7, 42, 28, 181, 0, 13,
    42, 29, 181, 0, 16, 177, 0, 0, 0, 0, 0, 1, 0, 36, 0, 37, 0, 1, 0, 35, 0, 0, 0, 17, 0, 1, 0, 1,
    0, 0, 0, 5, 42, 180, 0, 7, 172, 0, 0, 0, 0, 0, 1, 0, 38, 0, 37, 0, 1, 0, 35, 0, 0, 0, 17, 0,
    1, 0, 1, 0, 0, 0, 5, 42, 180, 0, 13, 172, 0, 0, 0, 0, 0, 1, 0, 39, 0, 40, 0, 1, 0, 35, 0, 0,
    0, 45, 0, 3, 0, 2, 0, 0, 0, 24, 42, 180, 0, 16, 153, 0, 13, 187, 0, 20, 89, 18, 22, 183, 0,
    24, 191, 43, 18, 27, 182, 0, 28, 177, 0, 0, 0, 1, 0, 41, 0, 0, 0, 3, 0, 1, 17, 0, 0,
];

const BITMAP_CLASS: [u8; 957] = [
    202, 254, 186, 190, 0, 0, 0, 52, 0, 50, 10, 0, 2, 0, 3, 7, 0, 4, 12, 0, 5, 0, 6, 1, 0, 16,
    106, 97, 118, 97, 47, 108, 97, 110, 103, 47, 79, 98, 106, 101, 99, 116, 1, 0, 6, 60, 105, 110,
    105, 116, 62, 1, 0, 3, 40, 41, 86, 7, 0, 8, 1, 0, 28, 106, 97, 118, 97, 47, 97, 119, 116, 47,
    105, 109, 97, 103, 101, 47, 66, 117, 102, 102, 101, 114, 101, 100, 73, 109, 97, 103, 101, 10,
    0, 7, 0, 10, 12, 0, 5, 0, 11, 1, 0, 6, 40, 73, 73, 73, 41, 86, 9, 0, 13, 0, 14, 7, 0, 15, 12,
    0, 16, 0, 17, 1, 0, 23, 97, 110, 100, 114, 111, 105, 100, 47, 103, 114, 97, 112, 104, 105, 99,
    115, 47, 66, 105, 116, 109, 97, 112, 1, 0, 5, 105, 109, 97, 103, 101, 1, 0, 30, 76, 106, 97,
    118, 97, 47, 97, 119, 116, 47, 105, 109, 97, 103, 101, 47, 66, 117, 102, 102, 101, 114, 101,
    100, 73, 109, 97, 103, 101, 59, 10, 0, 13, 0, 19, 12, 0, 5, 0, 20, 1, 0, 5, 40, 73, 73, 41,
    86, 8, 0, 22, 1, 0, 3, 112, 110, 103, 10, 0, 24, 0, 25, 7, 0, 26, 12, 0, 27, 0, 28, 1, 0, 21,
    106, 97, 118, 97, 120, 47, 105, 109, 97, 103, 101, 105, 111, 47, 73, 109, 97, 103, 101, 73,
    79, 1, 0, 5, 119, 114, 105, 116, 101, 1, 0, 73, 40, 76, 106, 97, 118, 97, 47, 97, 119, 116,
    47, 105, 109, 97, 103, 101, 47, 82, 101, 110, 100, 101, 114, 101, 100, 73, 109, 97, 103, 101,
    59, 76, 106, 97, 118, 97, 47, 108, 97, 110, 103, 47, 83, 116, 114, 105, 110, 103, 59, 76, 106,
    97, 118, 97, 47, 105, 111, 47, 79, 117, 116, 112, 117, 116, 83, 116, 114, 101, 97, 109, 59,
    41, 90, 9, 0, 13, 0, 30, 12, 0, 31, 0, 32, 1, 0, 8, 114, 101, 99, 121, 99, 108, 101, 100, 1,
    0, 1, 73, 1, 0, 4, 67, 111, 100, 101, 1, 0, 12, 99, 114, 101, 97, 116, 101, 66, 105, 116, 109,
    97, 112, 1, 0, 61, 40, 73, 73, 76, 97, 110, 100, 114, 111, 105, 100, 47, 103, 114, 97, 112,
    104, 105, 99, 115, 47, 66, 105, 116, 109, 97, 112, 36, 67, 111, 110, 102, 105, 103, 59, 41,
    76, 97, 110, 100, 114, 111, 105, 100, 47, 103, 114, 97, 112, 104, 105, 99, 115, 47, 66, 105,
    116, 109, 97, 112, 59, 1, 0, 8, 99, 111, 109, 112, 114, 101, 115, 115, 1, 0, 66, 40, 76, 97,
    110, 100, 114, 111, 105, 100, 47, 103, 114, 97, 112, 104, 105, 99, 115, 47, 66, 105, 116, 109,
    97, 112, 36, 67, 111, 109, 112, 114, 101, 115, 115, 70, 111, 114, 109, 97, 116, 59, 73, 76,
    106, 97, 118, 97, 47, 105, 111, 47, 79, 117, 116, 112, 117, 116, 83, 116, 114, 101, 97, 109,
    59, 41, 90, 1, 0, 10, 69, 120, 99, 101, 112, 116, 105, 111, 110, 115, 7, 0, 40, 1, 0, 19, 106,
    97, 118, 97, 47, 105, 111, 47, 73, 79, 69, 120, 99, 101, 112, 116, 105, 111, 110, 1, 0, 7,
    114, 101, 99, 121, 99, 108, 101, 1, 0, 8, 60, 99, 108, 105, 110, 105, 116, 62, 1, 0, 12, 73,
    110, 110, 101, 114, 67, 108, 97, 115, 115, 101, 115, 7, 0, 45, 1, 0, 38, 97, 110, 100, 114,
    111, 105, 100, 47, 103, 114, 97, 112, 104, 105, 99, 115, 47, 66, 105, 116, 109, 97, 112, 36,
    67, 111, 109, 112, 114, 101, 115, 115, 70, 111, 114, 109, 97, 116, 1, 0, 14, 67, 111, 109,
    112, 114, 101, 115, 115, 70, 111, 114, 109, 97, 116, 7, 0, 48, 1, 0, 30, 97, 110, 100, 114,
    111, 105, 100, 47, 103, 114, 97, 112, 104, 105, 99, 115, 47, 66, 105, 116, 109, 97, 112, 36,
    67, 111, 110, 102, 105, 103, 1, 0, 6, 67, 111, 110, 102, 105, 103, 0, 49, 0, 13, 0, 2, 0, 0,
    0, 2, 0, 9, 0, 31, 0, 32, 0, 0, 0, 16, 0, 16, 0, 17, 0, 0, 0, 5, 0, 2, 0, 5, 0, 20, 0, 1, 0,
    33, 0, 0, 0, 31, 0, 6, 0, 3, 0, 0, 0, 19, 42, 183, 0, 1, 42, 187, 0, 7, 89, 27, 28, 5, 183, 0,
    9, 181, 0, 12, 177, 0, 0, 0, 0, 0, 9, 0, 34, 0, 35, 0, 1, 0, 33, 0, 0, 0, 22, 0, 4, 0, 3, 0,
    0, 0, 10, 187, 0, 13, 89, 26, 27, 183, 0, 18, 176, 0, 0, 0, 0, 0, 1, 0, 36, 0, 37, 0, 2, 0,
    33, 0, 0, 0, 23, 0, 3, 0, 4, 0, 0, 0, 11, 42, 180, 0, 12, 18, 21, 45, 184, 0, 23, 172, 0, 0,
    0, 0, 0, 38, 0, 0, 0, 4, 0, 1, 0, 39, 0, 1, 0, 41, 0, 6, 0, 1, 0, 33, 0, 0, 0, 21, 0, 2, 0, 1,
    0, 0, 0, 9, 178, 0, 29, 4, 96, 179, 0, 29, 177, 0, 0, 0, 0, 0, 8, 0, 42, 0, 6, 0, 1, 0, 33, 0,
    0, 0, 17, 0, 1, 0, 0, 0, 0, 0, 5, 3, 179, 0, 29, 177, 0, 0, 0, 0, 0, 1, 0, 43, 0, 0, 0, 18, 0,
    2, 0, 44, 0, 13, 0, 46, 0, 25, 0, 47, 0, 13, 0, 49, 0, 25,
];

const BITMAP_CONFIG_CLASS: [u8; 332] = [
    202, 254, 186, 190, 0, 0, 0, 52, 0, 20, 10, 0, 2, 0, 3, 7, 0, 4, 12, 0, 5, 0, 6, 1, 0, 16,
    106, 97, 118, 97, 47, 108, 97, 110, 103, 47, 79, 98, 106, 101, 99, 116, 1, 0, 6, 60, 105, 110,
    105, 116, 62, 1, 0, 3, 40, 41, 86, 7, 0, 8, 1, 0, 30, 97, 110, 100, 114, 111, 105, 100, 47,
    103, 114, 97, 112, 104, 105, 99, 115, 47, 66, 105, 116, 109, 97, 112, 36, 67, 111, 110, 102,
    105, 103, 10, 0, 7, 0, 3, 9, 0, 7, 0, 11, 12, 0, 12, 0, 13, 1, 0, 9, 65, 82, 71, 66, 95, 56,
    56, 56, 56, 1, 0, 32, 76, 97, 110, 100, 114, 111, 105, 100, 47, 103, 114, 97, 112, 104, 105,
    99, 115, 47, 66, 105, 116, 109, 97, 112, 36, 67, 111, 110, 102, 105, 103, 59, 1, 0, 4, 67,
    111, 100, 101, 1, 0, 8, 60, 99, 108, 105, 110, 105, 116, 62, 1, 0, 12, 73, 110, 110, 101, 114,
    67, 108, 97, 115, 115, 101, 115, 7, 0, 18, 1, 0, 23, 97, 110, 100, 114, 111, 105, 100, 47,
    103, 114, 97, 112, 104, 105, 99, 115, 47, 66, 105, 116, 109, 97, 112, 1, 0, 6, 67, 111, 110,
    102, 105, 103, 0, 49, 0, 7, 0, 2, 0, 0, 0, 1, 0, 25, 0, 12, 0, 13, 0, 0, 0, 2, 0, 1, 0, 5, 0,
    6, 0, 1, 0, 14, 0, 0, 0, 17, 0, 1, 0, 1, 0, 0, 0, 5, 42, 183, 0, 1, 177, 0, 0, 0, 0, 0, 8, 0,
    15, 0, 6, 0, 1, 0, 14, 0, 0, 0, 23, 0, 2, 0, 0, 0, 0, 0, 11, 187, 0, 7, 89, 183, 0, 9, 179, 0,
    10, 177, 0, 0, 0, 0, 0, 1, 0, 16, 0, 0, 0, 10, 0, 1, 0, 7, 0, 17, 0, 19, 0, 25,
];

const COMPRESS_FORMAT_CLASS: [u8; 350] = [
    202, 254, 186, 190, 0, 0, 0, 52, 0, 20, 10, 0, 2, 0, 3, 7, 0, 4, 12, 0, 5, 0, 6, 1, 0, 16,
    106, 97, 118, 97, 47, 108, 97, 110, 103, 47, 79, 98, 106, 101, 99, 116, 1, 0, 6, 60, 105, 110,
    105, 116, 62, 1, 0, 3, 40, 41, 86, 7, 0, 8, 1, 0, 38, 97, 110, 100, 114, 111, 105, 100, 47,
    103, 114, 97, 112, 104, 105, 99, 115, 47, 66, 105, 116, 109, 97, 112, 36, 67, 111, 109, 112,
    114, 101, 115, 115, 70, 111, 114, 109, 97, 116, 10, 0, 7, 0, 3, 9, 0, 7, 0, 11, 12, 0, 12, 0,
    13, 1, 0, 3, 80, 78, 71, 1, 0, 40, 76, 97, 110, 100, 114, 111, 105, 100, 47, 103, 114, 97,
    112, 104, 105, 99, 115, 47, 66, 105, 116, 109, 97, 112, 36, 67, 111, 109, 112, 114, 101, 115,
    115, 70, 111, 114, 109, 97, 116, 59, 1, 0, 4, 67, 111, 100, 101, 1, 0, 8, 60, 99, 108, 105,
    110, 105, 116, 62, 1, 0, 12, 73, 110, 110, 101, 114, 67, 108, 97, 115, 115, 101, 115, 7, 0,
    18, 1, 0, 23, 97, 110, 100, 114, 111, 105, 100, 47, 103, 114, 97, 112, 104, 105, 99, 115, 47,
    66, 105, 116, 109, 97, 112, 1, 0, 14, 67, 111, 109, 112, 114, 101, 115, 115, 70, 111, 114,
    109, 97, 116, 0, 49, 0, 7, 0, 2, 0, 0, 0, 1, 0, 25, 0, 12, 0, 13, 0, 0, 0, 2, 0, 1, 0, 5, 0,
    6, 0, 1, 0, 14, 0, 0, 0, 17, 0, 1, 0, 1, 0, 0, 0, 5, 42, 183, 0, 1, 177, 0, 0, 0, 0, 0, 8, 0,
    15, 0, 6, 0, 1, 0, 14, 0, 0, 0, 23, 0, 2, 0, 0, 0, 0, 0, 11, 187, 0, 7, 89, 183, 0, 9, 179, 0,
    10, 177, 0, 0, 0, 0, 0, 1, 0, 16, 0, 0, 0, 10, 0, 1, 0, 7, 0, 17, 0, 19, 0, 25,
];

const CANVAS_CLASS: [u8; 556] = [
    202, 254, 186, 190, 0, 0, 0, 52, 0, 37, 10, 0, 2, 0, 3, 7, 0, 4, 12, 0, 5, 0, 6, 1, 0, 16,
    106, 97, 118, 97, 47, 108, 97, 110, 103, 47, 79, 98, 106, 101, 99, 116, 1, 0, 6, 60, 105, 110,
    105, 116, 62, 1, 0, 3, 40, 41, 86, 9, 0, 8, 0, 9, 7, 0, 10, 12, 0, 11, 0, 12, 1, 0, 23, 97,
    110, 100, 114, 111, 105, 100, 47, 103, 114, 97, 112, 104, 105, 99, 115, 47, 67, 97, 110, 118,
    97, 115, 1, 0, 6, 98, 105, 116, 109, 97, 112, 1, 0, 25, 76, 97, 110, 100, 114, 111, 105, 100,
    47, 103, 114, 97, 112, 104, 105, 99, 115, 47, 66, 105, 116, 109, 97, 112, 59, 9, 0, 14, 0, 15,
    7, 0, 16, 12, 0, 17, 0, 18, 1, 0, 23, 97, 110, 100, 114, 111, 105, 100, 47, 103, 114, 97, 112,
    104, 105, 99, 115, 47, 66, 105, 116, 109, 97, 112, 1, 0, 5, 105, 109, 97, 103, 101, 1, 0, 30,
    76, 106, 97, 118, 97, 47, 97, 119, 116, 47, 105, 109, 97, 103, 101, 47, 66, 117, 102, 102,
    101, 114, 101, 100, 73, 109, 97, 103, 101, 59, 10, 0, 20, 0, 21, 7, 0, 22, 12, 0, 23, 0, 24,
    1, 0, 28, 106, 97, 118, 97, 47, 97, 119, 116, 47, 105, 109, 97, 103, 101, 47, 66, 117, 102,
    102, 101, 114, 101, 100, 73, 109, 97, 103, 101, 1, 0, 9, 103, 101, 116, 72, 101, 105, 103,
    104, 116, 1, 0, 3, 40, 41, 73, 10, 0, 20, 0, 26, 12, 0, 27, 0, 24, 1, 0, 8, 103, 101, 116, 87,
    105, 100, 116, 104, 10, 0, 20, 0, 29, 12, 0, 30, 0, 31, 1, 0, 6, 115, 101, 116, 82, 71, 66, 1,
    0, 6, 40, 73, 73, 73, 41, 86, 1, 0, 28, 40, 76, 97, 110, 100, 114, 111, 105, 100, 47, 103,
    114, 97, 112, 104, 105, 99, 115, 47, 66, 105, 116, 109, 97, 112, 59, 41, 86, 1, 0, 4, 67, 111,
    100, 101, 1, 0, 4, 102, 105, 108, 108, 1, 0, 4, 40, 73, 41, 86, 1, 0, 13, 83, 116, 97, 99,
    107, 77, 97, 112, 84, 97, 98, 108, 101, 0, 49, 0, 8, 0, 2, 0, 0, 0, 1, 0, 16, 0, 11, 0, 12, 0,
    0, 0, 2, 0, 1, 0, 5, 0, 32, 0, 1, 0, 33, 0, 0, 0, 22, 0, 2, 0, 2, 0, 0, 0, 10, 42, 183, 0, 1,
    42, 43, 181, 0, 7, 177, 0, 0, 0, 0, 0, 1, 0, 34, 0, 35, 0, 1, 0, 33, 0, 0, 0, 92, 0, 4, 0, 4,
    0, 0, 0, 58, 3, 61, 28, 42, 180, 0, 7, 180, 0, 13, 182, 0, 19, 162, 0, 44, 3, 62, 29, 42, 180,
    0, 7, 180, 0, 13, 182, 0, 25, 162, 0, 22, 42, 180, 0, 7, 180, 0, 13, 29, 28, 27, 182, 0, 28,
    132, 3, 1, 167, 255, 226, 132, 2, 1, 167, 255, 204, 177, 0, 0, 0, 1, 0, 36, 0, 0, 0, 16, 0, 4,
    252, 0, 2, 1, 252, 0, 15, 1, 250, 0, 32, 250, 0, 5, 0, 0,
];

const PNG_SIGNATURE: [u8; 8] = [0x89, 0x50, 0x4e, 0x47, 0x0d, 0x0a, 0x1a, 0x0a];

fn start_vm() -> JavaVM {
    let args = InitArgsBuilder::new()
        .version(JNIVersion::V8)
        .option("-Djava.awt.headless=true")
        .build()
        .unwrap();
    JavaVM::new(args).unwrap()
}

fn define_stand_ins(env: &mut JNIEnv) {
    let loader = env
        .call_static_method(
            "java/lang/ClassLoader",
            "getSystemClassLoader",
            "()Ljava/lang/ClassLoader;",
            &[],
        )
        .unwrap()
        .l()
        .unwrap();
    env.define_class("android/graphics/Bitmap$Config", &loader, &BITMAP_CONFIG_CLASS).unwrap();
    env.define_class("android/graphics/Bitmap$CompressFormat", &loader, &COMPRESS_FORMAT_CLASS)
        .unwrap();
    env.define_class("android/graphics/Bitmap", &loader, &BITMAP_CLASS).unwrap();
    env.define_class("android/graphics/Canvas", &loader, &CANVAS_CLASS).unwrap();
    env.define_class("android/webkit/WebView", &loader, &WEB_VIEW_CLASS).unwrap();
}

fn web_view<'local>(
    env: &mut JNIEnv<'local>,
    width: i32,
    height: i32,
    broken: bool,
) -> JObject<'local> {
    env.new_object(
        "android/webkit/WebView",
        "(IIZ)V",
        &[JValue::Int(width), JValue::Int(height), JValue::Bool(broken as u8)],
    )
    .unwrap()
}

fn recycled_bitmaps(env: &mut JNIEnv) -> i32 {
    env.get_static_field("android/graphics/Bitmap", "recycled", "I").unwrap().i().unwrap()
}

fn failure_of(outcome: Result<mcp_bridge::capture::Screenshot, ScreenshotError>) -> String {
    match outcome {
        Err(ScreenshotError::CaptureFailed(reason)) => reason,
        Err(other) => panic!("the capture failed otherwise: {other:?}"),
        Ok(_) => panic!("the capture succeeded"),
    }
}

fn big_endian(bytes: &[u8]) -> u32 {
    bytes.iter().fold(0, |number, byte| number * 256 + *byte as u32)
}

fn object_without_dimensions_fails_at_the_first_step(env: &mut JNIEnv) {
    let plain = env.new_object("java/lang/Object", "()V", &[]).unwrap();
    let reason = failure_of(capture_frame(env, &plain));
    assert_eq!(reason, "Failed to get width: Java exception was thrown");
    env.exception_clear().unwrap();
}

fn dimensions_are_read_from_the_object(env: &mut JNIEnv) {
    let image = env
        .new_object(
            "java/awt/image/BufferedImage",
            "(III)V",
            &[JValue::Int(1080), JValue::Int(1920), JValue::Int(2)],
        )
        .unwrap();
    match read_dimensions(env, &image) {
        Ok((width, height)) => {
            assert_eq!(width, 1080);
            assert_eq!(height, 1920);
        }
        Err(error) => panic!("the dimensions can be read: {error:?}"),
    }
}

fn missing_bitmap_class_fails_the_capture(env: &mut JNIEnv) {
    let image = env
        .new_object(
            "java/awt/image/BufferedImage",
            "(III)V",
            &[JValue::Int(4), JValue::Int(4), JValue::Int(2)],
        )
        .unwrap();
    let reason = failure_of(capture_frame(env, &image));
    assert_eq!(reason, "Failed to find Bitmap class: Java exception was thrown");
    env.exception_clear().unwrap();
}

fn web_view_without_area_is_not_drawn(env: &mut JNIEnv) {
    for (width, height, expected) in [
        (0, 5, "Invalid WebView dimensions: 0x5"),
        (4, -3, "Invalid WebView dimensions: 4x-3"),
        (0, 0, "Invalid WebView dimensions: 0x0"),
    ] {
        let view = web_view(env, width, height, false);
        assert_eq!(failure_of(capture_frame(env, &view)), expected);
        match read_dimensions(env, &view) {
            Err(ScreenshotError::CaptureFailed(reason)) => assert_eq!(reason, expected),
            _ => panic!("a web-view without area has no dimensions to draw with"),
        }
    }
    assert_eq!(recycled_bitmaps(env), 0);
}

fn failing_draw_fails_the_capture(env: &mut JNIEnv) {
    let view = web_view(env, 3, 2, true);
    let reason = failure_of(capture_frame(env, &view));
    assert_eq!(reason, "Failed to draw WebView: Java exception was thrown");
    env.exception_clear().unwrap();
    assert_eq!(recycled_bitmaps(env), 0);
}

fn web_view_is_captured_as_png(env: &mut JNIEnv, width: i32, height: i32) {
    let before = recycled_bitmaps(env);
    let view = web_view(env, width, height, false);
    let data = match capture_frame(env, &view) {
        Ok(screenshot) => screenshot.data,
        Err(error) => panic!("the web-view can be captured: {error:?}"),
    };
    assert!(data.len() > 8 + 25 + 12);
    assert_eq!(data[..8], PNG_SIGNATURE);
    assert_eq!(big_endian(&data[8..12]), 13);
    assert_eq!(data[12..16], [0x49, 0x48, 0x44, 0x52]);
    assert_eq!(big_endian(&data[16..20]), width as u32);
    assert_eq!(big_endian(&data[20..24]), height as u32);
    assert_eq!(data[24], 8);
    assert_eq!(data[25], 6);
    assert_eq!(data[data.len() - 8..data.len() - 4], [0x49, 0x45, 0x4e, 0x44]);
    assert_eq!(data[data.len() - 4..], [0xae, 0x42, 0x60, 0x82]);
    assert_eq!(recycled_bitmaps(env), before + 1);
}

#[test]
fn capture_runs_against_a_java_vm() {
    let vm = start_vm();
    let mut guard = vm.attach_current_thread().unwrap();
    let env: &mut JNIEnv = &mut guard;

    object_without_dimensions_fails_at_the_first_step(env);
    dimensions_are_read_from_the_object(env);
    missing_bitmap_class_fails_the_capture(env);

    define_stand_ins(env);

    web_view_without_area_is_not_drawn(env);
    failing_draw_fails_the_capture(env);
    web_view_is_captured_as_png(env, 3, 2);
    web_view_is_captured_as_png(env, 64, 48);
    web_view_is_captured_as_png(env, 1, 1);
}
