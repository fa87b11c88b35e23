//! A batch walked end to end at the library level: a 64x64 scene exported
//! as PNG and JPEG with no explicit background. Rasterization is stood in
//! for by the canvas staying at its background fill, as it does wherever
//! the scene leaves the canvas uncovered.

use svg2raster::convert::unpremultiply_rgb;
use svg2raster::formats::Format;
use svg2raster::geometry::Dimensions;
use svg2raster::geometry::resolve_dimensions;
use svg2raster::plan::PixelLayout;
use svg2raster::plan::exit_code;
use svg2raster::plan::plan_tasks;
use svg2raster::plan::TaskResult;

fn filled_canvas(width: u32, height: u32, c: svg2raster::color::Color) -> Vec<u8> {
    let mut buf = Vec::new();
    for _ in 0..width * height {
        buf.push(c.r);
        buf.push(c.g);
        buf.push(c.b);
        buf.push(c.a);
    }
    buf
}

#[test]
fn png_and_jpeg_export_of_a_64_by_64_scene() {
    let dims = resolve_dimensions(64, 64, None, None, 1000).unwrap();
    assert_eq!(dims, Dimensions { width: 64, height: 64 });

    let tasks = plan_tasks(
        &vec![Format::Png, Format::Jpeg],
        &String::from("scene"),
        None,
    );
    assert_eq!(tasks.len(), 2);

    // PNG: alpha-capable, so the canvas keeps four bytes per pixel and the
    // uncovered background stays fully transparent.
    assert_eq!(tasks[0].layout, PixelLayout::Rgba8);
    let png_canvas = filled_canvas(dims.width, dims.height, tasks[0].background);
    assert_eq!(png_canvas.len(), 64 * 64 * 4);
    assert!(png_canvas.chunks(4).all(|px| px == [0, 0, 0, 0]));

    // JPEG: no alpha channel, so the white background is unpremultiplied
    // into three bytes per pixel of solid white.
    assert_eq!(tasks[1].layout, PixelLayout::Rgb8);
    let jpeg_canvas = filled_canvas(dims.width, dims.height, tasks[1].background);
    let jpeg_buf = unpremultiply_rgb(&jpeg_canvas);
    assert_eq!(jpeg_buf.len(), 64 * 64 * 3);
    assert!(jpeg_buf.iter().all(|&b| b == 255));

    // Whatever each encoder later reports, the batch exits cleanly.
    let results = vec![
        TaskResult { task_id: 0, format: Format::Png, elapsed_millis: 4, error: None },
        TaskResult { task_id: 1, format: Format::Jpeg, elapsed_millis: 4, error: None },
    ];
    assert_eq!(exit_code(&results), 0);
}
