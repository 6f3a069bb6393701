use mandelbrot::application::Application;
use num::Complex;

/// The escape count of a point as the viewer's caller computes it: the whole
/// part of the continuous iteration count, with the smoothing term kept at
/// zero or above.
fn escape_level(c: Complex<f64>, max_iterations: u32) -> Option<u32> {
    let mut z = Complex::new(0.0, 0.0);
    for i in 0..max_iterations {
        z = z * z + c;
        let norm = z.norm_sqr();
        if norm > 4.0 {
            let shade = 1.0 - (norm.log2() / 2.0).ln();
            let shade = if shade.is_nan() || shade < 0.0 { 0.0 } else { shade };
            return Some((i as f64 + shade).floor() as u32);
        }
    }
    None
}

fn point_of(app: &Application, index: usize, top_left: Complex<f64>, bottom_right: Complex<f64>) -> Complex<f64> {
    let (column, row) = app.grid.index_to_pixel(index);
    let width = bottom_right.re - top_left.re;
    let height = bottom_right.im - top_left.im;
    Complex::new(
        column as f64 / app.grid.width as f64 * width + top_left.re,
        row as f64 / app.grid.height as f64 * height + top_left.im,
    )
}

#[test]
fn start_view_has_bounded_centre_and_escaped_corner() {
    let top_left = Complex::new(-2.0, 1.25);
    let bottom_right = Complex::new(1.0, -1.25);
    let mut app = Application::new(640, 480).unwrap();
    assert_eq!(app.settings.max_iterations, 255);

    let mut levels = Vec::with_capacity(app.grid.len());
    for index in 0..app.grid.len() {
        let point = point_of(&app, index, top_left, bottom_right);
        levels.push(escape_level(point, app.settings.max_iterations));
    }
    assert!(app.update(&levels));

    let (column, row) = app.grid.middle();
    let centre = app.grid.pixel_to_index(column, row).unwrap();
    assert_eq!(point_of(&app, centre, top_left, bottom_right), Complex::new(-0.5, 0.0));
    assert_eq!(levels[centre], None);
    assert_eq!(app.buffer[centre], 0);

    let corner = app.grid.pixel_to_index(0, 0).unwrap();
    assert_eq!(corner, 0);
    assert_eq!(point_of(&app, corner, top_left, bottom_right), top_left);
    let count = levels[corner].unwrap();
    assert!(count < 10);
    assert_eq!(app.buffer[corner], 256 * count);
}
