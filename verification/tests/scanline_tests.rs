use bulbtracer::scanline::pixel_index;
use bulbtracer::scanline::worker_rows;

#[test]
fn rows_interleave_across_workers() {
    assert_eq!(worker_rows(8, 0, 3), vec![0, 3, 6]);
    assert_eq!(worker_rows(8, 1, 3), vec![1, 4, 7]);
    assert_eq!(worker_rows(8, 2, 3), vec![2, 5]);
}

#[test]
fn single_worker_renders_every_row() {
    assert_eq!(worker_rows(4, 0, 1), vec![0, 1, 2, 3]);
}

#[test]
fn worker_beyond_the_image_renders_nothing() {
    assert_eq!(worker_rows(4, 4, 2), Vec::<u32>::new());
    assert_eq!(worker_rows(0, 0, 1), Vec::<u32>::new());
}

#[test]
fn every_row_is_rendered_exactly_once() {
    let height = 23u32;
    let workers = 4u32;
    let mut seen = vec![0u32; height as usize];
    for k in 0..workers {
        for y in worker_rows(height, k, workers) {
            seen[y as usize] += 1;
        }
    }
    assert!(seen.iter().all(|&c| c == 1));
}

#[test]
fn pixel_index_is_row_major() {
    assert_eq!(pixel_index(0, 0, 800), 0);
    assert_eq!(pixel_index(3, 2, 800), 1603);
    assert_eq!(pixel_index(799, 599, 800), 479_999);
    // no overflow at the extreme image size
    assert_eq!(pixel_index(u32::MAX, u32::MAX, u32::MAX), u64::MAX - u32::MAX as u64);
}
