use neuralnet_rs::idx::{parse_mnist_images, parse_mnist_labels, IdxError};

fn images_file(count: u32, rows: u32, cols: u32, pixels: &[u8]) -> Vec<u8> {
    let mut b = vec![0, 0, 8, 3];
    b.extend_from_slice(&count.to_be_bytes());
    b.extend_from_slice(&rows.to_be_bytes());
    b.extend_from_slice(&cols.to_be_bytes());
    b.extend_from_slice(pixels);
    b
}

#[test]
fn parses_images() {
    let b = images_file(2, 2, 3, &[1, 2, 3, 4, 5, 6, 7, 8, 9, 10, 11, 12, 99]);
    let img = parse_mnist_images(&b).unwrap();
    assert_eq!((img.count, img.rows, img.cols), (2, 2, 3));
    assert_eq!(img.images, vec![vec![1, 2, 3, 4, 5, 6], vec![7, 8, 9, 10, 11, 12]]);
}

#[test]
fn header_counts_are_big_endian() {
    let mut b = images_file(0, 0, 0, &[]);
    b[4..8].copy_from_slice(&[0, 0, 1, 2]);
    b[8..12].copy_from_slice(&[0, 0, 0, 1]);
    b[12..16].copy_from_slice(&[0, 0, 0, 1]);
    b.extend(std::iter::repeat(7u8).take(258));
    let img = parse_mnist_images(&b).unwrap();
    assert_eq!(img.count, 258);
    assert_eq!(img.images.len(), 258);
}

#[test]
fn images_with_short_header() {
    assert_eq!(parse_mnist_images(&[0, 0, 8, 3, 0, 0, 0, 1]).err(), Some(IdxError::TruncatedHeader));
}

#[test]
fn images_with_missing_pixels() {
    let b = images_file(2, 2, 3, &[1, 2, 3, 4, 5, 6, 7, 8, 9, 10, 11]);
    assert_eq!(parse_mnist_images(&b).err(), Some(IdxError::TruncatedData));
}

#[test]
fn huge_image_size_is_rejected() {
    let b = images_file(1, u32::MAX, u32::MAX, &[0; 16]);
    assert_eq!(parse_mnist_images(&b).err(), Some(IdxError::TruncatedData));
}

#[test]
fn empty_images() {
    let b = images_file(3, 0, 28, &[]);
    let img = parse_mnist_images(&b).unwrap();
    assert_eq!(img.images, vec![Vec::<u8>::new(); 3]);
    let b = images_file(0, u32::MAX, u32::MAX, &[]);
    assert_eq!(parse_mnist_images(&b).unwrap().images.len(), 0);
}

#[test]
fn parses_labels() {
    let b = [0, 0, 8, 1, 0, 0, 0, 3, 7, 2, 1, 0];
    assert_eq!(parse_mnist_labels(&b).unwrap(), vec![7, 2, 1]);
}

#[test]
fn labels_errors() {
    assert_eq!(parse_mnist_labels(&[0, 0, 8, 1, 0, 0, 0]).err(), Some(IdxError::TruncatedHeader));
    assert_eq!(parse_mnist_labels(&[0, 0, 8, 1, 0, 0, 0, 3, 7, 2]).err(), Some(IdxError::TruncatedData));
}
