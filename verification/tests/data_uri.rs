use illustrator_rs::data_uri::{embedded_image_data, image_data_uri};

#[test]
fn image_data_is_written_as_base64() {
    assert_eq!(image_data_uri(b"hello"), "data:image/png;base64,aGVsbG8=");
    assert_eq!(image_data_uri(b""), "data:image/png;base64,");
    assert_eq!(image_data_uri(&[0xff, 0xfe]), "data:image/png;base64,//4=");
    assert_eq!(image_data_uri(&[0, 0, 0]), "data:image/png;base64,AAAA");
}

#[test]
fn embedded_image_data_is_read_back() {
    assert_eq!(embedded_image_data("data:image/png;base64,aGVsbG8="), b"hello".to_vec());
    assert_eq!(embedded_image_data("data:,AAAA"), vec![0, 0, 0]);
    let data: Vec<u8> = (0..=255u8).collect();
    assert_eq!(embedded_image_data(&image_data_uri(&data)), data);
}

#[test]
fn other_image_references_give_no_data() {
    assert!(embedded_image_data("image.png").is_empty());
    assert!(embedded_image_data("data:image/png;base64").is_empty());
    assert!(embedded_image_data("data:image/png;base64,aGVsbG8").is_empty());
    assert!(embedded_image_data("data:image/png;base64,aGVsbG9=").is_empty());
    assert!(embedded_image_data("data:image/png;base64,!!!!").is_empty());
}
