use wisplet::icon::{apply_mask_alpha, bgra_to_rgba, finish_icon, has_alpha, icon_dims, IconError};

#[test]
fn icon_sizes_are_at_least_one() {
    assert_eq!(icon_dims(32, 32), (32, 32, 4096));
    assert_eq!(icon_dims(0, -5), (1, 1, 4));
    assert_eq!(icon_dims(48, 0), (48, 1, 192));
}

#[test]
fn alpha_detection() {
    assert!(!has_alpha(&vec![1, 2, 3, 0, 4, 5, 6, 0]));
    assert!(has_alpha(&vec![1, 2, 3, 0, 4, 5, 6, 9]));
    assert!(!has_alpha(&vec![]));
}

#[test]
fn mask_sets_binary_alpha() {
    let mut color = vec![10, 20, 30, 0, 40, 50, 60, 0];
    let mask = vec![255, 255, 255, 0, 0, 0, 0, 0];
    apply_mask_alpha(&mut color, &mask);
    assert_eq!(color, vec![10, 20, 30, 0, 40, 50, 60, 255]);
}

#[test]
fn red_and_blue_swap_and_swap_back() {
    let original = vec![1, 2, 3, 4, 5, 6, 7, 8];
    let mut c = original.clone();
    bgra_to_rgba(&mut c);
    assert_eq!(c, vec![3, 2, 1, 4, 7, 6, 5, 8]);
    bgra_to_rgba(&mut c);
    assert_eq!(c, original);
}

#[test]
fn unread_pixels_are_an_error() {
    match finish_icon(1, 1, vec![0, 0, 0, 0], None, 0) {
        Err(e) => {
            assert!(matches!(e, IconError::PixelRead));
            assert_eq!(e.message(), "GetDIBits a échoué");
        }
        Ok(_) => panic!("expected an error"),
    }
}

#[test]
fn icons_become_png() {
    // One blue BGRA pixel without alpha; its mask says opaque.
    let png = match finish_icon(1, 1, vec![255, 0, 0, 0], Some(vec![0, 0, 0, 0]), 1) {
        Ok(p) => p,
        Err(e) => panic!("unexpected error: {}", e.message()),
    };
    assert_eq!(&png[..8], &[137, 80, 78, 71, 13, 10, 26, 10]);
    let decoder = png::Decoder::new(std::io::Cursor::new(png));
    let mut reader = decoder.read_info().expect("a readable png");
    let mut buf = vec![0; reader.output_buffer_size()];
    let info = reader.next_frame(&mut buf).expect("one frame");
    assert_eq!((info.width, info.height), (1, 1));
    assert_eq!(&buf[..4], &[0, 0, 255, 255]);
}

#[test]
fn alpha_channel_wins_over_the_mask() {
    let png = match finish_icon(1, 1, vec![1, 2, 3, 128], Some(vec![255, 255, 255, 255]), 1) {
        Ok(p) => p,
        Err(e) => panic!("unexpected error: {}", e.message()),
    };
    let decoder = png::Decoder::new(std::io::Cursor::new(png));
    let mut reader = decoder.read_info().expect("a readable png");
    let mut buf = vec![0; reader.output_buffer_size()];
    reader.next_frame(&mut buf).expect("one frame");
    assert_eq!(&buf[..4], &[3, 2, 1, 128]);
}

#[test]
fn encoder_refusals_are_reported() {
    match finish_icon(0, 1, vec![], None, 1) {
        Err(IconError::Encoding(m)) => assert_eq!(m, "Zero width not allowed"),
        _ => panic!("expected an encoding error"),
    }
}

#[test]
fn icon_error_messages() {
    assert_eq!(IconError::NoIcon.message(), "Aucune icône trouvée pour ce fichier");
    assert_eq!(IconError::BitmapInfo.message(), "GetObjectW a échoué");
    assert_eq!(IconError::IconInfo("bad handle".to_string()).message(), "bad handle");
    assert_eq!(IconError::Encoding("x".to_string()).message(), "x");
}
