use rmdb::program::{ProgramImage, NEWLINE};

#[test]
fn image_keeps_every_byte_when_newlines_count() {
    let source = b"LI\nzH\nO]\n".to_vec();
    let image = ProgramImage::new(String::from("copy.rm"), &source, false);
    assert_eq!(image.memory(), &source);
    assert_eq!(image.name(), "copy.rm");
}

#[test]
fn image_drops_every_newline_when_asked() {
    let source = b"\nLI\nzH\n\nO]\n".to_vec();
    let image = ProgramImage::new(String::from("copy.rm"), &source, true);
    assert_eq!(image.memory(), &b"LIzHO]".to_vec());
}

#[test]
fn image_of_nothing_is_empty() {
    let image = ProgramImage::new(String::new(), &Vec::new(), true);
    assert!(image.memory().is_empty());
    let image = ProgramImage::new(String::new(), &vec![NEWLINE, NEWLINE], true);
    assert!(image.memory().is_empty());
    let image = ProgramImage::new(String::new(), &vec![NEWLINE, NEWLINE], false);
    assert_eq!(image.memory(), &vec![10u8, 10]);
}

#[test]
fn image_keeps_carriage_returns() {
    let source = b"H\r\nH".to_vec();
    let image = ProgramImage::new(String::from("dos"), &source, true);
    assert_eq!(image.memory(), &b"H\rH".to_vec());
}
