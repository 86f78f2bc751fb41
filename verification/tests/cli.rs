use printrs::cli::{DisplayArgs, PrintArgs};
use printrs::options::{CopiesInt, Finishing, MediaSize, NumberUpInt, PrintOptions, Quality};

fn args() -> PrintArgs {
    PrintArgs {
        paths: vec![std::path::PathBuf::from("a.pdf")],
        copies: None,
        finishings: None,
        size: None,
        source: None,
        media_type: None,
        number_up: None,
        orientation: None,
        color_mode: None,
        quality: None,
        sides_mode: None,
    }
}

#[test]
fn print_args_become_print_options() {
    let mut a = args();
    a.copies = Some(3);
    a.number_up = Some(4);
    a.size = Some(MediaSize::A5);
    a.quality = Some(Quality::Draft);
    a.finishings = Some(vec![Finishing::Staple, Finishing::Fold]);
    let o = PrintOptions::from(a);
    assert_eq!(o.copies, Some(CopiesInt(3)));
    assert_eq!(o.number_up, Some(NumberUpInt(4)));
    assert_eq!(o.media_size, Some(MediaSize::A5));
    assert_eq!(o.quality, Some(Quality::Draft));
    assert_eq!(o.finishings, Some(vec![Finishing::Staple, Finishing::Fold]));
    assert_eq!(o.orientation, None);
    assert_eq!(o.media_source, None);
}

#[test]
fn counts_are_cast_to_c_int() {
    let mut a = args();
    a.copies = Some(usize::MAX);
    a.number_up = Some(2147483648);
    let o = PrintOptions::from(a);
    assert_eq!(o.copies, Some(CopiesInt(-1)));
    assert_eq!(o.number_up, Some(NumberUpInt(i32::MIN)));
}

#[test]
fn display_args_hold_id_and_flag() {
    let d = DisplayArgs { id: 2, options: true };
    assert_eq!(d.id, 2);
    assert!(d.options);
}
