use idevice::IdeviceError;
use idevice_ffi::error::ErrorCode;
use idevice_ffi::marshal::{finish_next, marshal_log, to_c_text, LabelEntry, LogEntry};
use idevice_ffi::release::{release_plan, shape_of, LabelShape, LogShape, ReleaseStep};

fn entry(label: Option<LabelEntry>) -> LogEntry {
    LogEntry {
        pid: 42,
        timestamp: 1700000000,
        level: 3,
        image_name: b"Foo".to_vec(),
        filename: b"bar.c".to_vec(),
        message: b"hello".to_vec(),
        label,
    }
}

fn full_label() -> Option<LabelEntry> {
    Some(LabelEntry { subsystem: b"com.test".to_vec(), category: b"net".to_vec() })
}

#[test]
fn c_text_appends_terminator() {
    assert_eq!(to_c_text(&b"abc".to_vec()), Some(b"abc\0".to_vec()));
    assert_eq!(to_c_text(&Vec::new()), Some(vec![0u8]));
    assert_eq!(to_c_text(&b"a\0b".to_vec()), None);
}

#[test]
fn marshal_record_with_label() {
    let m = marshal_log(&entry(full_label())).ok().unwrap();
    assert_eq!(m.pid, 42);
    assert_eq!(m.timestamp, 1700000000);
    assert_eq!(m.level, 3);
    assert_eq!(m.image_name, b"Foo\0".to_vec());
    assert_eq!(m.filename, b"bar.c\0".to_vec());
    assert_eq!(m.message, b"hello\0".to_vec());
    let label = m.label.as_ref().unwrap();
    assert_eq!(label.subsystem, b"com.test\0".to_vec());
    assert_eq!(label.category, b"net\0".to_vec());

    let plan = release_plan(Some(shape_of(&m)));
    assert_eq!(
        plan,
        vec![
            ReleaseStep::ImageName,
            ReleaseStep::Filename,
            ReleaseStep::Message,
            ReleaseStep::Subsystem,
            ReleaseStep::Category,
            ReleaseStep::Label,
            ReleaseStep::Record,
        ]
    );
}

#[test]
fn marshal_record_without_label() {
    let m = marshal_log(&entry(None)).ok().unwrap();
    assert!(m.label.is_none());
    let plan = release_plan(Some(shape_of(&m)));
    assert_eq!(
        plan,
        vec![ReleaseStep::ImageName, ReleaseStep::Filename, ReleaseStep::Message, ReleaseStep::Record]
    );
}

#[test]
fn marshal_rejects_interior_nul() {
    let mut e = entry(None);
    e.message = b"he\0llo".to_vec();
    assert_eq!(marshal_log(&e).err(), Some(ErrorCode::InvalidString));

    let bad_label = Some(LabelEntry { subsystem: b"com.test".to_vec(), category: b"n\0t".to_vec() });
    assert_eq!(marshal_log(&entry(bad_label)).err(), Some(ErrorCode::InvalidString));
}

#[test]
fn marshal_empty_texts() {
    let mut e = entry(Some(LabelEntry { subsystem: Vec::new(), category: Vec::new() }));
    e.image_name = Vec::new();
    let m = marshal_log(&e).ok().unwrap();
    assert_eq!(m.image_name, vec![0u8]);
    assert_eq!(m.label.unwrap().subsystem, vec![0u8]);
}

#[test]
fn null_record_needs_no_release() {
    assert!(release_plan(None).is_empty());
}

#[test]
fn release_skips_null_fields() {
    let shape = LogShape {
        image_name: false,
        filename: true,
        message: false,
        label: Some(LabelShape { subsystem: false, category: true }),
    };
    assert_eq!(
        release_plan(Some(shape)),
        vec![ReleaseStep::Filename, ReleaseStep::Category, ReleaseStep::Label, ReleaseStep::Record]
    );
}

#[test]
fn next_outcomes() {
    let (code, m) = finish_next(Ok(entry(full_label())));
    assert_eq!(code, ErrorCode::Success);
    assert_eq!(m.unwrap().message, b"hello\0".to_vec());

    let (code, m) = finish_next(Err(IdeviceError::Timeout));
    assert_eq!(code, ErrorCode::Device(109));
    assert!(m.is_none());

    let mut bad = entry(None);
    bad.image_name = vec![0u8];
    let (code, m) = finish_next(Ok(bad));
    assert_eq!(code, ErrorCode::InvalidString);
    assert!(m.is_none());
}
