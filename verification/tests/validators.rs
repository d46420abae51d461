use rip_media::validators::{
    dir_writable, filename_valid_portable, path_output_dir, path_valid_portable, PathError,
};

const VALID_FILENAMES: &[&str] = &[
    // regular, space, and leading period
    "test1", "te st", ".test",
    // Stuff which would break if the DOS reserved names check is doing dumb pattern matching
    "lpt", "lpt0", "lpt10",
];

const PATHS_WITH_NATIVE_SEPARATORS: &[&str] = &["re/lative", "/ab/solute"];

const PATHS_WITH_FOREIGN_SEPARATORS: &[&str] = &[
    "relative\\win32",
    "C:\\absolute\\win32",
    "\\drive\\relative\\win32",
    "\\\\unc\\path\\for\\win32",
    "Classic Mac HD:Folder Name:File",
];

const INVALID_PORTABLE_FILENAMES: &[&str] = &[
    "test\x03",
    "test\x07",
    "test\x08",
    "test\x0B",
    "test\x7f", // Control characters (VFAT)
    "\"test\"",
    "<testsss",
    "testsss>",
    "testsss|",
    "testsss*",
    "testsss?",
    "?estsss", // VFAT
    "ends with space ",
    "ends_with_period.", // DOS/Win32
    "CON",
    "Con",
    "coN",
    "cOn",
    "CoN",
    "con",
    "lpt1",
    "com9", // Reserved names (DOS/Win32)
    "con.txt",
    "lpt1.dat", // DOS/Win32 API (Reserved names are extension agnostic)
    "",
    "\0",
];

fn name_ok(s: &str) -> bool {
    filename_valid_portable(&s.as_bytes().to_vec()).is_ok()
}

fn path_ok(s: &str) -> bool {
    path_valid_portable(&s.as_bytes().to_vec()).is_ok()
}

#[test]
fn filename_valid_portable_accepts_valid_names() {
    for path in VALID_FILENAMES {
        assert!(name_ok(path), "{:?}", path);
    }
}

#[test]
fn filename_valid_portable_refuses_path_separators() {
    for path in PATHS_WITH_NATIVE_SEPARATORS {
        assert!(!name_ok(path), "{:?}", path);
    }
    for path in PATHS_WITH_FOREIGN_SEPARATORS {
        assert!(!name_ok(path), "{:?}", path);
    }
}

#[test]
fn filename_valid_portable_refuses_invalid_characters() {
    for fname in INVALID_PORTABLE_FILENAMES {
        assert!(!name_ok(fname), "{:?}", fname);
    }
}

#[test]
fn filename_valid_portable_refuses_empty_strings() {
    assert!(filename_valid_portable(&Vec::new()).is_err());
}

#[test]
fn filename_valid_portable_enforces_length_limits() {
    // 256 characters
    assert!(filename_valid_portable(&vec![b'X'; 256]).is_err());

    // 255 characters (maximum for NTFS, ext2/3/4, and a lot of others)
    assert!(filename_valid_portable(&vec![b'X'; 255]).is_ok());
}

#[test]
fn filename_valid_portable_accepts_non_utf8_bytes() {
    // Ensure that we don't refuse invalid UTF-8 that "bag of bytes" POSIX allows
    assert!(filename_valid_portable(&vec![0xff]).is_ok());
}

#[test]
fn filename_valid_portable_accepts_unpaired_surrogates() {
    // The WTF-8 encoding of an unpaired surrogate is not valid UTF-8, but it
    // holds no forbidden byte and so is an acceptable name.
    assert!(filename_valid_portable(&vec![0xed, 0xa0, 0x80]).is_ok());
}

#[test]
fn validators_filename_valid_portable_accepts_unpaired_surrogates() {
    // The same bytes inside a larger path are acceptable as well.
    let mut path = b"/".to_vec();
    path.extend_from_slice(&[0xed, 0xa0, 0x80]);
    path.extend_from_slice(b"/foo");
    assert!(path_valid_portable(&path).is_ok());
}

#[test]
fn filename_valid_portable_reports_first_failing_check() {
    assert_eq!(
        filename_valid_portable(&vec![b'X'; 300]),
        Err(PathError::NameTooLong { len: 300 })
    );
    assert_eq!(filename_valid_portable(&Vec::new()), Err(PathError::Empty));
    assert_eq!(
        filename_valid_portable(&b"name ".to_vec()),
        Err(PathError::TrailingSpaceOrDot)
    );
    assert_eq!(
        filename_valid_portable(&b"name.".to_vec()),
        Err(PathError::TrailingSpaceOrDot)
    );
    assert_eq!(
        filename_valid_portable(&b"na*me".to_vec()),
        Err(PathError::ForbiddenByte)
    );
    assert_eq!(
        filename_valid_portable(&b"lpt7.img".to_vec()),
        Err(PathError::ReservedName)
    );
}

#[test]
fn path_valid_portable_accepts_valid_names() {
    for path in VALID_FILENAMES {
        assert!(path_ok(path), "{:?}", path);
    }

    // No filename (.file_stem() returns None)
    assert!(path_ok("foo/.."));
}

#[test]
fn path_valid_portable_accepts_native_path_separators() {
    for path in PATHS_WITH_NATIVE_SEPARATORS {
        assert!(path_ok(path), "{:?}", path);
    }

    // Verify that repeated separators are getting collapsed before the name
    // check sees them.
    assert!(path_ok("/path//with/repeated//separators"));
}

#[test]
fn path_valid_portable_refuses_foreign_path_separators() {
    for path in PATHS_WITH_FOREIGN_SEPARATORS {
        assert!(!path_ok(path), "{:?}", path);
    }
}

#[test]
fn path_valid_portable_refuses_invalid_characters() {
    for fname in INVALID_PORTABLE_FILENAMES {
        assert!(!path_ok(fname), "{:?}", fname);
    }
}

#[test]
fn path_valid_portable_enforces_length_limits() {
    let mut test_string = String::with_capacity(255 * 130);
    while test_string.len() < 32761 {
        test_string.push_str(std::str::from_utf8(&[b'X'; 255]).expect("utf8 from literal"));
        test_string.push('/');
    }

    // >32760 characters
    assert!(!path_ok(&test_string));

    // 32760 characters (maximum for FAT32/VFAT/exFAT)
    test_string.truncate(32760);
    assert!(path_ok(&test_string));

    // 256 characters with no path separators
    test_string.truncate(255);
    test_string.push('X');
    assert!(!path_ok(&test_string));

    // 255 characters with no path separators
    test_string.truncate(255);
    assert!(path_ok(&test_string));
}

#[test]
fn path_valid_portable_accepts_non_utf8_bytes() {
    // Ensure that we don't refuse invalid UTF-8 that "bag of bytes" POSIX allows
    let mut path = b"/".to_vec();
    path.push(0xff);
    path.extend_from_slice(b"/foo");
    assert!(path_valid_portable(&path).is_ok());
}

#[test]
fn path_valid_portable_reports_path_level_errors() {
    assert_eq!(path_valid_portable(&Vec::new()), Err(PathError::Empty));
    assert_eq!(
        path_valid_portable(&vec![b'X'; 32761]),
        Err(PathError::PathTooLong { len: 32761 })
    );
    assert_eq!(
        path_valid_portable(&b"ok/CON/also_ok".to_vec()),
        Err(PathError::ReservedName)
    );
}

#[test]
fn path_output_dir_decides_from_probes() {
    assert!(path_output_dir(true, true).is_ok());
    assert_eq!(path_output_dir(false, true), Err(PathError::NotADirectory));
    assert_eq!(path_output_dir(false, false), Err(PathError::NotADirectory));
    assert_eq!(path_output_dir(true, false), Err(PathError::NotWritable));
}

#[test]
fn dir_writable_decides_from_probes() {
    assert!(dir_writable(true, true).is_ok());
    assert_eq!(dir_writable(false, true), Err(PathError::NotADirectory));
    assert_eq!(dir_writable(false, false), Err(PathError::NotADirectory));
    assert_eq!(dir_writable(true, false), Err(PathError::NotWritable));
}
