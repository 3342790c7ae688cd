use tempsystem::archive::build_archive;

fn octal(field: &[u8]) -> u64 {
    let mut n: u64 = 0;
    for b in field {
        if *b >= b'0' && *b <= b'7' {
            n = n * 8 + (*b - b'0') as u64;
        }
    }
    n
}

#[test]
fn archive_of_a_small_file() {
    let a = build_archive(b".zsh_history", b"ls\ncd /tmp\n").unwrap();
    assert_eq!(a.len(), 512 + 512 + 1024);
    assert_eq!(&a[0..12], b".zsh_history");
    assert!(a[12..100].iter().all(|b| *b == 0));
    assert_eq!(&a[100..108], b"0000644\0");
    assert_eq!(&a[108..116], b"0000000\0");
    assert_eq!(&a[116..124], b"0000000\0");
    assert_eq!(&a[124..136], b"00000000013\0");
    assert_eq!(&a[136..148], b"00000000000\0");
    assert_eq!(a[156], b'0');
    assert_eq!(&a[257..265], b"ustar\x0000");
    assert_eq!(a[154], 0);
    assert_eq!(a[155], b' ');
    let mut sum: u64 = 0;
    for (i, b) in a[0..512].iter().enumerate() {
        sum += if (148..156).contains(&i) { 32 } else { *b as u64 };
    }
    assert_eq!(octal(&a[148..154]), sum);
    assert_eq!(&a[512..523], b"ls\ncd /tmp\n");
    assert!(a[523..].iter().all(|b| *b == 0));
}

#[test]
fn archive_sizes() {
    assert_eq!(build_archive(b"f", b"").unwrap().len(), 512 + 1024);
    assert_eq!(build_archive(b"f", &[7u8; 512]).unwrap().len(), 512 + 512 + 1024);
    assert_eq!(build_archive(b"f", &[7u8; 513]).unwrap().len(), 512 + 1024 + 1024);
    let a = build_archive(b"f", &[7u8; 600]).unwrap();
    assert_eq!(&a[124..136], b"00000001130\0");
    assert!(a[512..1112].iter().all(|b| *b == 7));
    assert!(a[1112..].iter().all(|b| *b == 0));
}

#[test]
fn names_that_do_not_fit() {
    assert_eq!(build_archive(b"", b"x"), None);
    assert_eq!(build_archive(&[b'a'; 101], b"x"), None);
    let a = build_archive(&[b'a'; 100], b"x").unwrap();
    assert!(a[0..100].iter().all(|b| *b == b'a'));
    assert_eq!(&a[100..108], b"0000644\0");
}
