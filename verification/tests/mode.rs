use umask::all_exec;
use umask::all_read;
use umask::all_write;
use umask::group_exec;
use umask::group_read;
use umask::group_write;
use umask::others_exec;
use umask::others_read;
use umask::others_write;
use umask::user_exec;
use umask::user_read;
use umask::user_write;
use umask::Mode;
use umask::ParseError;
use umask::ALL;
use umask::EXEC;
use umask::READ;
use umask::SETGID;
use umask::SETUID;
use umask::STICKY;
use umask::USER;
use umask::WRITE;

#[test]
fn test_build() {
    let mut m = Mode::new()
        .with_class_perm(ALL, READ)
        .with_class_perm(USER, WRITE);
    assert_eq!("rw-r--r--", m.to_string());
    m.bitor_assign(all_exec());
    assert_eq!("rwxr-xr-x", m.to_string());
    m.bitand_assign(user_read().not());
    assert_eq!("-wxr-xr-x", m.to_string());
}

#[test]
fn test_print() {
    assert_eq!("rw-r--r--", Mode::from(0b110100100).to_string());
    assert_eq!("rw-r--r--", Mode::from(0o644).to_string());
    let mu = Mode::from(0o600);
    let mo = Mode::from(0o004);
    assert_eq!("rw-------", mu.to_string());
    assert_eq!("------r--", mo.to_string());
    let muo = mu.bitor(mo);
    assert_eq!("rw----r--", muo.to_string());
}

#[test]
fn test_extra_permissions() {
    let mut m = Mode::all()
        .with_extra(STICKY)
        .with_extra(SETUID)
        .with_extra(SETGID);
    assert_eq!("rwsrwsrwt", m.to_string());
    m.bitand_assign(Mode::from(EXEC).not());
    assert_eq!("rwSrwSrwT", m.to_string());
    let m = m.without_extra(STICKY);
    assert_eq!("rwSrwSrw-", m.to_string());
}

#[test]
fn test_try_from_str() -> Result<(), ParseError> {
    assert_eq!(Mode::parse("---------")?, Mode::from(0o000));
    assert_eq!(Mode::parse("rw-r--r--")?, Mode::from(0b110100100));
    assert_eq!(Mode::parse("rw-r--r--")?, Mode::from(0o644));
    assert_eq!(Mode::parse("rw-------")?, Mode::from(0o600));
    assert_eq!(Mode::parse("------r--")?, Mode::from(0o004));

    let expected = Mode::all()
        .with_extra(STICKY)
        .with_extra(SETUID)
        .with_extra(SETGID);
    assert_eq!(Mode::parse("rwsrwsrwt")?, expected);

    assert!(matches!(
        Mode::parse("rw-r--r---"),
        Err(ParseError::TrailingCharacters)
    ));
    assert!(matches!(Mode::parse(""), Err(ParseError::NotEnoughInput)));
    assert!(matches!(
        Mode::parse("rw-r--r-"),
        Err(ParseError::NotEnoughInput)
    ));

    assert!(
        matches!(Mode::parse("xw-r--r---"), Err(ParseError::InvalidChar(c, pos)) if c == 'x' && pos == 0)
    );
    Ok(())
}

#[test]
fn test_value_round_trip() {
    assert_eq!(0u32, Mode::from(0).value());
    assert_eq!(0o644u32, Mode::from(0o644).value());
    assert_eq!(0o7777u32, Mode::from(0o7777).value());
    // Bits beyond the 12 meaningful ones are preserved verbatim.
    assert_eq!(0xDEAD_BEEFu32, Mode::from(0xDEAD_BEEF).value());
}

#[test]
fn test_format_parse_round_trip() {
    for v in [0o000u32, 0o644, 0o755, 0o640, 0o7777, 0o4755, 0o2644, 0o1000] {
        let s = Mode::from(v).to_string();
        let parsed = Mode::parse(&s).unwrap();
        assert_eq!(s, parsed.to_string());
        assert_eq!(v & 0o7777, parsed.value());
    }
}

#[test]
fn test_has_reflexive() {
    for v in [0u32, 0o644, 0o7777, 0xFFFF_FFFF] {
        let m = Mode::from(v);
        assert!(m.has(m));
        assert!(m.has(Mode::new()));
    }
}

#[test]
fn test_class_perm_inverse() {
    let m = Mode::from(0o644);
    let there_and_back = m.with_class_perm(USER, WRITE).without_class_perm(USER, WRITE);
    assert_eq!(there_and_back, m.without_class_perm(USER, WRITE));
    assert_eq!(0o444u32, there_and_back.value());
    // Disjoint masks make both builders no-ops.
    assert_eq!(m, m.with_class_perm(0, WRITE));
    assert_eq!(m, m.without_class_perm(0, WRITE));
}

#[test]
fn test_is_exe() {
    assert!(!Mode::new().is_exe());
    assert!(Mode::all().is_exe());
    assert!(Mode::from(0o100).is_exe());
    assert!(Mode::from(0o010).is_exe());
    assert!(Mode::from(0o001).is_exe());
    assert!(!Mode::from(0o666).is_exe());
    assert!(!Mode::from(0o7000).is_exe());
}

#[test]
fn test_and_masks() {
    let mu = Mode::from(0o640);
    let mo = Mode::from(0o044);
    assert_eq!("---r-----", mu.bitand(mo).to_string());
    assert_eq!("rw-r--r--", mu.bitor(mo).to_string());
}

#[test]
fn test_not_is_full_width() {
    assert_eq!(0xFFFF_FFFFu32, Mode::new().not().value());
    assert_eq!(!0o644u32, Mode::from(0o644).not().value());
}

#[test]
fn test_with_without() {
    let m = Mode::all().without(all_exec());
    assert_eq!("rw-rw-rw-", m.to_string());
    assert_eq!("rwxrwxrwx", m.with(all_exec()).to_string());
}

#[test]
fn test_without_any_extra() {
    let m = Mode::all()
        .with_extra(STICKY)
        .with_extra(SETUID)
        .with_extra(SETGID);
    assert_eq!("rwxrwxrwx", m.without_any_extra().to_string());
    assert_eq!(0o777u32, m.without_any_extra().value());
}

#[test]
fn test_has_extra() {
    let m = Mode::new().with_extra(SETUID);
    assert!(m.has_extra(SETUID));
    assert!(!m.has_extra(SETGID));
    assert!(!m.has_extra(STICKY));
    assert!(!m.without_extra(SETUID).has_extra(SETUID));
}

#[test]
fn test_parse_special_characters() {
    // A lowercase special sets the extra bit and the exec bit; an
    // uppercase one sets only the extra bit.
    assert_eq!(Mode::parse("rwsrwSrwT").unwrap(), Mode::from(0o7666 | 0o100));
    assert_eq!(Mode::parse("--S--S--T").unwrap(), Mode::from(0o7000));
    assert_eq!(Mode::parse("--s--s--t").unwrap(), Mode::from(0o7111));
}

#[test]
fn test_parse_error_positions() {
    assert!(
        matches!(Mode::parse("rq-r--r--"), Err(ParseError::InvalidChar(c, pos)) if c == 'q' && pos == 1)
    );
    // 't' is only valid in the others exec cell, not user or group.
    assert!(
        matches!(Mode::parse("rwtr--r--"), Err(ParseError::InvalidChar(c, pos)) if c == 't' && pos == 2)
    );
    assert!(
        matches!(Mode::parse("rw-r--rws"), Err(ParseError::InvalidChar(c, pos)) if c == 's' && pos == 8)
    );
    // The first offending position is the one reported.
    assert!(
        matches!(Mode::parse("!!-------"), Err(ParseError::InvalidChar(c, pos)) if c == '!' && pos == 0)
    );
}

#[test]
fn test_from_str_trait() {
    let mode: Mode = "rw-rw-r--".parse().unwrap();
    assert_eq!("rw-rw-r--", mode.to_string());
    assert!("rw-rw-r".parse::<Mode>().is_err());
}

#[test]
fn test_named_builders() {
    assert_eq!(0o400u32, user_read().value());
    assert_eq!(0o200u32, user_write().value());
    assert_eq!(0o100u32, user_exec().value());
    assert_eq!(0o040u32, group_read().value());
    assert_eq!(0o020u32, group_write().value());
    assert_eq!(0o010u32, group_exec().value());
    assert_eq!(0o004u32, others_read().value());
    assert_eq!(0o002u32, others_write().value());
    assert_eq!(0o001u32, others_exec().value());
    assert_eq!(0o444u32, all_read().value());
    assert_eq!(0o222u32, all_write().value());
    assert_eq!(0o111u32, all_exec().value());
}

#[test]
fn test_default_is_empty() {
    assert_eq!(Mode::default(), Mode::new());
    assert_eq!(0u32, Mode::default().value());
}
