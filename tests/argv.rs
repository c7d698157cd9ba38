use samply_launch::argv::{argv_representable, build_argv, is_nul_free, nul_terminated};

#[test]
fn argv_for_shell_command() {
    let name = b"/bin/sh".to_vec();
    let args = vec![b"-c".to_vec(), b"exit 7".to_vec()];
    assert!(argv_representable(&name, &args));
    assert_eq!(
        build_argv(&name, &args),
        vec![b"/bin/sh\0".to_vec(), b"-c\0".to_vec(), b"exit 7\0".to_vec()]
    );
}

#[test]
fn argv_without_arguments() {
    let name = b"/bin/true".to_vec();
    assert_eq!(build_argv(&name, &vec![]), vec![b"/bin/true\0".to_vec()]);
}

#[test]
fn argv_keeps_empty_argument() {
    let name = b"echo".to_vec();
    let args = vec![Vec::new(), b"x".to_vec()];
    assert_eq!(build_argv(&name, &args), vec![b"echo\0".to_vec(), b"\0".to_vec(), b"x\0".to_vec()]);
}

#[test]
fn nul_in_name_or_argument_rejected() {
    assert!(!argv_representable(&b"a\0b".to_vec(), &vec![]));
    assert!(!argv_representable(&b"ls".to_vec(), &vec![b"ok".to_vec(), b"\0".to_vec()]));
    assert!(!is_nul_free(&b"\0".to_vec()));
    assert!(is_nul_free(&Vec::new()));
}

#[test]
fn nul_terminated_appends_one_byte() {
    assert_eq!(nul_terminated(&b"abc".to_vec()), b"abc\0".to_vec());
    assert_eq!(nul_terminated(&Vec::new()), vec![0u8]);
}
