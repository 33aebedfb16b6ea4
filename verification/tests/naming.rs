use sndio::device::{default_device_name, resolve_device_name, NameError};

#[test]
fn absent_name_selects_default_device() {
    let r = resolve_device_name(None);
    assert_eq!(r, Ok(b"default\0".to_vec()));
    assert_eq!(default_device_name(), b"default\0".to_vec());
}

#[test]
fn clean_name_passes_through_terminated() {
    let name = b"rsnd/0".to_vec();
    let r = resolve_device_name(Some(&name));
    assert_eq!(r, Ok(b"rsnd/0\0".to_vec()));
}

#[test]
fn empty_name_becomes_bare_terminator() {
    let name = Vec::new();
    let r = resolve_device_name(Some(&name));
    assert_eq!(r, Ok(vec![0u8]));
}

#[test]
fn embedded_nul_is_rejected_distinctly() {
    let name = vec![b'r', 0u8, b's'];
    let r = resolve_device_name(Some(&name));
    assert_eq!(r, Err(NameError::EmbeddedNul));
}

#[test]
fn leading_nul_is_rejected() {
    let name = vec![0u8, b'a'];
    assert_eq!(resolve_device_name(Some(&name)), Err(NameError::EmbeddedNul));
}

#[test]
fn trailing_nul_is_rejected() {
    let name = vec![b'a', 0u8];
    assert_eq!(resolve_device_name(Some(&name)), Err(NameError::EmbeddedNul));
}
