use sndio::{sio_bps, Mode, SIO_ERROR, SIO_IGNORE, SIO_LE_NATIVE, SIO_MAXVOL, SIO_PLAY, SIO_REC, SIO_SYNC};

#[test]
fn bps_maps_bit_depths() {
    assert_eq!(sio_bps(1), 1);
    assert_eq!(sio_bps(8), 1);
    assert_eq!(sio_bps(9), 2);
    assert_eq!(sio_bps(16), 2);
    assert_eq!(sio_bps(17), 4);
    assert_eq!(sio_bps(24), 4);
    assert_eq!(sio_bps(32), 4);
}

#[test]
fn bps_of_zero_depth_is_one_byte() {
    assert_eq!(sio_bps(0), 1);
}

#[test]
fn duplex_mode_is_bitwise_or_and_distinct() {
    let duplex = Mode::play().bitor(Mode::rec());
    assert_eq!(duplex.0, SIO_PLAY | SIO_REC);
    assert_eq!(duplex.0, 3);
    assert_ne!(duplex, Mode::play());
    assert_ne!(duplex, Mode::rec());
}

#[test]
fn mode_combination_commutes() {
    assert_eq!(Mode::play().bitor(Mode::rec()), Mode::rec().bitor(Mode::play()));
}

#[test]
fn flag_values_match_native_interface() {
    assert_eq!(SIO_PLAY, 1);
    assert_eq!(SIO_REC, 2);
    assert_eq!(SIO_IGNORE, 0);
    assert_eq!(SIO_SYNC, 1);
    assert_eq!(SIO_ERROR, 2);
    assert_eq!(SIO_LE_NATIVE, 1);
    assert_eq!(SIO_MAXVOL, 127);
}
