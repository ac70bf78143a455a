use gain_plugin::params::ParamStore;
use gain_plugin::params::AMPLITUDE_DEFAULT;
use gain_plugin::params::AMPLITUDE_SCALE;

#[test]
fn default_is_half_scale() {
    let s = ParamStore::new();
    assert_eq!(s.get(), AMPLITUDE_DEFAULT);
    assert_eq!(s.get(), 50);
}

#[test]
fn set_then_get_round_trip() {
    let mut s = ParamStore::new();
    for v in 0..=AMPLITUDE_SCALE {
        s.set(v);
        assert_eq!(s.get(), v);
    }
}

#[test]
fn over_scale_writes_are_clamped() {
    let mut s = ParamStore::new();
    s.set(101);
    assert_eq!(s.get(), 100);
    s.set(u32::MAX);
    assert_eq!(s.get(), 100);
}

#[test]
fn unknown_index_reads_neutral_default() {
    let s = ParamStore::new();
    assert_eq!(s.get_parameter(5), 0);
    assert_eq!(s.get_parameter(-1), 0);
    assert_eq!(s.get_parameter(0), 50);
}

#[test]
fn unknown_index_write_is_a_no_op() {
    let mut s = ParamStore::new();
    s.set(70);
    s.set_parameter(5, 10);
    assert_eq!(s.get_parameter(0), 70);
    s.set_parameter(-3, 10);
    assert_eq!(s.get_parameter(0), 70);
    s.set_parameter(0, 10);
    assert_eq!(s.get_parameter(0), 10);
}

#[test]
fn display_text_rescales_to_signed_unit_range() {
    let mut s = ParamStore::new();
    assert_eq!(s.get_parameter_text(0), "0.00");
    s.set(100);
    assert_eq!(s.get_parameter_text(0), "1.00");
    s.set(0);
    assert_eq!(s.get_parameter_text(0), "-1.00");
    s.set(75);
    assert_eq!(s.get_parameter_text(0), "0.50");
    s.set(25);
    assert_eq!(s.get_parameter_text(0), "-0.50");
    s.set(51);
    assert_eq!(s.get_parameter_text(0), "0.02");
    s.set(49);
    assert_eq!(s.get_parameter_text(0), "-0.02");
}

#[test]
fn display_text_of_unknown_index_is_empty() {
    let s = ParamStore::new();
    assert_eq!(s.get_parameter_text(1), "");
}

#[test]
fn parameter_name() {
    let s = ParamStore::new();
    assert_eq!(s.get_parameter_name(0), "Amplitude");
    assert_eq!(s.get_parameter_name(3), "");
}
