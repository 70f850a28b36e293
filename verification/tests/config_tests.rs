use media_core::config::{int_to_string, EnvIni};

#[test]
fn set_int_then_get_then_remove() {
    let mut ini = EnvIni::new();
    ini.set_option_int("k", 5);
    assert_eq!(ini.get_option("k"), "5");
    assert_eq!(ini.remove_option("k"), true);
    assert_eq!(ini.get_option("k"), "");
}

#[test]
fn get_missing_key_is_empty() {
    let ini = EnvIni::new();
    assert_eq!(ini.get_option("absent"), "");
}

#[test]
fn set_overwrites_previous_value() {
    let mut ini = EnvIni::new();
    ini.set_option("protocol.hls_demand", "0");
    ini.set_option("protocol.hls_demand", "1");
    assert_eq!(ini.get_option("protocol.hls_demand"), "1");
}

#[test]
fn remove_absent_key_reports_false() {
    let mut ini = EnvIni::new();
    ini.set_option("a", "x");
    assert_eq!(ini.remove_option("b"), false);
    assert_eq!(ini.get_option("a"), "x");
}

#[test]
fn int_rendering_exact() {
    assert_eq!(int_to_string(0), "0");
    assert_eq!(int_to_string(5), "5");
    assert_eq!(int_to_string(42), "42");
    assert_eq!(int_to_string(-1), "-1");
    assert_eq!(int_to_string(-137), "-137");
    assert_eq!(int_to_string(i32::MAX), "2147483647");
    assert_eq!(int_to_string(i32::MIN), "-2147483648");
}

#[test]
fn dump_lists_entries_in_order() {
    let mut ini = EnvIni::new();
    ini.set_option("a", "1");
    ini.set_option("b", "2");
    assert_eq!(ini.dump(), "a=1\nb=2\n");
    ini.remove_option("a");
    assert_eq!(ini.dump(), "b=2\n");
}

#[test]
fn independent_instances_do_not_share_state() {
    let mut one = EnvIni::new();
    let two = EnvIni::new();
    one.set_option("k", "v");
    assert_eq!(two.get_option("k"), "");
}
