use roura_desktop::launcher::{build_launch_arguments, WARM_UP_SECS};
use roura_desktop::text::{decimal_string, signed_decimal_string};

#[test]
fn launch_arguments_name_module_port_and_host() {
    assert_eq!(
        build_launch_arguments(8765),
        vec!["-m", "roura_agent.server", "--port", "8765", "--host", "127.0.0.1"]
    );
    assert_eq!(build_launch_arguments(0)[3], "0");
    assert_eq!(build_launch_arguments(65535)[3], "65535");
}

#[test]
fn warm_up_is_two_seconds() {
    assert_eq!(WARM_UP_SECS, 2);
}

#[test]
fn decimal_strings() {
    assert_eq!(decimal_string(0), "0");
    assert_eq!(decimal_string(9), "9");
    assert_eq!(decimal_string(10), "10");
    assert_eq!(decimal_string(1234567890), "1234567890");
    assert_eq!(decimal_string(u64::MAX), u64::MAX.to_string());
}

#[test]
fn signed_decimal_strings() {
    assert_eq!(signed_decimal_string(0), "0");
    assert_eq!(signed_decimal_string(-1), "-1");
    assert_eq!(signed_decimal_string(-120), "-120");
    assert_eq!(signed_decimal_string(i64::MAX), i64::MAX.to_string());
    assert_eq!(signed_decimal_string(i64::MIN), i64::MIN.to_string());
}
