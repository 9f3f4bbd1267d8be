use guest_driver::cli::{App, Arg, OptVal};
use guest_driver::text::dec_string;

fn strs(v: &[&str]) -> Vec<String> {
    v.iter().map(|s| s.to_string()).collect()
}

#[test]
fn dec_string_renders_decimal() {
    assert_eq!(dec_string(0), "0");
    assert_eq!(dec_string(7), "7");
    assert_eq!(dec_string(1024), "1024");
    assert_eq!(dec_string(65535), "65535");
    assert_eq!(dec_string(1000000), "1000000");
}

#[test]
fn flag_and_normal_opt_tokens() {
    let a = App::new("qemu")
        .arg(Arg::new_flag("-no-reboot"))
        .arg(Arg::new_opt("-display", OptVal::normal("none")));
    assert_eq!(a.bin, "qemu");
    assert_eq!(a.iter_arg(), strs(&["-no-reboot", "-display", "none"]));
}

#[test]
fn multiple_opt_joined_by_separator() {
    let a = App::new("x").arg(Arg::new_opt(
        "-cpu",
        OptVal::multiple(strs(&["host", "migratable=off"]), Some(',')),
    ));
    assert_eq!(a.iter_arg(), strs(&["-cpu", "host,migratable=off"]));
}

#[test]
fn multiple_opt_without_separator_concatenates() {
    let a = App::new("x").arg(Arg::new_opt("-k", OptVal::multiple(strs(&["a", "b", "c"]), None)));
    assert_eq!(a.iter_arg(), strs(&["-k", "abc"]));
}

#[test]
fn multiple_opt_single_value_has_no_separator() {
    let a = App::new("x").arg(Arg::new_opt("-k", OptVal::multiple(strs(&["only"]), Some(' '))));
    assert_eq!(a.iter_arg(), strs(&["-k", "only"]));
}

#[test]
fn multiple_opt_empty_values_joins_to_empty() {
    let a = App::new("x").arg(Arg::new_opt("-k", OptVal::multiple(strs(&[]), Some(','))));
    assert_eq!(a.iter_arg(), strs(&["-k", ""]));
}

#[test]
fn appending_preserves_order() {
    let mut a = App::new("x");
    for n in ["-a", "-b", "-c", "-d"] {
        a = a.arg(Arg::new_flag(n));
    }
    assert_eq!(a.iter_arg(), strs(&["-a", "-b", "-c", "-d"]));
}

#[test]
fn clone_and_append_leaves_template_untouched() {
    let template = App::new("ssh").arg(Arg::new_flag("-hardened"));
    let extended = template.clone().arg(Arg::new_opt("-p", OptVal::normal("22")));
    assert_eq!(template.iter_arg(), strs(&["-hardened"]));
    assert_eq!(extended.iter_arg(), strs(&["-hardened", "-p", "22"]));
}
