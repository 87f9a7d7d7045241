use wasmut::output::{clear_output, get_output, output_string, OutputCapture};

#[test]
fn output_capture_works() {
    let mut capture = OutputCapture::default();
    clear_output(&mut capture);
    output_string(&mut capture, "foobar");
    assert_eq!(get_output(&capture), String::from("foobar"));

    clear_output(&mut capture);
    assert_eq!(get_output(&capture), String::from(""));
}

#[test]
fn output_appends_in_order() {
    let mut capture = OutputCapture::default();
    output_string(&mut capture, "enabled:  call_remove_void_call\n");
    output_string(&mut capture, "disabled: binop_add_to_sub\n");
    assert_eq!(
        get_output(&capture),
        "enabled:  call_remove_void_call\ndisabled: binop_add_to_sub\n"
    );
}
