use bellande_limit::{
    decimal_text, get_executable_path, integer_text, is_positive_number_text, local_outcome, plan_dispatch,
    remote_outcome, validate, Credentials, Dispatch, LimitError, ProcessReport, RemoteReport,
};

fn scenario_one() -> bellande_limit::LimitRequest {
    validate("[0,0]", "[10,10]", "[100,100]", "[1,1]", "[10,10]", None, "50.0", 20).unwrap()
}

#[test]
fn payload_defaults_obstacles_to_empty_list() {
    let creds = Credentials::new("key-1", "pass-1");
    let payload = scenario_one().payload(&creds);
    assert_eq!(
        payload,
        "{\"node0\":[0,0],\"node1\":[10,10],\"environment\":[100,100],\"size\":[1,1],\"goal\":[10,10],\
         \"obstacles\":[],\"search_radius\":50.0,\"sample_points\":20,\"auth\":{\"authorization_key\":\"key-1\"}}"
    );
    assert!(payload.contains(",\"obstacles\":[]"));
}

#[test]
fn payload_keeps_given_obstacles() {
    let obstacles = r#"[{"position":[1,1],"dimensions":[2,2]}]"#;
    let req = validate("[0,0]", "[10,10]", "[100,100]", "[1,1]", "[10,10]", Some(obstacles), "50.0", 20).unwrap();
    let creds = Credentials::new("k", "p");
    assert!(req.payload(&creds).contains(&format!(",\"obstacles\":{},", obstacles)));
}

#[test]
fn key_is_escaped_in_payload() {
    let creds = Credentials::new("a\"b", "p");
    let payload = scenario_one().payload(&creds);
    assert!(payload.ends_with("\"authorization_key\":\"a\\\"b\"}}"));
}

#[test]
fn executable_args_follow_payload_order() {
    let creds = Credentials::new("k", "pass-1");
    let args = scenario_one().executable_args(&creds);
    assert_eq!(
        args,
        vec!["pass-1", "[0,0]", "[10,10]", "[100,100]", "[1,1]", "[10,10]", "[]", "50.0", "20"]
    );
}

#[test]
fn dispatch_hands_both_transports_the_same_fields() {
    let creds = Credentials::new("k", "pass");
    let req = scenario_one();
    let local = plan_dispatch(&req, &creds, true, "/opt/tools", false);
    let remote = plan_dispatch(&req, &creds, false, "/opt/tools", false);
    let (program, args) = match local {
        Dispatch::Local { program, args } => (program, args),
        Dispatch::Remote { .. } => panic!("expected the executable"),
    };
    assert_eq!(program, "/opt/tools/Bellande_Limit");
    let payload = match remote {
        Dispatch::Remote { payload } => payload,
        Dispatch::Local { .. } => panic!("expected the remote service"),
    };
    let names = ["node0", "node1", "environment", "size", "goal", "obstacles", "search_radius", "sample_points"];
    for (name, value) in names.iter().zip(args.iter().skip(1)) {
        assert!(payload.contains(&format!("\"{}\":{}", name, value)));
    }
}

#[test]
fn executable_path_per_platform() {
    assert_eq!(get_executable_path("/opt/tools", false), "/opt/tools/Bellande_Limit");
    assert_eq!(get_executable_path("/opt/tools/", false), "/opt/tools/Bellande_Limit");
    assert_eq!(get_executable_path("", false), "Bellande_Limit");
    assert_eq!(get_executable_path("C:\\tools", true), "C:\\tools\\Bellande_Limit.exe");
    assert_eq!(get_executable_path("C:\\tools\\", true), "C:\\tools\\Bellande_Limit.exe");
    assert_eq!(get_executable_path("C:/tools/", true), "C:/tools/Bellande_Limit.exe");
    assert_eq!(get_executable_path("/opt/tools", false), get_executable_path("/opt/tools", false));
}

#[test]
fn control_characters_in_key_are_escaped() {
    let creds = Credentials::new("a\nb\u{1}c\\", "p");
    let payload = scenario_one().payload(&creds);
    assert!(payload.ends_with("\"authorization_key\":\"a\\nb\\u0001c\\\\\"}}"));
}

#[test]
fn integer_texts() {
    assert_eq!(integer_text(0), "0");
    assert_eq!(integer_text(-3), "-3");
    assert_eq!(integer_text(i32::MIN), "-2147483648");
    assert_eq!(integer_text(i32::MAX), "2147483647");
}

#[test]
fn missing_executable_is_reported() {
    let r = local_outcome(ProcessReport::NotLaunched, "/nowhere/Bellande_Limit");
    assert_eq!(r, Err(LimitError::ExecutableNotFound { path: "/nowhere/Bellande_Limit".to_string() }));
}

#[test]
fn executable_output_is_decoded() {
    let ok = ProcessReport::Exited { success: true, stdout: vec![b'o', b'k', 0xff], stderr: vec![] };
    assert_eq!(local_outcome(ok, "x"), Ok("ok\u{fffd}".to_string()));
    let failed = ProcessReport::Exited { success: false, stdout: b"partial".to_vec(), stderr: b"bad passcode".to_vec() };
    assert_eq!(local_outcome(failed, "x"), Err(LimitError::Subprocess { stderr: "bad passcode".to_string() }));
}

#[test]
fn server_error_is_a_network_error() {
    let r = remote_outcome(RemoteReport::Responded { status: 500, body: "{\"error\":\"boom\"}".to_string() });
    assert_eq!(r, Err(LimitError::Network { status: Some(500), body: "{\"error\":\"boom\"}".to_string() }));
}

#[test]
fn success_with_json_body_passes_through() {
    let body = "{\"limit\":[1,2]}".to_string();
    assert_eq!(remote_outcome(RemoteReport::Responded { status: 200, body: body.clone() }), Ok(body));
}

#[test]
fn success_with_non_json_body_fails() {
    let r = remote_outcome(RemoteReport::Responded { status: 200, body: "<html>".to_string() });
    assert_eq!(r, Err(LimitError::Network { status: Some(200), body: "<html>".to_string() }));
}

#[test]
fn unreachable_service_fails() {
    let r = remote_outcome(RemoteReport::Unreachable { detail: "connection refused".to_string() });
    assert_eq!(r, Err(LimitError::Network { status: None, body: "connection refused".to_string() }));
}

#[test]
fn decimal_text_values() {
    assert_eq!(decimal_text(0), "0");
    assert_eq!(decimal_text(7), "7");
    assert_eq!(decimal_text(20), "20");
    assert_eq!(decimal_text(4294967295), "4294967295");
}

#[test]
fn positive_number_texts() {
    assert!(is_positive_number_text("50.0"));
    assert!(is_positive_number_text("0.001"));
    assert!(is_positive_number_text("1e-3"));
    assert!(!is_positive_number_text("0e7"));
    assert!(!is_positive_number_text("-2"));
    assert!(!is_positive_number_text("0.000"));
}
