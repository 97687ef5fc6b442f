use sd_proxy::error::ProxyError;
use sd_proxy::payload::build_edit_payload_from_store;
use sd_proxy::proxy::{plan_edit, plan_generate};
use sd_proxy::request::Operation;
use sd_proxy::reshape::{preflight_reply, reshape_reply};
use sd_proxy::route::{downstream_target, route, HttpMethod, RoutePlan};
use sd_proxy::numbers::{check_json_number, parse_i32, parse_u64};

fn multipart_body(fields: &[(&str, &str)], files: &[(&str, &str, &[u8])]) -> (Vec<u8>, String) {
    let boundary = "XBOUNDARYX";
    let mut body = Vec::new();
    for (name, value) in fields {
        body.extend_from_slice(format!("--{}\r\n", boundary).as_bytes());
        body.extend_from_slice(
            format!("Content-Disposition: form-data; name=\"{}\"\r\n\r\n", name).as_bytes(),
        );
        body.extend_from_slice(value.as_bytes());
        body.extend_from_slice(b"\r\n");
    }
    for (name, filename, data) in files {
        body.extend_from_slice(format!("--{}\r\n", boundary).as_bytes());
        body.extend_from_slice(
            format!(
                "Content-Disposition: form-data; name=\"{}\"; filename=\"{}\"\r\n",
                name, filename
            )
            .as_bytes(),
        );
        body.extend_from_slice(b"Content-Type: application/octet-stream\r\n\r\n");
        body.extend_from_slice(data);
        body.extend_from_slice(b"\r\n");
    }
    body.extend_from_slice(format!("--{}--\r\n", boundary).as_bytes());
    let content_type = format!("multipart/form-data; boundary={}", boundary);
    (body, content_type)
}

#[test]
fn json_generate_builds_the_backend_payload() {
    let body = "{\"prompt\":\"cat\",\"width\":256,\"height\":256,\"steps\":20,\"cfg_scale\":7.0,\"seed\":42,\"strength\":0.0,\"sample_method\":\"euler\",\"scheduler\":\"default\",\"negative_prompt\":\"\"}";
    let ct = Some("application/json".to_string());
    let (payload, prompt) = plan_generate(&ct, body.as_bytes().to_vec()).unwrap();
    assert_eq!(prompt, "cat");
    let v: serde_json::Value = serde_json::from_slice(&payload).unwrap();
    assert_eq!(v["batch_size"], serde_json::Value::from(1));
    assert_eq!(v["n_iter"], serde_json::Value::from(1));
    assert_eq!(v["denoising_strength"], serde_json::Value::from(0.0));
    assert_eq!(v["sampler_index"], serde_json::Value::from("euler"));
    assert_eq!(v["width"], serde_json::Value::from(256));
    assert_eq!(v["height"], serde_json::Value::from(256));
    assert_eq!(v["cfg_scale"], serde_json::Value::from(7.0));
    assert_eq!(v["steps"], serde_json::Value::from(20));
    assert_eq!(v["seed"], serde_json::Value::from(42));
    assert_eq!(v["prompt"], serde_json::Value::from("cat"));
    assert_eq!(v["negative_prompt"], serde_json::Value::from(""));
    assert_eq!(v["scheduler"], serde_json::Value::from("default"));
}

#[test]
fn json_generate_defaults_an_absent_negative_prompt() {
    let ct = Some("application/json".to_string());
    let (payload, _) = plan_generate(&ct, b"{\"prompt\":\"cat\",\"model\":\"sd\"}".to_vec())
        .unwrap();
    let v: serde_json::Value = serde_json::from_slice(&payload).unwrap();
    assert_eq!(v["negative_prompt"], serde_json::Value::from(""));
    assert_eq!(v["prompt"], serde_json::Value::from("cat"));
}

#[test]
fn multipart_wrong_kind_field_names_the_field() {
    let (body, ct) = multipart_body(&[], &[("prompt", "p.txt", b"cat")]);
    match plan_generate(&Some(ct), body) {
        Err(e @ ProxyError::Validation(_)) => {
            assert_eq!(e.status(), 400);
            assert_eq!(e.message(), "The prompt field in the request should be a text field.");
        },
        _ => panic!("a text field sent as a file part must fail validation"),
    }
}

#[test]
fn json_generate_missing_prompt_is_rejected() {
    let ct = Some("application/json".to_string());
    let r = plan_generate(&ct, b"{\"model\":\"sd\"}".to_vec());
    match r {
        Err(e @ ProxyError::Validation(_)) => {
            assert_eq!(e.status(), 400);
            assert_eq!(e.message(), "Missing required field: prompt");
        },
        _ => panic!("a generate request without a prompt must be rejected"),
    }
}

#[test]
fn json_generate_unparsable_body_is_rejected() {
    let ct = Some("application/json".to_string());
    let r = plan_generate(&ct, b"{not json".to_vec());
    match r {
        Err(e @ ProxyError::Validation(_)) => assert_eq!(e.status(), 400),
        _ => panic!("an unparsable body must be rejected, never crash"),
    }
}

#[test]
fn json_prompt_round_trips_through_escaping() {
    let original_prompt = "a \"quoted\"\\ prompt\nwith\tcontrol \u{1F600} text";
    let doc = format!(
        "{{\"prompt\":{},\"model\":\"sd\",\"negative_prompt\":\"\"}}",
        serde_json::Value::from(original_prompt)
    );
    let ct = Some("application/json".to_string());
    let (payload, prompt) = plan_generate(&ct, doc.into_bytes()).unwrap();
    assert_eq!(prompt, original_prompt);
    let v: serde_json::Value = serde_json::from_slice(&payload).unwrap();
    assert_eq!(v["prompt"], serde_json::Value::from(original_prompt));
}

#[test]
fn multipart_size_sets_height_then_width() {
    let (body, ct) = multipart_body(&[("prompt", "cat"), ("size", "512x768")], &[]);
    let (payload, _) = plan_generate(&Some(ct), body).unwrap();
    let v: serde_json::Value = serde_json::from_slice(&payload).unwrap();
    assert_eq!(v["height"], serde_json::Value::from(512));
    assert_eq!(v["width"], serde_json::Value::from(768));
}

#[test]
fn multipart_size_without_separator_fails_validation() {
    let (body, ct) = multipart_body(&[("prompt", "cat"), ("size", "512")], &[]);
    let r = plan_generate(&Some(ct), body);
    match r {
        Err(e @ ProxyError::Validation(_)) => {
            assert_eq!(e.status(), 400);
            assert_eq!(
                e.message(),
                "Invalid size format. The correct format is `HeightxWidth`. Example: 256x256"
            );
        },
        _ => panic!("a size without the separator must fail validation"),
    }
}

#[test]
fn multipart_unknown_field_fails_the_request() {
    let (body, ct) = multipart_body(&[("prompt", "cat"), ("bogus", "1")], &[]);
    let r = plan_generate(&Some(ct), body);
    match r {
        Err(e @ ProxyError::Validation(_)) => {
            assert_eq!(e.status(), 400);
            assert_eq!(e.message(), "Unsupported field: bogus");
        },
        _ => panic!("an unknown field must fail the whole request"),
    }
}

#[test]
fn multipart_negative_prompt_overwrites_prompt() {
    let (body, ct) = multipart_body(&[("prompt", "cat"), ("negative_prompt", "dog")], &[]);
    let (payload, prompt) = plan_generate(&Some(ct), body).unwrap();
    assert_eq!(prompt, "dog");
    let v: serde_json::Value = serde_json::from_slice(&payload).unwrap();
    assert_eq!(v["prompt"], serde_json::Value::from("dog"));
    assert_eq!(v["negative_prompt"], serde_json::Value::from(""));
}

#[test]
fn multipart_bad_number_fails_validation() {
    let (body, ct) = multipart_body(&[("prompt", "cat"), ("steps", "many")], &[]);
    match plan_generate(&Some(ct), body) {
        Err(e @ ProxyError::Validation(_)) => assert_eq!(e.status(), 400),
        _ => panic!("an unparsable numeric field must fail validation"),
    }
}

#[test]
fn multipart_defaults_fill_the_payload() {
    let (body, ct) = multipart_body(&[("prompt", "cat")], &[]);
    let (payload, _) = plan_generate(&Some(ct), body).unwrap();
    let v: serde_json::Value = serde_json::from_slice(&payload).unwrap();
    assert_eq!(v["cfg_scale"], serde_json::Value::from(7.0));
    assert_eq!(v["denoising_strength"], serde_json::Value::from(0.75));
    assert_eq!(v["sampler_index"], serde_json::Value::from("euler_a"));
    assert_eq!(v["scheduler"], serde_json::Value::from("discrete"));
    assert_eq!(v["height"], serde_json::Value::from(512));
    assert_eq!(v["width"], serde_json::Value::from(512));
    assert_eq!(v["seed"], serde_json::Value::from(42));
    assert_eq!(v["steps"], serde_json::Value::from(20));
}

#[test]
fn edit_without_stored_image_fails_before_any_dispatch() {
    let (body, ct) = multipart_body(&[("prompt", "restore")], &[]);
    let (req, _) = plan_edit(&Some(ct), body).unwrap();
    // nothing was uploaded, so the file store finds nothing
    let r = build_edit_payload_from_store(&req, None);
    match r {
        Err(e @ ProxyError::Validation(_)) => assert_eq!(e.status(), 400),
        _ => panic!("an edit whose image was never stored must fail validation"),
    }
}

#[test]
fn edit_payload_carries_the_base64_source_image() {
    let (body, ct) = multipart_body(
        &[("prompt", "restore")],
        &[("image", "in.png", b"hello")],
    );
    let (req, _) = plan_edit(&Some(ct), body).unwrap();
    let stored = req.source_image.as_ref().map(|u| u.data.clone());
    assert_eq!(stored.as_deref(), Some(&b"hello"[..]));
    let payload = build_edit_payload_from_store(&req, stored).unwrap();
    let v: serde_json::Value = serde_json::from_slice(&payload).unwrap();
    assert_eq!(v["init_images"], serde_json::Value::from(vec!["aGVsbG8="]));
    assert_eq!(v["prompt"], serde_json::Value::from("restore"));
}

#[test]
fn edit_mask_is_captured_but_not_sent() {
    let (body, ct) = multipart_body(
        &[("prompt", "restore")],
        &[("image", "in.png", b"img"), ("mask", "m.png", b"msk")],
    );
    let (req, _) = plan_edit(&Some(ct), body).unwrap();
    assert!(req.mask.is_some());
    let stored = req.source_image.as_ref().map(|u| u.data.clone());
    let payload = build_edit_payload_from_store(&req, stored).unwrap();
    let v: serde_json::Value = serde_json::from_slice(&payload).unwrap();
    assert!(v.get("mask").is_none());
}

#[test]
fn backend_reply_is_reshaped_in_order() {
    let reply = reshape_reply(
        200,
        b"{\"images\": [\"AAA\", \"BBB\"]}".to_vec(),
        &"dog".to_string(),
    );
    assert_eq!(reply.status, 200);
    assert_eq!(
        String::from_utf8(reply.body).unwrap(),
        "[{\"b64_json\":\"AAA\",\"prompt\":\"dog\"},{\"b64_json\":\"BBB\",\"prompt\":\"dog\"}]"
    );
    let ct = reply
        .headers
        .iter()
        .find(|h| h.0 == "Content-Type")
        .map(|h| h.1.clone());
    assert_eq!(ct.as_deref(), Some("application/json"));
}

#[test]
fn backend_reply_without_images_yields_an_empty_list() {
    let reply = reshape_reply(200, b"{\"ok\": true}".to_vec(), &"dog".to_string());
    assert_eq!(reply.status, 200);
    assert_eq!(String::from_utf8(reply.body).unwrap(), "[]");
}

#[test]
fn non_200_backend_status_is_forwarded_verbatim() {
    let reply = reshape_reply(503, b"backend busy".to_vec(), &"dog".to_string());
    assert_eq!(reply.status, 503);
    assert_eq!(reply.body, b"backend busy".to_vec());
    assert!(reply.headers.is_empty());
    let teapot = reshape_reply(418, b"{\"images\":[\"AAA\"]}".to_vec(), &"dog".to_string());
    assert_eq!(teapot.status, 418);
    assert_eq!(teapot.body, b"{\"images\":[\"AAA\"]}".to_vec());
}

#[test]
fn unparsable_200_reply_is_an_upstream_failure() {
    let reply = reshape_reply(200, b"not json".to_vec(), &"dog".to_string());
    assert_eq!(reply.status, 502);
}

#[test]
fn options_is_answered_at_the_boundary_with_cors() {
    assert_eq!(route(HttpMethod::Options, "/v1/images/generations"), RoutePlan::Preflight);
    assert_eq!(route(HttpMethod::Options, "/v1/images/edits"), RoutePlan::Preflight);
    let reply = preflight_reply();
    assert_eq!(reply.status, 200);
    assert!(reply.body.is_empty());
    let expect = [
        ("Access-Control-Allow-Origin", "*"),
        ("Access-Control-Allow-Methods", "*"),
        ("Access-Control-Allow-Headers", "*"),
        ("Content-Type", "application/json"),
    ];
    assert_eq!(reply.headers.len(), expect.len());
    for (got, want) in reply.headers.iter().zip(expect.iter()) {
        assert_eq!(got.0, want.0);
        assert_eq!(got.1, want.1);
    }
}

#[test]
fn routing_distinguishes_the_image_paths() {
    assert_eq!(route(HttpMethod::Post, "/v1/images/generations"), RoutePlan::Generate);
    assert_eq!(route(HttpMethod::Post, "/v1/images/edits"), RoutePlan::Edit);
    assert_eq!(route(HttpMethod::Other, "/v1/images/edits"), RoutePlan::BadMethod);
    assert_eq!(route(HttpMethod::Post, "/v1/chat/completions"), RoutePlan::NotFound);
}

#[test]
fn downstream_target_trims_trailing_slashes() {
    let t = downstream_target("http://host:7860/", Operation::Generate);
    assert_eq!(String::from_utf8(t).unwrap(), "http://host:7860/sdapi/v1/txt2img");
    let t = downstream_target("http://host:7860", Operation::Edit);
    assert_eq!(String::from_utf8(t).unwrap(), "http://host:7860/sdapi/v1/img2img");
}

#[test]
fn decimal_parsers_accept_exactly_the_grammar() {
    assert_eq!(parse_u64(b"0"), Some(0));
    assert_eq!(parse_u64(b"+42"), Some(42));
    assert_eq!(parse_u64(b"18446744073709551615"), Some(u64::MAX));
    assert_eq!(parse_u64(b"18446744073709551616"), None);
    assert_eq!(parse_u64(b""), None);
    assert_eq!(parse_u64(b"4x"), None);
    assert_eq!(parse_i32(b"-5"), Some(-5));
    assert_eq!(parse_i32(b"-2147483648"), Some(i32::MIN));
    assert_eq!(parse_i32(b"2147483648"), None);
    assert_eq!(parse_i32(b"1.5"), None);
    assert!(check_json_number(b"7.0"));
    assert!(check_json_number(b"-0.5e10"));
    assert!(check_json_number(b"0"));
    assert!(!check_json_number(b".5"));
    assert!(!check_json_number(b"01"));
    assert!(!check_json_number(b"1."));
    assert!(!check_json_number(b"inf"));
}
