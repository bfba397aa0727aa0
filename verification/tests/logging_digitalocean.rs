use fastly_api::apis::configuration::{ApiKey, Configuration};
use fastly_api::apis::exchange::{Method, Request, Response, TransportError};
use fastly_api::apis::logging_digitalocean_api::{
    create_log_digocean, delete_log_digocean, get_log_digocean, list_log_digocean,
    update_log_digocean, CreateLogDigoceanError, CreateLogDigoceanParams, DeleteLogDigoceanParams,
    DeleteLogDigoceanError, GetLogDigoceanError, GetLogDigoceanParams, ListLogDigoceanError,
    ListLogDigoceanParams, UpdateLogDigoceanError, UpdateLogDigoceanParams,
};
use fastly_api::apis::ErrorEntity;
use fastly_api::apis::{ApiError, ResponseContent};

fn configuration() -> Configuration {
    Configuration {
        base_path: "https://api.fastly.com".to_string(),
        user_agent: None,
        api_key: Some(ApiKey { prefix: None, key: "SECRET-REDACTED".to_string() }),
        rate_limit_remaining: 17,
        rate_limit_reset: 23,
    }
}

fn answer(status: u16, content: &str) -> Response {
    Response {
        status,
        rate_limit_remaining: Some("998".to_string()),
        rate_limit_reset: Some("1700000360".to_string()),
        content: Ok(content.to_string()),
    }
}

fn document(body: &str) -> Result<serde_json::Value, serde_json::Error> {
    serde_json::from_str::<serde_json::Value>(body)
}

fn text(value: &str) -> Option<String> {
    Some(value.to_string())
}

#[test]
fn create_with_a_name_alone_sends_only_the_name() {
    let mut configuration = configuration();
    let mut seen: Option<Request> = None;
    let params = CreateLogDigoceanParams {
        service_id: "SU1Z0isxPaozGVKXdv0eY".to_string(),
        version_id: 1,
        name: text("abc1234"),
        ..Default::default()
    };
    let result = create_log_digocean(
        &mut configuration,
        params,
        |request| {
            seen = Some(request);
            Ok(answer(200, "{\"name\":\"abc1234\"}"))
        },
        document,
    );
    let request = seen.unwrap();
    assert_eq!(request.method, Method::Post);
    assert_eq!(
        request.url,
        "https://api.fastly.com/service/SU1Z0isxPaozGVKXdv0eY/version/1/logging/digitalocean"
    );
    assert_eq!(request.body, Some("name=abc1234".to_string()));
    assert_eq!(
        request.headers,
        vec![
            ("Fastly-Key".to_string(), "SECRET-REDACTED".to_string()),
            ("content-type".to_string(), "application/x-www-form-urlencoded".to_string()),
        ]
    );
    let payload = result.unwrap();
    assert_eq!(payload["name"], serde_json::Value::String("abc1234".to_string()));
    assert_eq!(configuration.rate_limit_remaining, 998);
    assert_eq!(configuration.rate_limit_reset, 1_700_000_360);
}

#[test]
fn create_without_any_setting_sends_an_empty_form() {
    let mut configuration = configuration();
    let mut seen: Option<Request> = None;
    let params = CreateLogDigoceanParams {
        service_id: "s".to_string(),
        version_id: 2,
        ..Default::default()
    };
    let _ = create_log_digocean(
        &mut configuration,
        params,
        |request| {
            seen = Some(request);
            Ok(answer(200, "{}"))
        },
        document,
    );
    assert_eq!(seen.unwrap().body, Some(String::new()));
}

#[test]
fn create_sends_every_setting_in_the_order_of_the_parameters() {
    let mut configuration = configuration();
    let mut seen: Option<Request> = None;
    let params = CreateLogDigoceanParams {
        service_id: "s".to_string(),
        version_id: 7,
        name: text("n"),
        placement: text("none"),
        response_condition: text("c"),
        format: text("%h %l"),
        format_version: Some(2),
        message_type: text("classic"),
        timestamp_format: text("%Y"),
        compression_codec: text("zstd"),
        period: Some(3600),
        gzip_level: Some(-1),
        bucket_name: text("b"),
        access_key: text("a"),
        secret_key: text("k"),
        domain: text("nyc3.digitaloceanspaces.com"),
        path: text("/logs/"),
        public_key: text("p"),
    };
    let _ = create_log_digocean(
        &mut configuration,
        params,
        |request| {
            seen = Some(request);
            Ok(answer(200, "{}"))
        },
        document,
    );
    assert_eq!(
        seen.unwrap().body,
        Some(
            "name=n&placement=none&response_condition=c&format=%25h+%25l&format_version=2\
             &message_type=classic&timestamp_format=%25Y&compression_codec=zstd&period=3600\
             &gzip_level=-1&bucket_name=b&access_key=a&secret_key=k\
             &domain=nyc3.digitaloceanspaces.com&path=%2Flogs%2F&public_key=p"
                .to_string()
        )
    );
}

#[test]
fn create_omits_the_settings_that_are_not_given() {
    let mut configuration = configuration();
    let mut seen: Option<Request> = None;
    let params = CreateLogDigoceanParams {
        service_id: "s".to_string(),
        version_id: 7,
        period: Some(0),
        domain: text(""),
        ..Default::default()
    };
    let _ = create_log_digocean(
        &mut configuration,
        params,
        |request| {
            seen = Some(request);
            Ok(answer(200, "{}"))
        },
        document,
    );
    assert_eq!(seen.unwrap().body, Some("period=0&domain=".to_string()));
}

#[test]
fn a_slash_in_the_service_id_stays_inside_its_segment() {
    let mut configuration = configuration();
    let mut seen: Option<Request> = None;
    let params = ListLogDigoceanParams { service_id: "a/b?c#d e".to_string(), version_id: 3 };
    let _ = list_log_digocean(
        &mut configuration,
        params,
        |request| {
            seen = Some(request);
            Ok(answer(200, "[]"))
        },
        document,
    );
    let request = seen.unwrap();
    assert_eq!(
        request.url,
        "https://api.fastly.com/service/a%2Fb%3Fc%23d+e/version/3/logging/digitalocean"
    );
    let path = request.url.strip_prefix("https://api.fastly.com").unwrap();
    let segments: Vec<&str> = path.split('/').collect();
    assert_eq!(
        segments,
        vec!["", "service", "a%2Fb%3Fc%23d+e", "version", "3", "logging", "digitalocean"]
    );
}

#[test]
fn a_slash_in_the_name_stays_inside_its_segment() {
    let mut configuration = configuration();
    let mut seen: Option<Request> = None;
    let params = DeleteLogDigoceanParams {
        service_id: "s".to_string(),
        version_id: -4,
        logging_digitalocean_name: "../other/é".to_string(),
    };
    let _ = delete_log_digocean(
        &mut configuration,
        params,
        |request| {
            seen = Some(request);
            Ok(answer(200, "{\"status\":\"ok\"}"))
        },
        document,
    );
    let request = seen.unwrap();
    assert_eq!(request.method, Method::Delete);
    assert_eq!(
        request.url,
        "https://api.fastly.com/service/s/version/-4/logging/digitalocean/..%2Fother%2F%C3%A9"
    );
    assert_eq!(request.body, None);
}

#[test]
fn get_of_a_missing_endpoint_reports_status_and_body_and_records_nothing() {
    let mut configuration = configuration();
    let mut seen: Option<Request> = None;
    let params = GetLogDigoceanParams {
        service_id: "SU1Z0isxPaozGVKXdv0eY".to_string(),
        version_id: 1,
        logging_digitalocean_name: "missing".to_string(),
    };
    let body = "{\"msg\":\"Record not found\",\"detail\":\"Cannot load digitalocean 'missing'\"}";
    let result = get_log_digocean(
        &mut configuration,
        params,
        |request| {
            seen = Some(request);
            Ok(answer(404, body))
        },
        document,
    );
    let request = seen.unwrap();
    assert_eq!(request.method, Method::Get);
    assert_eq!(
        request.url,
        "https://api.fastly.com/service/SU1Z0isxPaozGVKXdv0eY/version/1/logging/digitalocean/missing"
    );
    assert_eq!(request.body, None);
    match result {
        Err(ApiError::ResponseError(ResponseContent { status, content, entity })) => {
            assert_eq!(status, 404);
            assert_eq!(content, body);
            let Some(GetLogDigoceanError::UnknownValue(value)) = entity else {
                panic!("the body is a JSON document");
            };
            assert_eq!(value, document(body).unwrap());
        },
        other => panic!("{other:?}"),
    }
    assert_eq!(configuration.rate_limit_remaining, 17);
    assert_eq!(configuration.rate_limit_reset, 23);
}

#[test]
fn get_and_list_leave_the_quota_alone_on_success_too() {
    let mut configuration = configuration();
    let params = GetLogDigoceanParams {
        service_id: "s".to_string(),
        version_id: 1,
        logging_digitalocean_name: "n".to_string(),
    };
    let result = get_log_digocean(&mut configuration, params, |_| Ok(answer(200, "{}")), document);
    assert!(result.is_ok());
    let params = ListLogDigoceanParams { service_id: "s".to_string(), version_id: 1 };
    let result =
        list_log_digocean(&mut configuration, params, |_| Ok(answer(200, "[{},{}]")), document);
    assert_eq!(result.unwrap().as_array().unwrap().len(), 2);
    assert_eq!(configuration.rate_limit_remaining, 17);
    assert_eq!(configuration.rate_limit_reset, 23);
}

#[test]
fn update_puts_the_settings_to_the_named_endpoint() {
    let mut configuration = configuration();
    let mut seen: Option<Request> = None;
    let params = UpdateLogDigoceanParams {
        service_id: "s".to_string(),
        version_id: 12,
        logging_digitalocean_name: "old name".to_string(),
        name: text("new name"),
        gzip_level: Some(9),
        ..Default::default()
    };
    let result = update_log_digocean(
        &mut configuration,
        params,
        |request| {
            seen = Some(request);
            Ok(Response {
                status: 200,
                rate_limit_remaining: None,
                rate_limit_reset: Some("5".to_string()),
                content: Ok("{\"name\":\"new name\"}".to_string()),
            })
        },
        document,
    );
    let request = seen.unwrap();
    assert_eq!(request.method, Method::Put);
    assert_eq!(
        request.url,
        "https://api.fastly.com/service/s/version/12/logging/digitalocean/old+name"
    );
    assert_eq!(request.body, Some("name=new+name&gzip_level=9".to_string()));
    assert!(result.is_ok());
    assert_eq!(configuration.rate_limit_remaining, 1000);
    assert_eq!(configuration.rate_limit_reset, 5);
}

#[test]
fn update_sends_every_setting_in_the_order_of_the_parameters() {
    let mut configuration = configuration();
    let mut seen: Option<Request> = None;
    let params = UpdateLogDigoceanParams {
        service_id: "s".to_string(),
        version_id: 7,
        logging_digitalocean_name: "e".to_string(),
        name: text("n"),
        placement: text("none"),
        response_condition: text("c"),
        format: text("f"),
        format_version: Some(1),
        message_type: text("blank"),
        timestamp_format: text("t"),
        compression_codec: text("gzip"),
        period: Some(60),
        gzip_level: Some(0),
        bucket_name: text("b"),
        access_key: text("a"),
        secret_key: text("k"),
        domain: text("d"),
        path: text("p"),
        public_key: text("q"),
    };
    let _ = update_log_digocean(
        &mut configuration,
        params,
        |request| {
            seen = Some(request);
            Ok(answer(200, "{}"))
        },
        document,
    );
    assert_eq!(
        seen.unwrap().body,
        Some(
            "name=n&placement=none&response_condition=c&format=f&format_version=1\
             &message_type=blank&timestamp_format=t&compression_codec=gzip&period=60\
             &gzip_level=0&bucket_name=b&access_key=a&secret_key=k&domain=d&path=p&public_key=q"
                .to_string()
        )
    );
}

#[test]
fn delete_records_the_quota_even_when_the_api_refuses() {
    let mut configuration = configuration();
    let params = DeleteLogDigoceanParams {
        service_id: "s".to_string(),
        version_id: 1,
        logging_digitalocean_name: "n".to_string(),
    };
    let result = delete_log_digocean(
        &mut configuration,
        params,
        |_| Ok(answer(403, "forbidden")),
        document,
    );
    match result {
        Err(ApiError::ResponseError(found)) => {
            assert_eq!(found.status, 403);
            assert_eq!(found.content, "forbidden");
            assert!(found.entity.is_none());
        },
        other => panic!("{other:?}"),
    }
    assert_eq!(configuration.rate_limit_remaining, 998);
    assert_eq!(configuration.rate_limit_reset, 1_700_000_360);
}

#[test]
fn create_reports_a_failed_transport() {
    let mut configuration = configuration();
    let params = CreateLogDigoceanParams::default();
    let result: Result<serde_json::Value, ApiError<CreateLogDigoceanError>> = create_log_digocean(
        &mut configuration,
        params,
        |_| Err(TransportError { message: "tls handshake failed".to_string() }),
        document,
    );
    match result {
        Err(ApiError::Transport(failure)) => assert_eq!(failure.message, "tls handshake failed"),
        other => panic!("{other:?}"),
    }
    assert_eq!(configuration.rate_limit_remaining, 17);
}

#[test]
fn parameters_start_empty() {
    let params = CreateLogDigoceanParams::default();
    assert_eq!(params.service_id, "");
    assert_eq!(params.version_id, 0);
    assert!(params.name.is_none() && params.placement.is_none());
    assert!(params.response_condition.is_none() && params.format.is_none());
    assert!(params.format_version.is_none() && params.message_type.is_none());
    assert!(params.timestamp_format.is_none() && params.compression_codec.is_none());
    assert!(params.period.is_none() && params.gzip_level.is_none());
    assert!(params.bucket_name.is_none() && params.access_key.is_none());
    assert!(params.secret_key.is_none() && params.domain.is_none());
    assert!(params.path.is_none() && params.public_key.is_none());
    let params = UpdateLogDigoceanParams::default();
    assert_eq!(params.logging_digitalocean_name, "");
    assert!(params.name.is_none() && params.public_key.is_none());
    let params = GetLogDigoceanParams::default();
    assert_eq!((params.service_id.as_str(), params.version_id), ("", 0));
    assert_eq!(params.logging_digitalocean_name, "");
    let params = DeleteLogDigoceanParams::default();
    assert_eq!((params.service_id.as_str(), params.version_id), ("", 0));
    assert_eq!(params.logging_digitalocean_name, "");
    let params = ListLogDigoceanParams::default();
    assert_eq!((params.service_id.as_str(), params.version_id), ("", 0));
}

#[test]
fn every_endpoint_has_its_own_error_payload() {
    let value = document("[1]").unwrap();
    let DeleteLogDigoceanError::UnknownValue(kept) =
        DeleteLogDigoceanError::from_document(value.clone());
    assert_eq!(kept, value);
    let ListLogDigoceanError::UnknownValue(kept) = ListLogDigoceanError::from_document(value.clone());
    assert_eq!(kept, value);
    let UpdateLogDigoceanError::UnknownValue(kept) =
        UpdateLogDigoceanError::from_document(value.clone());
    assert_eq!(kept, value);
}

#[test]
fn list_reports_an_error_status_in_its_own_payload() {
    let mut configuration = configuration();
    let params = ListLogDigoceanParams { service_id: "s".to_string(), version_id: 1 };
    let result = list_log_digocean(
        &mut configuration,
        params,
        |_| Ok(answer(401, "{\"msg\":\"Provided credentials are missing or invalid\"}")),
        document,
    );
    match result {
        Err(ApiError::ResponseError(found)) => {
            assert_eq!(found.status, 401);
            assert!(matches!(found.entity, Some(ListLogDigoceanError::UnknownValue(_))));
        },
        other => panic!("{other:?}"),
    }
}
