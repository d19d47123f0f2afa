use service_benchmark::http_bench_session::HttpBenchAdapterBuilder;

fn complete() -> HttpBenchAdapterBuilder {
    let mut builder = HttpBenchAdapterBuilder::default();
    builder
        .url("http://localhost:8080/1".to_string())
        .tunnel(None)
        .ignore_cert(true)
        .conn_reuse(false)
        .store_cookies(true)
        .verbose(false)
        .http2_only(true);
    builder
}

#[test]
fn complete_builder_builds_what_was_set() {
    let adapter = complete().build().expect("Every field is set");
    assert_eq!(
        "HttpBenchAdapter { url: \"http://localhost:8080/1\", tunnel: None, ignore_cert: true, \
         conn_reuse: false, store_cookies: true, verbose: false, http2_only: true }"
            .to_string(),
        format!("{:?}", adapter)
    );
}

#[test]
fn builder_keeps_a_tunnel() {
    let adapter = complete()
        .tunnel(Some("http://proxy.local:3128".to_string()))
        .ignore_cert(false)
        .build()
        .expect("Every field is set");
    assert_eq!(
        "HttpBenchAdapter { url: \"http://localhost:8080/1\", \
         tunnel: Some(\"http://proxy.local:3128\"), ignore_cert: false, \
         conn_reuse: false, store_cookies: true, verbose: false, http2_only: true }"
            .to_string(),
        format!("{:?}", adapter)
    );
}

#[test]
fn builder_takes_the_fields_in_any_order_and_keeps_the_last() {
    let adapter = HttpBenchAdapterBuilder::default()
        .http2_only(false)
        .verbose(true)
        .store_cookies(false)
        .conn_reuse(true)
        .ignore_cert(false)
        .tunnel(Some("first".to_string()))
        .tunnel(None)
        .url("http://a/".to_string())
        .url("http://b/".to_string())
        .build()
        .expect("Every field is set");
    assert_eq!(
        "HttpBenchAdapter { url: \"http://b/\", tunnel: None, ignore_cert: false, \
         conn_reuse: true, store_cookies: false, verbose: true, http2_only: false }"
            .to_string(),
        format!("{:?}", adapter)
    );
}

#[test]
fn built_adapter_is_independent_of_the_builder() {
    let mut builder = complete();
    let first = builder.build().expect("Every field is set");
    builder.url("http://elsewhere/".to_string());
    let second = builder.build().expect("Every field is set");
    assert!(format!("{:?}", first).contains("http://localhost:8080/1"));
    assert!(format!("{:?}", second).contains("http://elsewhere/"));
    assert!(format!("{:?}", first.clone()).contains("http://localhost:8080/1"));
}

#[test]
fn empty_builder_names_url() {
    let error = HttpBenchAdapterBuilder::default().build().unwrap_err();
    assert_eq!("`url` must be initialized".to_string(), error);
}

#[test]
fn builder_without_tunnel_names_it() {
    let error = HttpBenchAdapterBuilder::default()
        .url("http://localhost/".to_string())
        .ignore_cert(true)
        .conn_reuse(true)
        .store_cookies(true)
        .verbose(true)
        .http2_only(true)
        .build()
        .unwrap_err();
    assert_eq!("`tunnel` must be initialized".to_string(), error);
}

#[test]
fn builder_without_ignore_cert_names_it() {
    let error = HttpBenchAdapterBuilder::default()
        .url("http://localhost/".to_string())
        .tunnel(None)
        .conn_reuse(true)
        .store_cookies(true)
        .verbose(true)
        .http2_only(true)
        .build()
        .unwrap_err();
    assert_eq!("`ignore_cert` must be initialized".to_string(), error);
}

#[test]
fn builder_without_conn_reuse_names_it() {
    let error = HttpBenchAdapterBuilder::default()
        .url("http://localhost/".to_string())
        .tunnel(None)
        .ignore_cert(true)
        .store_cookies(true)
        .verbose(true)
        .http2_only(true)
        .build()
        .unwrap_err();
    assert_eq!("`conn_reuse` must be initialized".to_string(), error);
}

#[test]
fn builder_without_store_cookies_names_it() {
    let error = HttpBenchAdapterBuilder::default()
        .url("http://localhost/".to_string())
        .tunnel(None)
        .ignore_cert(true)
        .conn_reuse(true)
        .verbose(true)
        .http2_only(true)
        .build()
        .unwrap_err();
    assert_eq!("`store_cookies` must be initialized".to_string(), error);
}

#[test]
fn builder_without_verbose_names_it() {
    let error = HttpBenchAdapterBuilder::default()
        .url("http://localhost/".to_string())
        .tunnel(None)
        .ignore_cert(true)
        .conn_reuse(true)
        .store_cookies(true)
        .http2_only(true)
        .build()
        .unwrap_err();
    assert_eq!("`verbose` must be initialized".to_string(), error);
}

#[test]
fn builder_without_http2_only_names_it() {
    let error = HttpBenchAdapterBuilder::default()
        .url("http://localhost/".to_string())
        .tunnel(None)
        .ignore_cert(true)
        .conn_reuse(true)
        .store_cookies(true)
        .verbose(true)
        .build()
        .unwrap_err();
    assert_eq!("`http2_only` must be initialized".to_string(), error);
}

#[test]
fn builder_names_the_first_of_several_missing_fields() {
    let error = HttpBenchAdapterBuilder::default()
        .url("http://localhost/".to_string())
        .tunnel(None)
        .ignore_cert(true)
        .http2_only(true)
        .build()
        .unwrap_err();
    assert_eq!("`conn_reuse` must be initialized".to_string(), error);
}
